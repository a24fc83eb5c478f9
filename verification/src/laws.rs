//! Algebra of incremental accumulator maintenance: an accumulator's value
//! after any history of feature additions and removals depends only on the
//! multiset of features left active, and matches the vector computed from
//! scratch over that active set.

use crate::network::Network;
use crate::HIDDEN_SIZE;
use vstd::prelude::*;

verus! {

/// One step of accumulator maintenance: a feature turned on or off.
pub enum FeatureOp {
    Added(usize),
    Removed(usize),
}

/// The contribution of one maintenance step to hidden index `i`.
pub open spec fn feature_delta(net: Network, op: FeatureOp, i: int) -> int {
    match op {
        FeatureOp::Added(f) => net.spec_feature_weight(f as int, i) as int,
        FeatureOp::Removed(f) => -(net.spec_feature_weight(f as int, i) as int),
    }
}

/// The total contribution of a history of maintenance steps to hidden index
/// `i`: what a run of `add_feature` / `remove_feature` calls adds to the bias.
pub open spec fn ops_delta(net: Network, ops: Seq<FeatureOp>, i: int) -> int
    decreases ops.len(),
{
    if ops.len() == 0 {
        0
    } else {
        ops_delta(net, ops.drop_last(), i) + feature_delta(net, ops.last(), i)
    }
}

/// The from-scratch sum at hidden index `i` of the weight columns of the
/// features in `fs`.
pub open spec fn feats_sum(net: Network, fs: Seq<usize>, i: int) -> int
    decreases fs.len(),
{
    if fs.len() == 0 {
        0
    } else {
        feats_sum(net, fs.drop_last(), i) + net.spec_feature_weight(fs.last() as int, i)
    }
}

/// The features a history added, in order.
pub open spec fn added_features(ops: Seq<FeatureOp>) -> Seq<usize>
    decreases ops.len(),
{
    if ops.len() == 0 {
        Seq::empty()
    } else {
        match ops.last() {
            FeatureOp::Added(f) => added_features(ops.drop_last()).push(f),
            FeatureOp::Removed(_) => added_features(ops.drop_last()),
        }
    }
}

/// The features a history removed, in order.
pub open spec fn removed_features(ops: Seq<FeatureOp>) -> Seq<usize>
    decreases ops.len(),
{
    if ops.len() == 0 {
        Seq::empty()
    } else {
        match ops.last() {
            FeatureOp::Added(_) => removed_features(ops.drop_last()),
            FeatureOp::Removed(f) => removed_features(ops.drop_last()).push(f),
        }
    }
}

/// Removing one feature from a feature list subtracts exactly its weight
/// from the from-scratch sum.
proof fn lemma_feats_sum_remove(net: Network, fs: Seq<usize>, j: int, i: int)
    requires
        0 <= j < fs.len(),
    ensures
        feats_sum(net, fs.remove(j), i) == feats_sum(net, fs, i) - net.spec_feature_weight(
            fs[j] as int,
            i,
        ),
    decreases fs.len(),
{
    if j == fs.len() - 1 {
        assert(fs.remove(j) =~= fs.drop_last());
    } else {
        assert(fs.remove(j).drop_last() =~= fs.drop_last().remove(j));
        assert(fs.remove(j).last() == fs.last());
        lemma_feats_sum_remove(net, fs.drop_last(), j, i);
    }
}

/// The from-scratch sum does not depend on the order of the feature list:
/// two lists with the same multiset of features sum to the same value.
pub proof fn lemma_feats_sum_permutation(net: Network, a: Seq<usize>, b: Seq<usize>, i: int)
    requires
        a.to_multiset() == b.to_multiset(),
    ensures
        feats_sum(net, a, i) == feats_sum(net, b, i),
    decreases a.len(),
{
    broadcast use vstd::seq_lib::group_to_multiset_ensures;

    if a.len() > 0 {
        let x = a.last();
        assert(a.to_multiset().count(x) > 0) by {
            assert(a.contains(x));
        }
        assert(b.contains(x)) by {
            assert(b.to_multiset().count(x) > 0);
        }
        let j = b.index_of(x);
        lemma_feats_sum_remove(net, b, j, i);
        assert(a.drop_last() =~= a.remove(a.len() - 1));
        assert(a.remove(a.len() - 1).to_multiset() == a.to_multiset().remove(x));
        assert(b.remove(j).to_multiset() == b.to_multiset().remove(x));
        lemma_feats_sum_permutation(net, a.drop_last(), b.remove(j), i);
    } else {
        assert(b.to_multiset().len() == 0);
        if b.len() > 0 {
            assert(b.contains(b.last()));
            assert(b.to_multiset().count(b.last()) > 0);
        }
    }
}

/// The from-scratch sum of two feature lists laid end to end is the sum of
/// their from-scratch sums.
pub proof fn lemma_feats_sum_concat(net: Network, a: Seq<usize>, b: Seq<usize>, i: int)
    ensures
        feats_sum(net, a + b, i) == feats_sum(net, a, i) + feats_sum(net, b, i),
    decreases b.len(),
{
    if b.len() == 0 {
        assert(a + b =~= a);
    } else {
        assert((a + b).drop_last() =~= a + b.drop_last());
        assert((a + b).last() == b.last());
        lemma_feats_sum_concat(net, a, b.drop_last(), i);
    }
}

/// A history's total contribution splits into the sum over its additions
/// minus the sum over its removals.
pub proof fn lemma_ops_delta_split(net: Network, ops: Seq<FeatureOp>, i: int)
    ensures
        ops_delta(net, ops, i) == feats_sum(net, added_features(ops), i) - feats_sum(
            net,
            removed_features(ops),
            i,
        ),
    decreases ops.len(),
{
    if ops.len() > 0 {
        lemma_ops_delta_split(net, ops.drop_last(), i);
        match ops.last() {
            FeatureOp::Added(f) => {
                assert(added_features(ops) == added_features(ops.drop_last()).push(f));
                assert(added_features(ops).drop_last() =~= added_features(ops.drop_last()));
                assert(removed_features(ops) == removed_features(ops.drop_last()));
            },
            FeatureOp::Removed(f) => {
                assert(removed_features(ops) == removed_features(ops.drop_last()).push(f));
                assert(removed_features(ops).drop_last() =~= removed_features(ops.drop_last()));
                assert(added_features(ops) == added_features(ops.drop_last()));
            },
        }
    }
}

/// Incremental/from-scratch equivalence. Any history of feature additions
/// and removals whose additions, as a multiset, are exactly its removals
/// plus an active feature list contributes to each hidden index exactly the
/// from-scratch sum over that active list. In particular every order of
/// add/remove calls consistent with the same active set yields the same
/// accumulator.
pub proof fn lemma_history_matches_active_set(
    net: Network,
    ops: Seq<FeatureOp>,
    active: Seq<usize>,
    i: int,
)
    requires
        added_features(ops).to_multiset() == removed_features(ops).to_multiset().add(
            active.to_multiset(),
        ),
    ensures
        ops_delta(net, ops, i) == feats_sum(net, active, i),
{
    broadcast use vstd::seq_lib::lemma_multiset_commutative;

    lemma_ops_delta_split(net, ops, i);
    assert((removed_features(ops) + active).to_multiset() == removed_features(
        ops,
    ).to_multiset().add(active.to_multiset()));
    lemma_feats_sum_permutation(net, added_features(ops), removed_features(ops) + active, i);
    lemma_feats_sum_concat(net, removed_features(ops), active, i);
}

/// Two histories consistent with the same active feature list contribute the
/// same value: add/remove order cannot be observed in the accumulator.
pub proof fn lemma_histories_agree(
    net: Network,
    ops1: Seq<FeatureOp>,
    ops2: Seq<FeatureOp>,
    active: Seq<usize>,
    i: int,
)
    requires
        added_features(ops1).to_multiset() == removed_features(ops1).to_multiset().add(
            active.to_multiset(),
        ),
        added_features(ops2).to_multiset() == removed_features(ops2).to_multiset().add(
            active.to_multiset(),
        ),
    ensures
        ops_delta(net, ops1, i) == ops_delta(net, ops2, i),
{
    lemma_history_matches_active_set(net, ops1, active, i);
    lemma_history_matches_active_set(net, ops2, active, i);
}

/// Add/remove inverse law: adding a feature and then removing it returns an
/// accumulator to its previous values, bit for bit. The two premises are the
/// componentwise contracts of `add_feature` and `remove_feature`.
pub proof fn lemma_add_remove_roundtrip(
    net: Network,
    before: Seq<i16>,
    mid: Seq<i16>,
    after: Seq<i16>,
    f: usize,
)
    requires
        before.len() == HIDDEN_SIZE,
        mid.len() == HIDDEN_SIZE,
        after.len() == HIDDEN_SIZE,
        forall|i: int|
            0 <= i < HIDDEN_SIZE ==> mid[i] == before[i] + net.spec_feature_weight(f as int, i),
        forall|i: int|
            0 <= i < HIDDEN_SIZE ==> after[i] == mid[i] - net.spec_feature_weight(f as int, i),
    ensures
        after == before,
{
    assert(after =~= before);
}

} // verus!

