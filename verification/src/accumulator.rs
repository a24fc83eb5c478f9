//! The incrementally maintained hidden-layer pre-activation vector for one
//! perspective of the position.

use crate::laws::feats_sum;
use crate::network::Network;
use crate::{FEATURES, HIDDEN_SIZE};
use vstd::prelude::*;

verus! {

/// The hidden-layer pre-activation values for one perspective. Starts as the
/// network's bias vector and is kept equal to the bias plus the weight
/// columns of the currently active features.
#[derive(Clone, PartialEq, Eq)]
pub struct Accumulator {
    vals: Vec<i16>,
}

impl View for Accumulator {
    type V = Seq<i16>;

    closed spec fn view(&self) -> Seq<i16> {
        self.vals@
    }
}

impl Accumulator {
    /// Wrap an already computed hidden vector.
    pub(crate) fn from_vals(vals: Vec<i16>) -> (acc: Accumulator)
        ensures
            acc@ == vals@,
    {
        Accumulator { vals }
    }

    /// The value at hidden index `i`.
    pub fn val(&self, i: usize) -> (v: i16)
        requires
            i < self@.len(),
        ensures
            v == self@[i as int],
    {
        self.vals[i]
    }

    /// A fresh accumulator: a copy of the network's hidden-layer bias, the
    /// state in which no feature is active.
    pub fn new(net: &Network) -> (acc: Accumulator)
        requires
            net.wf(),
        ensures
            acc@ == net.spec_bias(),
            acc@.len() == HIDDEN_SIZE,
    {
        let mut vals: Vec<i16> = Vec::new();
        let mut i: usize = 0;
        while i < HIDDEN_SIZE
            invariant
                net.wf(),
                i <= HIDDEN_SIZE,
                vals@.len() == i,
                forall|j: int| 0 <= j < i ==> vals@[j] == net.spec_bias()[j],
            decreases HIDDEN_SIZE - i,
        {
            vals.push(net.bias_val(i));
            i += 1;
        }
        proof {
            net.lemma_wf_shape();
            assert(vals@ =~= net.spec_bias());
        }
        Accumulator { vals }
    }

    /// The accumulator for an active feature list, computed from scratch: a
    /// fresh accumulator with every listed feature added in turn. The result
    /// is the bias plus the from-scratch weight sum of the list, the value
    /// any order of incremental updates consistent with the list reaches.
    /// The last precondition keeps every intermediate vector, prefix by
    /// prefix, inside the 16-bit range.
    #[verifier::loop_isolation(false)]
    pub fn from_active_features(net: &Network, feats: &Vec<usize>) -> (acc: Accumulator)
        requires
            net.wf(),
            forall|k: int| 0 <= k < feats@.len() ==> #[trigger] feats@[k] < FEATURES,
            forall|k: int, i: int|
                0 <= k <= feats@.len() && 0 <= i < HIDDEN_SIZE ==> i16::MIN <= net.spec_bias()[i]
                    + #[trigger] feats_sum(*net, feats@.take(k), i) <= i16::MAX,
        ensures
            acc@.len() == HIDDEN_SIZE,
            forall|i: int|
                0 <= i < HIDDEN_SIZE ==> acc@[i] == net.spec_bias()[i] + feats_sum(
                    *net,
                    feats@,
                    i,
                ),
    {
        let mut acc = Accumulator::new(net);
        proof {
            assert(feats@.take(0) =~= Seq::empty());
        }
        let mut k: usize = 0;
        while k < feats.len()
            invariant
                k <= feats@.len(),
                acc@.len() == HIDDEN_SIZE,
                forall|i: int|
                    0 <= i < HIDDEN_SIZE ==> acc@[i] == net.spec_bias()[i] + feats_sum(
                        *net,
                        feats@.take(k as int),
                        i,
                    ),
            decreases feats@.len() - k,
        {
            proof {
                assert(feats@.take(k + 1).drop_last() =~= feats@.take(k as int));
                assert(feats@.take(k + 1).last() == feats@[k as int]);
                assert forall|i: int|
                    0 <= i < HIDDEN_SIZE implies i16::MIN <= acc@[i]
                    + #[trigger] net.spec_feature_weight(feats@[k as int] as int, i)
                    <= i16::MAX by {
                    assert(feats_sum(*net, feats@.take(k + 1), i) == feats_sum(
                        *net,
                        feats@.take(k as int),
                        i,
                    ) + net.spec_feature_weight(feats@[k as int] as int, i));
                    assert(i16::MIN <= net.spec_bias()[i] + feats_sum(*net, feats@.take(k + 1), i)
                        <= i16::MAX);
                }
            }
            acc.add_feature(feats[k], net);
            k += 1;
        }
        proof {
            assert(feats@.take(feats@.len() as int) =~= feats@);
        }
        acc
    }

    /// Add the weight column of feature `feature_idx` componentwise.
    pub fn add_feature(&mut self, feature_idx: usize, net: &Network)
        requires
            net.wf(),
            old(self)@.len() == HIDDEN_SIZE,
            feature_idx < FEATURES,
            forall|i: int|
                0 <= i < HIDDEN_SIZE ==> i16::MIN <= old(self)@[i] + #[trigger] net.spec_feature_weight(
                    feature_idx as int,
                    i,
                ) <= i16::MAX,
        ensures
            final(self)@.len() == HIDDEN_SIZE,
            forall|i: int|
                0 <= i < HIDDEN_SIZE ==> final(self)@[i] == old(self)@[i]
                    + #[trigger] net.spec_feature_weight(feature_idx as int, i),
    {
        let mut i: usize = 0;
        while i < HIDDEN_SIZE
            invariant
                net.wf(),
                old(self)@.len() == HIDDEN_SIZE,
                feature_idx < FEATURES,
                forall|k: int|
                    0 <= k < HIDDEN_SIZE ==> i16::MIN <= old(self)@[k] + #[trigger] net.spec_feature_weight(
                        feature_idx as int,
                        k,
                    ) <= i16::MAX,
                i <= HIDDEN_SIZE,
                self@.len() == HIDDEN_SIZE,
                forall|j: int|
                    0 <= j < i ==> self@[j] == old(self)@[j] + #[trigger] net.spec_feature_weight(
                        feature_idx as int,
                        j,
                    ),
                forall|j: int| i <= j < HIDDEN_SIZE ==> self@[j] == old(self)@[j],
            decreases HIDDEN_SIZE - i,
        {
            let w = net.weight(feature_idx, i);
            self.vals[i] = self.vals[i] + w;
            i += 1;
        }
    }

    /// Remove the weight column of feature `feature_idx` componentwise: the
    /// exact inverse of [`Accumulator::add_feature`].
    pub fn remove_feature(&mut self, feature_idx: usize, net: &Network)
        requires
            net.wf(),
            old(self)@.len() == HIDDEN_SIZE,
            feature_idx < FEATURES,
            forall|i: int|
                0 <= i < HIDDEN_SIZE ==> i16::MIN <= old(self)@[i] - #[trigger] net.spec_feature_weight(
                    feature_idx as int,
                    i,
                ) <= i16::MAX,
        ensures
            final(self)@.len() == HIDDEN_SIZE,
            forall|i: int|
                0 <= i < HIDDEN_SIZE ==> final(self)@[i] == old(self)@[i]
                    - #[trigger] net.spec_feature_weight(feature_idx as int, i),
    {
        let mut i: usize = 0;
        while i < HIDDEN_SIZE
            invariant
                net.wf(),
                old(self)@.len() == HIDDEN_SIZE,
                feature_idx < FEATURES,
                forall|k: int|
                    0 <= k < HIDDEN_SIZE ==> i16::MIN <= old(self)@[k] - #[trigger] net.spec_feature_weight(
                        feature_idx as int,
                        k,
                    ) <= i16::MAX,
                i <= HIDDEN_SIZE,
                self@.len() == HIDDEN_SIZE,
                forall|j: int|
                    0 <= j < i ==> self@[j] == old(self)@[j] - #[trigger] net.spec_feature_weight(
                        feature_idx as int,
                        j,
                    ),
                forall|j: int| i <= j < HIDDEN_SIZE ==> self@[j] == old(self)@[j],
            decreases HIDDEN_SIZE - i,
        {
            let w = net.weight(feature_idx, i);
            self.vals[i] = self.vals[i] - w;
            i += 1;
        }
    }
}

} // verus!
