//! The immutable weight store: quantized parameters of the network, loaded
//! once from a fixed-layout binary blob, plus the output-layer evaluation.

use crate::accumulator::Accumulator;
use crate::{FEATURES, HIDDEN_SIZE, NETWORK_BYTES, QA, QB, SCALE};
use vstd::prelude::*;

verus! {

/// The quantized parameters of the network. Immutable after [`Network::load`].
pub struct Network {
    /// Column-major feature weights: one column of `HIDDEN_SIZE` values per
    /// input feature, stored as the accumulator it contributes.
    feature_weights: Vec<Accumulator>,
    /// Hidden-layer bias; also the initial value of a fresh accumulator.
    feature_bias: Accumulator,
    /// Output-layer weights: first the side-to-move half, then the other
    /// side's half, `HIDDEN_SIZE` values each.
    output_weights: Vec<i16>,
    /// Scalar output bias.
    output_bias: i16,
}

impl Network {
    /// The weight of feature `f` at hidden index `i`.
    pub closed spec fn spec_feature_weight(&self, f: int, i: int) -> i16 {
        self.feature_weights@[f]@[i]
    }

    /// The hidden-layer bias vector.
    pub closed spec fn spec_bias(&self) -> Seq<i16> {
        self.feature_bias@
    }

    /// The output-layer weight at index `j` in `[0, 2 * HIDDEN_SIZE)`.
    pub closed spec fn spec_output_weight(&self, j: int) -> i16 {
        self.output_weights@[j]
    }

    /// The scalar output bias.
    pub closed spec fn spec_output_bias(&self) -> i16 {
        self.output_bias
    }

    /// Well-formedness: every table has the shape the architecture fixes.
    pub closed spec fn wf(&self) -> bool {
        &&& self.feature_weights@.len() == FEATURES
        &&& forall|f: int|
            0 <= f < FEATURES ==> (#[trigger] self.feature_weights@[f])@.len() == HIDDEN_SIZE
        &&& self.feature_bias@.len() == HIDDEN_SIZE
        &&& self.output_weights@.len() == 2 * HIDDEN_SIZE
    }

    /// A well-formed network's bias vector has the hidden layer's length.
    pub proof fn lemma_wf_shape(&self)
        requires
            self.wf(),
        ensures
            self.spec_bias().len() == HIDDEN_SIZE,
    {
    }

    /// Output bias plus both perspectives' activated contributions: the
    /// 32-bit accumulation steps of the evaluation, before rescaling. The
    /// magnitudes of clipped activations and 16-bit weights keep every
    /// partial sum inside the 32-bit range.
    #[verifier::loop_isolation(false)]
    fn output_accumulation(&self, us: &Accumulator, them: &Accumulator) -> (o: i32)
        requires
            self.wf(),
            us@.len() == HIDDEN_SIZE,
            them@.len() == HIDDEN_SIZE,
        ensures
            o == eval_sum(*self, us@, them@),
    {
        let mut output: i32 = self.output_bias as i32;
        let mut i: usize = 0;
        while i < HIDDEN_SIZE
            invariant
                i <= HIDDEN_SIZE,
                output == self.spec_output_bias() + perspective_sum(*self, us@, 0, i as int),
                -32768 - i * 8355840 <= output <= 32768 + i * 8355840,
            decreases HIDDEN_SIZE - i,
        {
            let c = crelu(us.val(i));
            let w = self.output_weights[i];
            proof {
                assert(-8355840 <= c * w <= 8355840) by (nonlinear_arith)
                    requires
                        0 <= c <= 255,
                        -32768 <= w <= 32767,
                ;
            }
            output = output + c * (w as i32);
            i += 1;
        }
        let mut j: usize = 0;
        while j < HIDDEN_SIZE
            invariant
                j <= HIDDEN_SIZE,
                output == self.spec_output_bias() + perspective_sum(
                    *self,
                    us@,
                    0,
                    HIDDEN_SIZE as int,
                ) + perspective_sum(*self, them@, HIDDEN_SIZE as int, j as int),
                -32768 - (HIDDEN_SIZE + j) * 8355840 <= output <= 32768 + (HIDDEN_SIZE + j)
                    * 8355840,
            decreases HIDDEN_SIZE - j,
        {
            let c = crelu(them.val(j));
            let w = self.output_weights[HIDDEN_SIZE + j];
            proof {
                assert(-8355840 <= c * w <= 8355840) by (nonlinear_arith)
                    requires
                        0 <= c <= 255,
                        -32768 <= w <= 32767,
                ;
            }
            output = output + c * (w as i32);
            j += 1;
        }
        output
    }

    /// Rescale an output accumulation: multiply by `SCALE`, then divide by
    /// `QA * QB`, truncating toward zero.
    fn rescale(output: i32) -> (score: i32)
        requires
            -0x7fff_ffff <= output * SCALE <= 0x7fff_ffff,
        ensures
            score == div_toward_zero(output * SCALE, QA as int * QB as int),
    {
        let scaled = output * SCALE;
        let q: i32 = (QA as i32) * (QB as i32);
        if scaled >= 0 {
            scaled / q
        } else {
            -((-scaled) / q)
        }
    }

    /// The score of a position, from the two perspectives' accumulators: the
    /// output bias plus each activated hidden value times its output weight,
    /// scaled by `SCALE` and divided by `QA * QB`, truncating toward zero.
    /// The precondition keeps the 32-bit rescale of the accumulated output
    /// inside the `i32` range; `checked_evaluate` tests it at run time.
    pub fn evaluate(&self, us: &Accumulator, them: &Accumulator) -> (score: i32)
        requires
            self.wf(),
            us@.len() == HIDDEN_SIZE,
            them@.len() == HIDDEN_SIZE,
            -0x7fff_ffff <= eval_sum(*self, us@, them@) * SCALE <= 0x7fff_ffff,
        ensures
            score == spec_evaluate(*self, us@, them@),
    {
        let output = self.output_accumulation(us, them);
        Self::rescale(output)
    }

    /// The score of a position, with the rescale bound of [`Network::evaluate`]
    /// tested at run time: `None` exactly when the scaled output accumulation
    /// would leave the 32-bit range the evaluation computes in.
    pub fn checked_evaluate(&self, us: &Accumulator, them: &Accumulator) -> (r: Option<i32>)
        requires
            self.wf(),
            us@.len() == HIDDEN_SIZE,
            them@.len() == HIDDEN_SIZE,
        ensures
            r is Some <==> -0x7fff_ffff <= eval_sum(*self, us@, them@) * SCALE <= 0x7fff_ffff,
            r is Some ==> r->Some_0 == spec_evaluate(*self, us@, them@),
    {
        let output = self.output_accumulation(us, them);
        if -5368709 <= output && output <= 5368709 {
            Some(Self::rescale(output))
        } else {
            None
        }
    }

    /// Deserialize a network from its fixed binary layout: feature weights
    /// column by column, then the feature bias, the output weights and the
    /// output bias, each a little-endian signed 16-bit value. Returns `None`,
    /// and no network, exactly when the buffer's length is not
    /// [`NETWORK_BYTES`].
    #[verifier::loop_isolation(false)]
    pub fn load(bytes: &Vec<u8>) -> (r: Option<Network>)
        ensures
            r is Some <==> bytes@.len() == NETWORK_BYTES,
            r is Some ==> {
                let net = r->Some_0;
                &&& net.wf()
                &&& forall|f: int, i: int|
                    0 <= f < FEATURES && 0 <= i < HIDDEN_SIZE
                        ==> #[trigger] net.spec_feature_weight(f, i) == spec_i16_le(
                        bytes@,
                        2 * (f * (HIDDEN_SIZE as int) + i),
                    )
                &&& forall|i: int|
                    0 <= i < HIDDEN_SIZE ==> #[trigger] net.spec_bias()[i] == spec_i16_le(
                        bytes@,
                        2 * ((FEATURES * HIDDEN_SIZE) as int + i),
                    )
                &&& forall|j: int|
                    0 <= j < 2 * HIDDEN_SIZE ==> #[trigger] net.spec_output_weight(j)
                        == spec_i16_le(
                        bytes@,
                        2 * ((FEATURES * HIDDEN_SIZE + HIDDEN_SIZE) as int + j),
                    )
                &&& net.spec_output_bias() == spec_i16_le(bytes@, NETWORK_BYTES as int - 2)
            },
    {
        if bytes.len() != NETWORK_BYTES {
            return None;
        }
        let mut feature_weights: Vec<Accumulator> = Vec::new();
        let mut f: usize = 0;
        while f < FEATURES
            invariant
                f <= FEATURES,
                feature_weights@.len() == f,
                forall|g: int|
                    0 <= g < f ==> (#[trigger] feature_weights@[g])@.len() == HIDDEN_SIZE,
                forall|g: int, i: int|
                    #![trigger feature_weights@[g]@[i]]
                    0 <= g < f && 0 <= i < HIDDEN_SIZE ==> feature_weights@[g]@[i] == spec_i16_le(
                        bytes@,
                        2 * (g * (HIDDEN_SIZE as int) + i),
                    ),
            decreases FEATURES - f,
        {
            let mut col: Vec<i16> = Vec::new();
            let mut i: usize = 0;
            while i < HIDDEN_SIZE
                invariant
                    f < FEATURES,
                    i <= HIDDEN_SIZE,
                    col@.len() == i,
                    forall|k: int|
                        0 <= k < i ==> #[trigger] col@[k] == spec_i16_le(
                            bytes@,
                            2 * (f * (HIDDEN_SIZE as int) + k),
                        ),
                decreases HIDDEN_SIZE - i,
            {
                let off = 2 * (f * HIDDEN_SIZE + i);
                col.push(read_i16_le(bytes[off], bytes[off + 1]));
                i += 1;
            }
            feature_weights.push(Accumulator::from_vals(col));
            f += 1;
        }
        let mut bias_vals: Vec<i16> = Vec::new();
        let mut i: usize = 0;
        while i < HIDDEN_SIZE
            invariant
                i <= HIDDEN_SIZE,
                bias_vals@.len() == i,
                forall|k: int|
                    0 <= k < i ==> #[trigger] bias_vals@[k] == spec_i16_le(
                        bytes@,
                        2 * ((FEATURES * HIDDEN_SIZE) as int + k),
                    ),
            decreases HIDDEN_SIZE - i,
        {
            let off = 2 * (FEATURES * HIDDEN_SIZE + i);
            bias_vals.push(read_i16_le(bytes[off], bytes[off + 1]));
            i += 1;
        }
        let mut output_weights: Vec<i16> = Vec::new();
        let mut j: usize = 0;
        while j < 2 * HIDDEN_SIZE
            invariant
                j <= 2 * HIDDEN_SIZE,
                output_weights@.len() == j,
                forall|k: int|
                    0 <= k < j ==> #[trigger] output_weights@[k] == spec_i16_le(
                        bytes@,
                        2 * ((FEATURES * HIDDEN_SIZE + HIDDEN_SIZE) as int + k),
                    ),
            decreases 2 * HIDDEN_SIZE - j,
        {
            let off = 2 * (FEATURES * HIDDEN_SIZE + HIDDEN_SIZE + j);
            output_weights.push(read_i16_le(bytes[off], bytes[off + 1]));
            j += 1;
        }
        let output_bias = read_i16_le(bytes[NETWORK_BYTES - 2], bytes[NETWORK_BYTES - 1]);
        Some(
            Network {
                feature_weights,
                feature_bias: Accumulator::from_vals(bias_vals),
                output_weights,
                output_bias,
            },
        )
    }

    /// The weight of feature `f` at hidden index `i`, as executable code.
    pub(crate) fn weight(&self, f: usize, i: usize) -> (w: i16)
        requires
            self.wf(),
            f < FEATURES,
            i < HIDDEN_SIZE,
        ensures
            w == self.spec_feature_weight(f as int, i as int),
    {
        self.feature_weights[f].val(i)
    }

    /// The hidden-layer bias at index `i`, as executable code.
    pub(crate) fn bias_val(&self, i: usize) -> (b: i16)
        requires
            self.wf(),
            i < HIDDEN_SIZE,
        ensures
            b == self.spec_bias()[i as int],
    {
        self.feature_bias.val(i)
    }
}

/// Truncating integer division (toward zero) of `a` by a positive `b`, the
/// rounding the final rescale of a score uses.
pub open spec fn div_toward_zero(a: int, b: int) -> int {
    if a >= 0 {
        a / b
    } else {
        -((-a) / b)
    }
}

/// The first `k` terms of one perspective's contribution to the output:
/// activated hidden values times the output weights starting at `base`.
pub open spec fn perspective_sum(net: Network, acc: Seq<i16>, base: int, k: int) -> int
    decreases k,
{
    if k <= 0 {
        0
    } else {
        perspective_sum(net, acc, base, k - 1) + crelu_spec(acc[k - 1]) * net.spec_output_weight(
            base + k - 1,
        )
    }
}

/// The full 32-bit output accumulation before rescaling: output bias plus the
/// side-to-move perspective against the first half of the output weights plus
/// the other perspective against the second half.
pub open spec fn eval_sum(net: Network, us: Seq<i16>, them: Seq<i16>) -> int {
    net.spec_output_bias() + perspective_sum(net, us, 0, HIDDEN_SIZE as int) + perspective_sum(
        net,
        them,
        HIDDEN_SIZE as int,
        HIDDEN_SIZE as int,
    )
}

/// The score of a position: the output accumulation, scaled by `SCALE` and
/// divided, truncating toward zero, by `QA * QB`.
pub open spec fn spec_evaluate(net: Network, us: Seq<i16>, them: Seq<i16>) -> int {
    div_toward_zero(eval_sum(net, us, them) * SCALE, QA as int * QB as int)
}

/// The value of a signed 16-bit integer with little-endian bytes `lo`, `hi`.
pub open spec fn spec_i16_of_bytes(lo: u8, hi: u8) -> int {
    let v = lo + 256 * hi;
    if v < 0x8000 {
        v
    } else {
        v - 0x10000
    }
}

/// The signed 16-bit value stored little-endian at byte offset `off` of `b`.
pub open spec fn spec_i16_le(b: Seq<u8>, off: int) -> int {
    spec_i16_of_bytes(b[off], b[off + 1])
}

/// Decode one little-endian signed 16-bit value from its two bytes.
fn read_i16_le(lo: u8, hi: u8) -> (r: i16)
    ensures
        r == spec_i16_of_bytes(lo, hi),
{
    let wide: u32 = lo as u32 + 256 * (hi as u32);
    if wide < 0x8000 {
        wide as i16
    } else {
        (wide as i32 - 0x10000) as i16
    }
}

/// The activation between the two layers: widen to 32 bits, then clamp to
/// `[0, QA]`.
pub open spec fn crelu_spec(x: i16) -> int {
    if x < 0 {
        0
    } else if x > QA {
        QA as int
    } else {
        x as int
    }
}

/// Clipped ReLU: zero at or below `0`, identity strictly between `0` and
/// `QA`, saturating at `QA` above that.
pub fn crelu(x: i16) -> (r: i32)
    ensures
        r == crelu_spec(x),
        x <= 0 ==> r == 0,
        0 < x < QA ==> r == x,
        x >= QA ==> r == QA,
{
    let wide = x as i32;
    if wide < 0 {
        0
    } else if wide > QA as i32 {
        QA as i32
    } else {
        wide
    }
}

} // verus!
