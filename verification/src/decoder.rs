//! The decoder: the incremental evaluation of the first layer along the scan
//! order, and the terminal path from a complete accumulator to the output
//! logit.

use vstd::prelude::*;
use crate::layers::{Embedding, Linear};
use crate::layout::{FeatureGroup, EM0_DIMS, EM1_DIMS, INPUT_DIMS, T_DIMS, X_DIMS, Y_DIMS};
use crate::quant::{ints, mish, mish_seq, ACC_LIMIT, INPUT_SCALE, TERM_LIMIT};

verus! {

/// The width of the first hidden layer.
pub const HIDDEN0_DIMS: usize = 128;

/// The width of the second hidden layer.
pub const HIDDEN1_DIMS: usize = 96;

/// The scratch state of one pixel: the pre-activation of the first layer.
pub type Accumulator = [i32; HIDDEN0_DIMS];

/// The weights of one trained network: two time embeddings of `N0` and `N1`
/// rows, three linear layers, and the scale of the stored weights.
pub struct Model<const N0: usize, const N1: usize> {
    pub weight_scale: i32,
    pub em0: Embedding<N0, EM0_DIMS>,
    pub em1: Embedding<N1, EM1_DIMS>,
    pub l0: Linear<INPUT_DIMS, HIDDEN0_DIMS>,
    pub l1: Linear<HIDDEN0_DIMS, HIDDEN1_DIMS>,
    pub l2: Linear<HIDDEN1_DIMS, 1>,
}

/// Every element of `acc` is at most `bound` in magnitude.
pub open spec fn within(acc: Seq<int>, bound: int) -> bool {
    forall|o: int| 0 <= o < acc.len() ==> -bound <= #[trigger] acc[o] <= bound
}

/// Every element of `acc` is at most `ACC_LIMIT` in magnitude.
pub open spec fn within_limit(acc: Seq<int>) -> bool {
    within(acc, ACC_LIMIT as int)
}

impl<const N0: usize, const N1: usize> Model<N0, N1> {
    /// The weight scale is positive and its product with the input scale is a
    /// 32-bit integer, both embeddings have a row, the bias of each layer
    /// leaves room for its dot product, and the byte size of the tables can
    /// be counted in a `usize`.
    pub open spec fn wf(&self) -> bool {
        &&& self.weight_scale > 0
        &&& INPUT_SCALE * self.weight_scale <= i32::MAX
        &&& N0 > 0
        &&& N1 > 0
        &&& self.l0.wf()
        &&& self.l1.wf()
        &&& self.l2.wf()
        &&& Self::spec_decoder_size() <= usize::MAX
    }

    /// The byte size of the five weight tables together.
    pub open spec fn spec_decoder_size() -> int {
        Embedding::<N0, EM0_DIMS>::spec_byte_size() + Embedding::<N1, EM1_DIMS>::spec_byte_size()
            + Linear::<INPUT_DIMS, HIDDEN0_DIMS>::spec_byte_size() + Linear::<
            HIDDEN0_DIMS,
            HIDDEN1_DIMS,
        >::spec_byte_size() + Linear::<HIDDEN1_DIMS, 1>::spec_byte_size()
    }

    /// The accumulator before any feature group has been added.
    pub open spec fn init_spec(&self) -> Seq<int> {
        self.l0.bias_ints()
    }

    /// `acc` after the contribution of `input`, which holds the features of
    /// `group`, has been added.
    pub open spec fn add_group_spec(&self, acc: Seq<int>, group: FeatureGroup, input: Seq<i8>) -> Seq<
        int,
    > {
        self.l0.accumulate(acc, group.spec_layout().offset as int, input)
    }

    /// `acc` after the time features have been added: the sines and cosines
    /// of the time coordinate and the two blended embedding rows.
    pub open spec fn add_time_spec(
        &self,
        acc: Seq<int>,
        t_sin: Seq<i8>,
        t_cos: Seq<i8>,
        em0: Seq<i8>,
        em1: Seq<i8>,
    ) -> Seq<int> {
        let a1 = self.add_group_spec(acc, FeatureGroup::TSin, t_sin);
        let a2 = self.add_group_spec(a1, FeatureGroup::TCos, t_cos);
        let a3 = self.add_group_spec(a2, FeatureGroup::Em0, em0);
        self.add_group_spec(a3, FeatureGroup::Em1, em1)
    }

    /// `acc` after the row features have been added.
    pub open spec fn add_y_spec(&self, acc: Seq<int>, y_sin: Seq<i8>, y_cos: Seq<i8>) -> Seq<int> {
        self.add_group_spec(self.add_group_spec(acc, FeatureGroup::YSin, y_sin), FeatureGroup::YCos, y_cos)
    }

    /// `acc` after the column features have been added.
    pub open spec fn add_x_spec(&self, acc: Seq<int>, x_sin: Seq<i8>, x_cos: Seq<i8>) -> Seq<int> {
        self.add_group_spec(self.add_group_spec(acc, FeatureGroup::XSin, x_sin), FeatureGroup::XCos, x_cos)
    }

    /// The output logit for a complete accumulator, in accumulator units:
    /// activation, second layer, activation, third layer.
    pub open spec fn decode_spec(&self, acc: Seq<int>) -> int {
        let hidden0 = mish_seq(acc, self.weight_scale as int);
        let hidden1 = mish_seq(self.l1.forward_spec(hidden0), self.weight_scale as int);
        self.l2.forward_spec(hidden1)[0]
    }

    /// The output logit for a full input vector, evaluated in one pass.
    pub open spec fn model_spec(&self, input: Seq<i8>) -> int {
        self.decode_spec(self.l0.forward_spec(input))
    }

    /// Adding `input` at `offset` to an accumulator within `bound` leaves it
    /// within `bound` plus room for `input.len()` products.
    pub proof fn lemma_accumulate_within(&self, acc: Seq<int>, offset: int, input: Seq<i8>, bound: int)
        requires
            within(acc, bound),
        ensures
            within(self.l0.accumulate(acc, offset, input), bound + input.len() * TERM_LIMIT),
            self.l0.accumulate(acc, offset, input).len() == acc.len(),
    {
        assert forall|o: int| 0 <= o < acc.len() implies -(bound + input.len() * TERM_LIMIT)
            <= #[trigger] self.l0.accumulate(acc, offset, input)[o] <= bound + input.len()
            * TERM_LIMIT by {
            self.l0.lemma_slice_dot_bound(offset, input, o, input.len());
            assert(-bound <= acc[o] <= bound);
        }
    }

    /// Whether the model is well-formed.
    pub fn is_wf(&self) -> (ok: bool)
        ensures
            ok == self.wf(),
    {
        if self.weight_scale <= 0 || self.weight_scale > i32::MAX / INPUT_SCALE || N0 == 0 || N1 == 0 {
            return false;
        }
        if !self.l0.is_wf() || !self.l1.is_wf() || !self.l2.is_wf() {
            return false;
        }
        let room: usize = usize::MAX - 28644;
        if N0 > room / 20 {
            assert(N0 * 20 > room) by (nonlinear_arith)
                requires
                    N0 > room / 20,
            ;
            return false;
        }
        assert(N0 * 20 <= room) by (nonlinear_arith)
            requires
                N0 <= room / 20,
        ;
        let rest: usize = room - N0 * 20;
        if N1 > rest / 44 {
            assert(N1 * 44 > rest) by (nonlinear_arith)
                requires
                    N1 > rest / 44,
            ;
            return false;
        }
        assert(N1 * 44 <= rest) by (nonlinear_arith)
            requires
                N1 <= rest / 44,
        ;
        true
    }
}

/// Whether every element of `acc` is at most `ACC_LIMIT` in magnitude.
pub fn accumulator_within_limit(acc: &Accumulator) -> (ok: bool)
    ensures
        ok == within_limit(ints(acc@)),
{
    let mut o: usize = 0;
    while o < HIDDEN0_DIMS
        invariant
            0 <= o <= HIDDEN0_DIMS,
            forall|p: int| 0 <= p < o ==> -ACC_LIMIT <= #[trigger] ints(acc@)[p] <= ACC_LIMIT,
        decreases HIDDEN0_DIMS - o,
    {
        if acc[o] < -ACC_LIMIT || acc[o] > ACC_LIMIT {
            assert(!(-ACC_LIMIT <= ints(acc@)[o as int] <= ACC_LIMIT));
            return false;
        }
        o += 1;
    }
    true
}

/// Starts a pixel: sets `acc` to the bias of the first layer.
pub fn init_accumulator<const N0: usize, const N1: usize>(
    weights: &Model<N0, N1>,
    acc: &mut Accumulator,
)
    ensures
        ints(final(acc)@) == weights.init_spec(),
        *final(acc) == weights.l0.bias,
{
    weights.l0.init_accumulator(acc);
}

/// Adds the features of one group to an accumulator that is within `bound`.
fn add_group<const N0: usize, const N1: usize>(
    weights: &Model<N0, N1>,
    group: FeatureGroup,
    input: &[i8],
    acc: &mut Accumulator,
    Ghost(bound): Ghost<int>,
)
    requires
        input@.len() == group.spec_layout().dims,
        within(ints(old(acc)@), bound),
        bound + input@.len() * TERM_LIMIT <= i32::MAX,
    ensures
        ints(final(acc)@) == weights.add_group_spec(ints(old(acc)@), group, input@),
        within(ints(final(acc)@), bound + input@.len() * TERM_LIMIT),
{
    let offset: usize = group.layout().offset;
    proof {
        let start = ints(acc@);
        assert forall|o: int| 0 <= o < HIDDEN0_DIMS implies i32::MIN + input@.len() * TERM_LIMIT
            <= #[trigger] start[o] <= i32::MAX - input@.len() * TERM_LIMIT by {
            assert(-bound <= start[o] <= bound);
        }
        weights.l0.lemma_room_fits(start, offset as int, input@);
        weights.lemma_accumulate_within(start, offset as int, input@, bound);
    }
    weights.l0.partial_forward(offset, input, acc);
}

/// Adds the contribution of the first time embedding, already blended and
/// quantized, to `acc`.
pub fn add_embedding_0<const N0: usize, const N1: usize>(
    weights: &Model<N0, N1>,
    em: &[i8; EM0_DIMS],
    acc: &mut Accumulator,
)
    requires
        within_limit(ints(old(acc)@)),
    ensures
        ints(final(acc)@) == weights.add_group_spec(ints(old(acc)@), FeatureGroup::Em0, em@),
{
    add_group(weights, FeatureGroup::Em0, em, acc, Ghost(ACC_LIMIT as int));
}

/// Adds the contribution of the second time embedding, already blended and
/// quantized, to `acc`.
pub fn add_embedding_1<const N0: usize, const N1: usize>(
    weights: &Model<N0, N1>,
    em: &[i8; EM1_DIMS],
    acc: &mut Accumulator,
)
    requires
        within_limit(ints(old(acc)@)),
    ensures
        ints(final(acc)@) == weights.add_group_spec(ints(old(acc)@), FeatureGroup::Em1, em@),
{
    add_group(weights, FeatureGroup::Em1, em, acc, Ghost(ACC_LIMIT as int));
}

/// Adds to `acc` everything that depends on the time coordinate: its
/// quantized sine and cosine features and the two quantized embeddings.
pub fn add_time_features<const N0: usize, const N1: usize>(
    weights: &Model<N0, N1>,
    t_sin: &[i8; T_DIMS],
    t_cos: &[i8; T_DIMS],
    em0: &[i8; EM0_DIMS],
    em1: &[i8; EM1_DIMS],
    acc: &mut Accumulator,
)
    requires
        within_limit(ints(old(acc)@)),
    ensures
        ints(final(acc)@) == weights.add_time_spec(ints(old(acc)@), t_sin@, t_cos@, em0@, em1@),
{
    let ghost b0 = ACC_LIMIT as int;
    add_group(weights, FeatureGroup::TSin, t_sin, acc, Ghost(b0));
    add_group(weights, FeatureGroup::TCos, t_cos, acc, Ghost(b0 + 13 * TERM_LIMIT));
    add_group(weights, FeatureGroup::Em0, em0, acc, Ghost(b0 + 26 * TERM_LIMIT));
    add_group(weights, FeatureGroup::Em1, em1, acc, Ghost(b0 + 46 * TERM_LIMIT));
}

/// Adds to `acc` the quantized sine and cosine features of the row
/// coordinate.
pub fn add_y_features<const N0: usize, const N1: usize>(
    weights: &Model<N0, N1>,
    y_sin: &[i8; Y_DIMS],
    y_cos: &[i8; Y_DIMS],
    acc: &mut Accumulator,
)
    requires
        within_limit(ints(old(acc)@)),
    ensures
        ints(final(acc)@) == weights.add_y_spec(ints(old(acc)@), y_sin@, y_cos@),
{
    let ghost b0 = ACC_LIMIT as int;
    add_group(weights, FeatureGroup::YSin, y_sin, acc, Ghost(b0));
    add_group(weights, FeatureGroup::YCos, y_cos, acc, Ghost(b0 + 7 * TERM_LIMIT));
}

/// Adds to `acc` the quantized sine and cosine features of the column
/// coordinate.
pub fn add_x_features<const N0: usize, const N1: usize>(
    weights: &Model<N0, N1>,
    x_sin: &[i8; X_DIMS],
    x_cos: &[i8; X_DIMS],
    acc: &mut Accumulator,
)
    requires
        within_limit(ints(old(acc)@)),
    ensures
        ints(final(acc)@) == weights.add_x_spec(ints(old(acc)@), x_sin@, x_cos@),
{
    let ghost b0 = ACC_LIMIT as int;
    add_group(weights, FeatureGroup::XSin, x_sin, acc, Ghost(b0));
    add_group(weights, FeatureGroup::XCos, x_cos, acc, Ghost(b0 + 8 * TERM_LIMIT));
}

/// The number of accumulator units in one unit of the output logit: the
/// input scale times the weight scale.
pub fn logit_scale<const N0: usize, const N1: usize>(weights: &Model<N0, N1>) -> (units: i32)
    requires
        weights.wf(),
    ensures
        units == INPUT_SCALE * weights.weight_scale,
        units > 0,
{
    INPUT_SCALE * weights.weight_scale
}

/// The terminal path: activation, second layer, activation, third layer.
/// Returns the output logit in accumulator units; the brightness is the
/// logistic function of the logit divided by the logit scale.
pub fn decode<const N0: usize, const N1: usize>(
    weights: &Model<N0, N1>,
    accumulator: &Accumulator,
) -> (logit: i32)
    requires
        weights.wf(),
    ensures
        logit as int == weights.decode_spec(ints(accumulator@)),
        -ACC_LIMIT <= logit <= ACC_LIMIT,
{
    let mut l0_output_c = [0i8; HIDDEN0_DIMS];
    mish(accumulator, &mut l0_output_c, weights.weight_scale);

    let mut l1_output = [0i32; HIDDEN1_DIMS];
    proof {
        weights.l1.lemma_forward_bounded(l0_output_c@);
    }
    weights.l1.forward(&l0_output_c, &mut l1_output);

    let mut l1_output_c = [0i8; HIDDEN1_DIMS];
    mish(&l1_output, &mut l1_output_c, weights.weight_scale);

    let mut l2_output = [0i32; 1];
    proof {
        weights.l2.lemma_forward_bounded(l1_output_c@);
    }
    weights.l2.forward(&l1_output_c, &mut l2_output);
    assert(ints(l2_output@)[0] == l2_output@[0]);
    l2_output[0]
}

/// The whole network in one pass on a full quantized input vector: first
/// layer, then the terminal path. Returns the output logit in accumulator
/// units.
pub fn model<const N0: usize, const N1: usize>(
    weights: &Model<N0, N1>,
    input: &[i8; INPUT_DIMS],
) -> (logit: i32)
    requires
        weights.wf(),
    ensures
        logit as int == weights.model_spec(input@),
        -ACC_LIMIT <= logit <= ACC_LIMIT,
{
    let mut acc = [0i32; HIDDEN0_DIMS];
    proof {
        weights.l0.lemma_forward_bounded(input@);
    }
    weights.l0.forward(input, &mut acc);
    decode(weights, &acc)
}

/// The byte size of the weight tables.
pub fn decoder_size<const N0: usize, const N1: usize>(weights: &Model<N0, N1>) -> (bytes: usize)
    requires
        Model::<N0, N1>::spec_decoder_size() <= usize::MAX,
    ensures
        bytes == Model::<N0, N1>::spec_decoder_size(),
        bytes == N0 * 20 + N1 * 44 + 28644,
{
    weights.em0.byte_size() + weights.em1.byte_size() + weights.l0.byte_size()
        + weights.l1.byte_size() + weights.l2.byte_size()
}

} // verus!
