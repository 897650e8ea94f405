//! What holds of the incremental evaluation as a whole: it agrees with the
//! one-pass evaluation, it does not depend on the order in which the feature
//! groups are added, and it stays within the accumulator limit.

use vstd::prelude::*;
use crate::decoder::{within_limit, Model, HIDDEN0_DIMS};
use crate::layers::{zeros, Linear};
use crate::layout::{FeatureGroup, INPUT_DIMS};
use crate::quant::ACC_LIMIT;

verus! {

/// The quantized features of one sample, by feature group.
pub struct Features {
    pub t_sin: Seq<i8>,
    pub t_cos: Seq<i8>,
    pub y_sin: Seq<i8>,
    pub y_cos: Seq<i8>,
    pub x_sin: Seq<i8>,
    pub x_cos: Seq<i8>,
    pub em0: Seq<i8>,
    pub em1: Seq<i8>,
}

impl Features {
    /// Each group has the width that the layout gives it.
    pub open spec fn wf(&self) -> bool {
        &&& self.t_sin.len() == FeatureGroup::TSin.spec_layout().dims
        &&& self.t_cos.len() == FeatureGroup::TCos.spec_layout().dims
        &&& self.y_sin.len() == FeatureGroup::YSin.spec_layout().dims
        &&& self.y_cos.len() == FeatureGroup::YCos.spec_layout().dims
        &&& self.x_sin.len() == FeatureGroup::XSin.spec_layout().dims
        &&& self.x_cos.len() == FeatureGroup::XCos.spec_layout().dims
        &&& self.em0.len() == FeatureGroup::Em0.spec_layout().dims
        &&& self.em1.len() == FeatureGroup::Em1.spec_layout().dims
    }

    /// The groups concatenated into the input vector of the first layer.
    pub open spec fn input(&self) -> Seq<i8> {
        self.t_sin + self.t_cos + self.y_sin + self.y_cos + self.x_sin + self.x_cos + self.em0
            + self.em1
    }

    /// The features with the groups of each coordinate that has not been
    /// seen yet set to zero.
    pub open spec fn masked(&self, time: bool, y: bool, x: bool) -> Features {
        Features {
            t_sin: if time { self.t_sin } else { zeros(self.t_sin.len()) },
            t_cos: if time { self.t_cos } else { zeros(self.t_cos.len()) },
            y_sin: if y { self.y_sin } else { zeros(self.y_sin.len()) },
            y_cos: if y { self.y_cos } else { zeros(self.y_cos.len()) },
            x_sin: if x { self.x_sin } else { zeros(self.x_sin.len()) },
            x_cos: if x { self.x_cos } else { zeros(self.x_cos.len()) },
            em0: if time { self.em0 } else { zeros(self.em0.len()) },
            em1: if time { self.em1 } else { zeros(self.em1.len()) },
        }
    }
}

/// The accumulator of a pixel for which the time, row and column features
/// have been added or not, as the three flags say.
pub open spec fn partial_spec<const N0: usize, const N1: usize>(
    weights: Model<N0, N1>,
    f: Features,
    time: bool,
    y: bool,
    x: bool,
) -> Seq<int> {
    let a0 = weights.init_spec();
    let a1 = if time {
        weights.add_time_spec(a0, f.t_sin, f.t_cos, f.em0, f.em1)
    } else {
        a0
    };
    let a2 = if y {
        weights.add_y_spec(a1, f.y_sin, f.y_cos)
    } else {
        a1
    };
    if x {
        weights.add_x_spec(a2, f.x_sin, f.x_cos)
    } else {
        a2
    }
}

/// The contribution of a full input vector is the sum of the contributions
/// of its eight feature groups, each taken at its offset.
pub proof fn lemma_input_contribution(l0: Linear<INPUT_DIMS, HIDDEN0_DIMS>, f: Features, o: int)
    requires
        f.wf(),
    ensures
        l0.contribution(0, f.input(), o) == l0.contribution(0, f.t_sin, o) + l0.contribution(
            13,
            f.t_cos,
            o,
        ) + l0.contribution(26, f.y_sin, o) + l0.contribution(33, f.y_cos, o) + l0.contribution(
            40,
            f.x_sin,
            o,
        ) + l0.contribution(48, f.x_cos, o) + l0.contribution(56, f.em0, o) + l0.contribution(
            76,
            f.em1,
            o,
        ),
{
    let s1 = f.t_sin;
    let s2 = s1 + f.t_cos;
    let s3 = s2 + f.y_sin;
    let s4 = s3 + f.y_cos;
    let s5 = s4 + f.x_sin;
    let s6 = s5 + f.x_cos;
    let s7 = s6 + f.em0;
    l0.lemma_contribution_concat(0, s1, f.t_cos, o);
    l0.lemma_contribution_concat(0, s2, f.y_sin, o);
    l0.lemma_contribution_concat(0, s3, f.y_cos, o);
    l0.lemma_contribution_concat(0, s4, f.x_sin, o);
    l0.lemma_contribution_concat(0, s5, f.x_cos, o);
    l0.lemma_contribution_concat(0, s6, f.em0, o);
    l0.lemma_contribution_concat(0, s7, f.em1, o);
}

/// At every point of a pixel's evaluation the accumulator is what the first
/// layer gives, in one pass, on the input in which the groups not yet added
/// are zero.
pub proof fn lemma_partial_is_forward_of_masked<const N0: usize, const N1: usize>(
    weights: Model<N0, N1>,
    f: Features,
    time: bool,
    y: bool,
    x: bool,
)
    requires
        f.wf(),
    ensures
        partial_spec(weights, f, time, y, x) == weights.l0.forward_spec(
            f.masked(time, y, x).input(),
        ),
{
    let l0 = weights.l0;
    let m = f.masked(time, y, x);
    let whole = l0.forward_spec(m.input());
    let part = partial_spec(weights, f, time, y, x);
    assert(part.len() == 128);
    assert(whole.len() == 128);
    assert forall|o: int| 0 <= o < 128 implies part[o] == whole[o] by {
        lemma_input_contribution(l0, m, o);
        if !time {
            l0.lemma_zero_contribution(0, 13, o, 13);
            l0.lemma_zero_contribution(13, 13, o, 13);
            l0.lemma_zero_contribution(56, 20, o, 20);
            l0.lemma_zero_contribution(76, 44, o, 44);
        }
        if !y {
            l0.lemma_zero_contribution(26, 7, o, 7);
            l0.lemma_zero_contribution(33, 7, o, 7);
        }
        if !x {
            l0.lemma_zero_contribution(40, 8, o, 8);
            l0.lemma_zero_contribution(48, 8, o, 8);
        }
    }
    assert(part =~= whole);
}

/// Incremental equivalence: starting from the bias and adding the time, row
/// and column features gives exactly the accumulator that the first layer
/// gives in one pass on the concatenated feature vector.
pub proof fn lemma_incremental_equivalence<const N0: usize, const N1: usize>(
    weights: Model<N0, N1>,
    f: Features,
)
    requires
        f.wf(),
    ensures
        weights.add_x_spec(
            weights.add_y_spec(
                weights.add_time_spec(weights.init_spec(), f.t_sin, f.t_cos, f.em0, f.em1),
                f.y_sin,
                f.y_cos,
            ),
            f.x_sin,
            f.x_cos,
        ) == weights.l0.forward_spec(f.input()),
        weights.decode_spec(partial_spec(weights, f, true, true, true)) == weights.model_spec(
            f.input(),
        ),
{
    lemma_partial_is_forward_of_masked(weights, f, true, true, true);
    assert(f.masked(true, true, true) == f);
}

/// Determinism: the complete accumulator and the logit decoded from it are
/// functions of the weights and of the concatenated feature vector alone.
pub proof fn lemma_pipeline_is_a_function<const N0: usize, const N1: usize>(
    weights: Model<N0, N1>,
    f: Features,
    g: Features,
)
    requires
        f.wf(),
        g.wf(),
        f.input() == g.input(),
    ensures
        partial_spec(weights, f, true, true, true) == partial_spec(weights, g, true, true, true),
        weights.decode_spec(partial_spec(weights, f, true, true, true)) == weights.decode_spec(
            partial_spec(weights, g, true, true, true),
        ),
{
    lemma_incremental_equivalence(weights, f);
    lemma_incremental_equivalence(weights, g);
}

/// Scan-order invariance: from any accumulator, the six orders in which the
/// time, row and column features can be added give the same accumulator.
pub proof fn lemma_scan_order_invariance<const N0: usize, const N1: usize>(
    weights: Model<N0, N1>,
    acc: Seq<int>,
    f: Features,
)
    ensures
        ({
            let tyx = weights.add_x_spec(
                weights.add_y_spec(
                    weights.add_time_spec(acc, f.t_sin, f.t_cos, f.em0, f.em1),
                    f.y_sin,
                    f.y_cos,
                ),
                f.x_sin,
                f.x_cos,
            );
            let txy = weights.add_y_spec(
                weights.add_x_spec(
                    weights.add_time_spec(acc, f.t_sin, f.t_cos, f.em0, f.em1),
                    f.x_sin,
                    f.x_cos,
                ),
                f.y_sin,
                f.y_cos,
            );
            let ytx = weights.add_x_spec(
                weights.add_time_spec(
                    weights.add_y_spec(acc, f.y_sin, f.y_cos),
                    f.t_sin,
                    f.t_cos,
                    f.em0,
                    f.em1,
                ),
                f.x_sin,
                f.x_cos,
            );
            let yxt = weights.add_time_spec(
                weights.add_x_spec(weights.add_y_spec(acc, f.y_sin, f.y_cos), f.x_sin, f.x_cos),
                f.t_sin,
                f.t_cos,
                f.em0,
                f.em1,
            );
            let xty = weights.add_y_spec(
                weights.add_time_spec(
                    weights.add_x_spec(acc, f.x_sin, f.x_cos),
                    f.t_sin,
                    f.t_cos,
                    f.em0,
                    f.em1,
                ),
                f.y_sin,
                f.y_cos,
            );
            let xyt = weights.add_time_spec(
                weights.add_y_spec(weights.add_x_spec(acc, f.x_sin, f.x_cos), f.y_sin, f.y_cos),
                f.t_sin,
                f.t_cos,
                f.em0,
                f.em1,
            );
            tyx == txy && tyx == ytx && tyx == yxt && tyx == xty && tyx == xyt
        }),
{
    let at = weights.add_time_spec(acc, f.t_sin, f.t_cos, f.em0, f.em1);
    let ay = weights.add_y_spec(acc, f.y_sin, f.y_cos);
    let ax = weights.add_x_spec(acc, f.x_sin, f.x_cos);
    let tyx = weights.add_x_spec(weights.add_y_spec(at, f.y_sin, f.y_cos), f.x_sin, f.x_cos);
    let txy = weights.add_y_spec(weights.add_x_spec(at, f.x_sin, f.x_cos), f.y_sin, f.y_cos);
    let ytx = weights.add_x_spec(
        weights.add_time_spec(ay, f.t_sin, f.t_cos, f.em0, f.em1),
        f.x_sin,
        f.x_cos,
    );
    let yxt = weights.add_time_spec(
        weights.add_x_spec(ay, f.x_sin, f.x_cos),
        f.t_sin,
        f.t_cos,
        f.em0,
        f.em1,
    );
    let xty = weights.add_y_spec(
        weights.add_time_spec(ax, f.t_sin, f.t_cos, f.em0, f.em1),
        f.y_sin,
        f.y_cos,
    );
    let xyt = weights.add_time_spec(
        weights.add_y_spec(ax, f.y_sin, f.y_cos),
        f.t_sin,
        f.t_cos,
        f.em0,
        f.em1,
    );
    assert(tyx =~= txy);
    assert(tyx =~= ytx);
    assert(tyx =~= yxt);
    assert(tyx =~= xty);
    assert(tyx =~= xyt);
}

/// Adding one coordinate's features commutes with adding another's, from any
/// accumulator.
pub proof fn lemma_additions_commute<const N0: usize, const N1: usize>(
    weights: Model<N0, N1>,
    acc: Seq<int>,
    f: Features,
)
    ensures
        weights.add_y_spec(
            weights.add_time_spec(acc, f.t_sin, f.t_cos, f.em0, f.em1),
            f.y_sin,
            f.y_cos,
        ) == weights.add_time_spec(
            weights.add_y_spec(acc, f.y_sin, f.y_cos),
            f.t_sin,
            f.t_cos,
            f.em0,
            f.em1,
        ),
        weights.add_x_spec(
            weights.add_time_spec(acc, f.t_sin, f.t_cos, f.em0, f.em1),
            f.x_sin,
            f.x_cos,
        ) == weights.add_time_spec(
            weights.add_x_spec(acc, f.x_sin, f.x_cos),
            f.t_sin,
            f.t_cos,
            f.em0,
            f.em1,
        ),
        weights.add_x_spec(weights.add_y_spec(acc, f.y_sin, f.y_cos), f.x_sin, f.x_cos)
            == weights.add_y_spec(weights.add_x_spec(acc, f.x_sin, f.x_cos), f.y_sin, f.y_cos),
{
    let at = weights.add_time_spec(acc, f.t_sin, f.t_cos, f.em0, f.em1);
    let ay = weights.add_y_spec(acc, f.y_sin, f.y_cos);
    let ax = weights.add_x_spec(acc, f.x_sin, f.x_cos);
    assert(weights.add_y_spec(at, f.y_sin, f.y_cos) =~= weights.add_time_spec(
        ay,
        f.t_sin,
        f.t_cos,
        f.em0,
        f.em1,
    ));
    assert(weights.add_x_spec(at, f.x_sin, f.x_cos) =~= weights.add_time_spec(
        ax,
        f.t_sin,
        f.t_cos,
        f.em0,
        f.em1,
    ));
    assert(weights.add_x_spec(ay, f.x_sin, f.x_cos) =~= weights.add_y_spec(ax, f.y_sin, f.y_cos));
}

/// Overflow freedom: with a well-formed first layer, whichever of the time,
/// row and column features have been added to a freshly initialized
/// accumulator, no element exceeds `ACC_LIMIT` in magnitude.
pub proof fn lemma_accumulator_within_limit<const N0: usize, const N1: usize>(
    weights: Model<N0, N1>,
    f: Features,
    time: bool,
    y: bool,
    x: bool,
)
    requires
        weights.l0.wf(),
        f.wf(),
    ensures
        within_limit(partial_spec(weights, f, time, y, x)),
        partial_spec(weights, f, time, y, x).len() == 128,
{
    lemma_partial_is_forward_of_masked(weights, f, time, y, x);
    let input = f.masked(time, y, x).input();
    weights.l0.lemma_forward_bounded(input);
    assert forall|o: int| 0 <= o < 128 implies -ACC_LIMIT <= #[trigger] partial_spec(
        weights,
        f,
        time,
        y,
        x,
    )[o] <= ACC_LIMIT by {
        assert(-ACC_LIMIT <= weights.l0.forward_spec(input)[o] <= ACC_LIMIT);
    }
}

} // verus!
