//! Quantization constants and the integer activation applied between layers.

use vstd::prelude::*;

verus! {

/// Multiplier that takes a unit-scale input to its signed 8-bit code.
pub const INPUT_SCALE: i32 = 127;

/// Largest magnitude an accumulator element may reach.
pub const ACC_LIMIT: i32 = 0x4000_0000;

/// Largest magnitude of the product of two signed 8-bit values.
pub const TERM_LIMIT: i32 = 16384;

/// The elements of a 32-bit accumulator as mathematical integers.
pub open spec fn ints(acc: Seq<i32>) -> Seq<int> {
    Seq::new(acc.len(), |o: int| acc[o] as int)
}

/// Integer division that rounds toward zero, for a positive divisor.
pub open spec fn div_toward_zero(a: int, b: int) -> int
    recommends
        b > 0,
{
    if a >= 0 {
        a / b
    } else {
        -((-a) / b)
    }
}

/// The inclusive clamp of `v` to `[lo, hi]`.
pub open spec fn clamp_int(v: int, lo: int, hi: int) -> int
    recommends
        lo <= hi,
{
    if v < lo {
        lo
    } else if v > hi {
        hi
    } else {
        v
    }
}

/// The activation of one accumulator element: the element divided by the
/// weight scale, rounded toward zero, then clamped to `[0, INPUT_SCALE]`.
pub open spec fn mish_value(acc: int, weight_scale: int) -> int
    recommends
        weight_scale > 0,
{
    clamp_int(div_toward_zero(acc, weight_scale), 0, INPUT_SCALE as int)
}

/// The activation applied to every element of an accumulator.
pub open spec fn mish_seq(acc: Seq<int>, weight_scale: int) -> Seq<i8> {
    Seq::new(acc.len(), |i: int| mish_value(acc[i], weight_scale) as i8)
}

/// The signed 8-bit code of an already rounded, scaled input: the inclusive
/// clamp to `[-INPUT_SCALE, INPUT_SCALE]`.
pub open spec fn input_code(rounded: int) -> int {
    clamp_int(rounded, -(INPUT_SCALE as int), INPUT_SCALE as int)
}

/// A negative accumulator element divides to a value that is not positive, so
/// the activation of anything below the weight scale is zero.
pub proof fn lemma_mish_value_of_small(acc: int, weight_scale: int)
    requires
        weight_scale > 0,
        acc < weight_scale,
    ensures
        mish_value(acc, weight_scale) == 0,
{
    if acc >= 0 {
        assert(acc / weight_scale == 0) by (nonlinear_arith)
            requires
                0 <= acc < weight_scale,
        ;
    } else {
        assert((-acc) / weight_scale >= 0) by (nonlinear_arith)
            requires
                -acc > 0,
                weight_scale > 0,
        ;
    }
}

/// Activation of one element.
pub fn mish_element(acc: i32, weight_scale: i32) -> (code: i8)
    requires
        weight_scale > 0,
    ensures
        code as int == mish_value(acc as int, weight_scale as int),
        0 <= code <= INPUT_SCALE,
{
    if acc <= 0 {
        proof {
            lemma_mish_value_of_small(acc as int, weight_scale as int);
        }
        0
    } else {
        let q: i32 = acc / weight_scale;
        assert(q >= 0) by (nonlinear_arith)
            requires
                q == (acc as int) / (weight_scale as int),
                acc > 0,
                weight_scale > 0,
        ;
        if q > INPUT_SCALE {
            127
        } else {
            q as i8
        }
    }
}

/// Applies the activation to each element of `input`, writing the codes to
/// `output`.
pub fn mish<const LEN: usize>(input: &[i32; LEN], output: &mut [i8; LEN], weight_scale: i32)
    requires
        weight_scale > 0,
    ensures
        final(output)@ == mish_seq(ints(input@), weight_scale as int),
        forall|i: int| 0 <= i < LEN ==> 0 <= #[trigger] final(output)@[i] <= INPUT_SCALE,
{
    let mut i: usize = 0;
    while i < LEN
        invariant
            0 <= i <= LEN,
            weight_scale > 0,
            forall|j: int|
                0 <= j < i ==> #[trigger] output@[j] as int == mish_value(
                    input@[j] as int,
                    weight_scale as int,
                ),
        decreases LEN - i,
    {
        output[i] = mish_element(input[i], weight_scale);
        i += 1;
    }
    assert(output@ =~= mish_seq(ints(input@), weight_scale as int));
}

/// The signed 8-bit code of a scaled input that has been rounded to an
/// integer.
pub fn scale_input(rounded: i32) -> (code: i8)
    ensures
        code as int == input_code(rounded as int),
{
    if rounded < -127 {
        -127
    } else if rounded > 127 {
        127
    } else {
        rounded as i8
    }
}

} // verus!
