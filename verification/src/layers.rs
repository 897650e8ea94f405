//! The two quantized layer primitives: a lookup table of signed 8-bit rows and
//! a linear layer that accumulates signed 8-bit products in 32-bit integers.

use vstd::prelude::*;
use crate::quant::{ints, ACC_LIMIT, TERM_LIMIT};

verus! {

/// A learned lookup table: `I` rows of `O` signed 8-bit codes.
pub struct Embedding<const I: usize, const O: usize> {
    pub weight: [[i8; O]; I],
}

impl<const I: usize, const O: usize> Embedding<I, O> {
    /// The stored codes of row `index`.
    pub open spec fn row(&self, index: int) -> Seq<i8> {
        self.weight@[index]@
    }

    /// The number of bytes the table occupies.
    pub open spec fn spec_byte_size() -> int {
        I * O
    }

    /// The number of bytes the table occupies.
    pub fn byte_size(&self) -> (bytes: usize)
        requires
            Self::spec_byte_size() <= usize::MAX,
        ensures
            bytes == Self::spec_byte_size(),
    {
        I * O
    }

    /// Copies the stored codes of row `input` to `output`. The codes are in
    /// weight units; a caller that needs unit scale divides by the weight
    /// scale.
    pub fn forward(&self, input: usize, output: &mut [i8; O])
        requires
            input < I,
        ensures
            final(output)@ == self.row(input as int),
    {
        let mut o: usize = 0;
        while o < O
            invariant
                0 <= o <= O,
                input < I,
                forall|j: int| 0 <= j < o ==> #[trigger] output@[j] == self.weight@[input as int]@[j],
            decreases O - o,
        {
            output[o] = self.weight[input][o];
            o += 1;
        }
        assert(output@ =~= self.row(input as int));
    }
}

/// A linear layer from `I` input dimensions to `O` output dimensions. The
/// weights are stored by input dimension, so that the weights of one input
/// dimension toward all outputs are contiguous.
pub struct Linear<const I: usize, const O: usize> {
    pub weight: [[i8; O]; I],
    pub bias: [i32; O],
}

impl<const I: usize, const O: usize> Linear<I, O> {
    /// The weight of input dimension `i` toward output dimension `o`.
    pub open spec fn w(&self, i: int, o: int) -> int {
        self.weight@[i]@[o] as int
    }

    /// The bias of output dimension `o`, in accumulator units.
    pub open spec fn b(&self, o: int) -> int {
        self.bias@[o] as int
    }

    /// The sum over `j < n` of `input[j]` times the weight of input dimension
    /// `offset + j` toward output dimension `o`.
    pub open spec fn slice_dot(&self, offset: int, input: Seq<i8>, o: int, n: nat) -> int
        decreases n,
    {
        if n == 0 {
            0
        } else {
            self.slice_dot(offset, input, o, (n - 1) as nat) + (input[n - 1] as int) * self.w(
                offset + n - 1,
                o,
            )
        }
    }

    /// What the input dimensions `offset .. offset + input.len()`, holding
    /// `input`, add to output dimension `o`.
    pub open spec fn contribution(&self, offset: int, input: Seq<i8>, o: int) -> int {
        self.slice_dot(offset, input, o, input.len())
    }

    /// The accumulator `acc` after the contribution of `input`, placed at
    /// `offset`, has been added to each element.
    pub open spec fn accumulate(&self, acc: Seq<int>, offset: int, input: Seq<i8>) -> Seq<int> {
        Seq::new(acc.len(), |o: int| acc[o] + self.contribution(offset, input, o))
    }

    /// The bias as an accumulator.
    pub open spec fn bias_ints(&self) -> Seq<int> {
        Seq::new(O as nat, |o: int| self.b(o))
    }

    /// The full pre-activation of the layer on `input`.
    pub open spec fn forward_spec(&self, input: Seq<i8>) -> Seq<int> {
        self.accumulate(self.bias_ints(), 0, input)
    }

    /// No running sum that arises while `input` is accumulated onto `acc`
    /// leaves the 32-bit range.
    pub open spec fn fits(&self, acc: Seq<int>, offset: int, input: Seq<i8>) -> bool {
        forall|o: int, n: nat|
            0 <= o < O && n <= input.len() ==> i32::MIN <= acc[o] + #[trigger] self.slice_dot(
                offset,
                input,
                o,
                n,
            ) <= i32::MAX
    }

    /// The bias leaves room for a full dot product: with it, no accumulator of
    /// this layer exceeds `ACC_LIMIT` in magnitude.
    pub open spec fn wf(&self) -> bool {
        forall|o: int|
            0 <= o < O ==> -(ACC_LIMIT - I * TERM_LIMIT) <= #[trigger] self.bias@[o] <= ACC_LIMIT - I
                * TERM_LIMIT
    }

    /// The number of bytes the weights and biases occupy.
    pub open spec fn spec_byte_size() -> int {
        I * O + 4 * O
    }

    /// The number of bytes the weights and biases occupy.
    pub fn byte_size(&self) -> (bytes: usize)
        requires
            Self::spec_byte_size() <= usize::MAX,
        ensures
            bytes == Self::spec_byte_size(),
    {
        assert(I * O <= I * O + 4 * O && 4 * O <= I * O + 4 * O) by (nonlinear_arith);
        I * O + 4 * O
    }

    /// Whether the bias leaves room for a full dot product.
    pub fn is_wf(&self) -> (ok: bool)
        ensures
            ok == self.wf(),
    {
        if O == 0 {
            return true;
        }
        if I > 65536 {
            assert(ACC_LIMIT - I * TERM_LIMIT < 0) by (nonlinear_arith)
                requires
                    I > 65536,
                    ACC_LIMIT == 0x4000_0000,
                    TERM_LIMIT == 16384,
            ;
            assert(!(-(ACC_LIMIT - I * TERM_LIMIT) <= self.bias@[0] <= ACC_LIMIT - I * TERM_LIMIT));
            return false;
        }
        assert(0 <= I * TERM_LIMIT <= ACC_LIMIT) by (nonlinear_arith)
            requires
                I <= 65536,
                ACC_LIMIT == 0x4000_0000,
                TERM_LIMIT == 16384,
        ;
        let room: i32 = ACC_LIMIT - (I as i32) * TERM_LIMIT;
        let mut o: usize = 0;
        while o < O
            invariant
                0 <= o <= O,
                room == ACC_LIMIT - I * TERM_LIMIT,
                0 <= room <= ACC_LIMIT,
                forall|p: int| 0 <= p < o ==> -room <= #[trigger] self.bias@[p] <= room,
            decreases O - o,
        {
            if self.bias[o] < -room || self.bias[o] > room {
                assert(!(-room <= self.bias@[o as int] <= room));
                return false;
            }
            o += 1;
        }
        true
    }

    /// Sets `output` to the bias.
    pub fn init_accumulator(&self, output: &mut [i32; O])
        ensures
            *final(output) == self.bias,
            ints(final(output)@) == self.bias_ints(),
    {
        *output = self.bias;
        assert(ints(output@) =~= self.bias_ints());
    }

    /// Adds to `output` the contribution of the input dimensions
    /// `offset .. offset + input.len()`, which hold `input`. `output` is not
    /// re-initialized.
    pub fn partial_forward(&self, offset: usize, input: &[i8], output: &mut [i32; O])
        requires
            offset + input@.len() <= I,
            self.fits(ints(old(output)@), offset as int, input@),
        ensures
            ints(final(output)@) == self.accumulate(ints(old(output)@), offset as int, input@),
    {
        let ghost start = ints(output@);
        let mut i: usize = 0;
        while i < input.len()
            invariant
                0 <= i <= input@.len(),
                offset + input@.len() <= I,
                start.len() == O,
                self.fits(start, offset as int, input@),
                forall|o: int|
                    0 <= o < O ==> #[trigger] output@[o] as int == start[o] + self.slice_dot(
                        offset as int,
                        input@,
                        o,
                        i as nat,
                    ),
            decreases input@.len() - i,
        {
            let x: i32 = input[i] as i32;
            let mut o: usize = 0;
            while o < O
                invariant
                    0 <= o <= O,
                    0 <= i < input@.len(),
                    offset + input@.len() <= I,
                    start.len() == O,
                    x == input@[i as int],
                    self.fits(start, offset as int, input@),
                    forall|p: int|
                        0 <= p < o ==> #[trigger] output@[p] as int == start[p] + self.slice_dot(
                            offset as int,
                            input@,
                            p,
                            (i + 1) as nat,
                        ),
                    forall|p: int|
                        o <= p < O ==> #[trigger] output@[p] as int == start[p] + self.slice_dot(
                            offset as int,
                            input@,
                            p,
                            i as nat,
                        ),
                decreases O - o,
            {
                let w: i32 = self.weight[offset + i][o] as i32;
                assert(-TERM_LIMIT <= x * w <= TERM_LIMIT) by (nonlinear_arith)
                    requires
                        -128 <= x <= 127,
                        -128 <= w <= 127,
                ;
                proof {
                    let n: nat = (i + 1) as nat;
                    assert(self.slice_dot(offset as int, input@, o as int, n) == self.slice_dot(
                        offset as int,
                        input@,
                        o as int,
                        i as nat,
                    ) + x * w);
                }
                output[o] = output[o] + x * w;
                o += 1;
            }
            i += 1;
        }
        assert(ints(output@) =~= self.accumulate(start, offset as int, input@));
    }

    /// The full pre-activation of the layer on `input`: the bias plus the
    /// contribution of every input dimension.
    pub fn forward(&self, input: &[i8; I], output: &mut [i32; O])
        requires
            self.fits(self.bias_ints(), 0, input@),
        ensures
            ints(final(output)@) == self.forward_spec(input@),
    {
        self.init_accumulator(output);
        self.partial_forward(0, input, output);
    }
}

/// A row of `n` zero codes.
pub open spec fn zeros(n: nat) -> Seq<i8> {
    Seq::new(n, |i: int| 0i8)
}

impl<const I: usize, const O: usize> Linear<I, O> {
    /// A sum of `n` products of two signed 8-bit values is at most
    /// `n * TERM_LIMIT` in magnitude.
    pub proof fn lemma_slice_dot_bound(&self, offset: int, input: Seq<i8>, o: int, n: nat)
        ensures
            -(n * TERM_LIMIT) <= self.slice_dot(offset, input, o, n) <= n * TERM_LIMIT,
        decreases n,
    {
        if n > 0 {
            self.lemma_slice_dot_bound(offset, input, o, (n - 1) as nat);
            let x = input[n - 1] as int;
            let w = self.w(offset + n - 1, o);
            assert(-16384 <= x * w <= 16384) by (nonlinear_arith)
                requires
                    -128 <= x <= 127,
                    -128 <= w <= 127,
            ;
            assert(n * TERM_LIMIT == (n - 1) * TERM_LIMIT + 16384) by (nonlinear_arith)
                requires
                    TERM_LIMIT == 16384,
            ;
        }
    }

    /// An accumulator whose elements leave room for `input.len()` products
    /// can take the contribution of `input` without overflow.
    pub proof fn lemma_room_fits(&self, acc: Seq<int>, offset: int, input: Seq<i8>)
        requires
            forall|o: int|
                0 <= o < O ==> i32::MIN + input.len() * TERM_LIMIT <= #[trigger] acc[o] <= i32::MAX
                    - input.len() * TERM_LIMIT,
        ensures
            self.fits(acc, offset, input),
    {
        assert forall|o: int, n: nat| 0 <= o < O && n <= input.len() implies i32::MIN <= acc[o]
            + #[trigger] self.slice_dot(offset, input, o, n) <= i32::MAX by {
            self.lemma_slice_dot_bound(offset, input, o, n);
            assert(n * TERM_LIMIT <= input.len() * TERM_LIMIT) by (nonlinear_arith)
                requires
                    n <= input.len(),
                    TERM_LIMIT == 16384,
            ;
        }
    }

    /// The sum over a prefix of `a` does not depend on what follows `a`.
    pub proof fn lemma_slice_dot_prefix(&self, offset: int, a: Seq<i8>, b: Seq<i8>, o: int, n: nat)
        requires
            n <= a.len(),
        ensures
            self.slice_dot(offset, a + b, o, n) == self.slice_dot(offset, a, o, n),
        decreases n,
    {
        if n > 0 {
            self.lemma_slice_dot_prefix(offset, a, b, o, (n - 1) as nat);
            assert((a + b)[n - 1] == a[n - 1]);
        }
    }

    /// The sum that runs `m` entries into `b`, over `a` followed by `b`, is
    /// the contribution of `a` plus the sum over those `m` entries of `b`,
    /// taken where `b` starts.
    pub proof fn lemma_slice_dot_concat(&self, offset: int, a: Seq<i8>, b: Seq<i8>, o: int, m: nat)
        requires
            m <= b.len(),
        ensures
            self.slice_dot(offset, a + b, o, a.len() + m) == self.contribution(offset, a, o)
                + self.slice_dot(offset + a.len(), b, o, m),
        decreases m,
    {
        if m == 0 {
            self.lemma_slice_dot_prefix(offset, a, b, o, a.len());
        } else {
            self.lemma_slice_dot_concat(offset, a, b, o, (m - 1) as nat);
            assert((a + b)[a.len() + m - 1] == b[m - 1]);
        }
    }

    /// The contribution of two adjacent slices is the sum of their
    /// contributions.
    pub proof fn lemma_contribution_concat(&self, offset: int, a: Seq<i8>, b: Seq<i8>, o: int)
        ensures
            self.contribution(offset, a + b, o) == self.contribution(offset, a, o)
                + self.contribution(offset + a.len(), b, o),
    {
        self.lemma_slice_dot_concat(offset, a, b, o, b.len());
    }

    /// Input dimensions that hold zero contribute nothing.
    pub proof fn lemma_zero_contribution(&self, offset: int, len: nat, o: int, n: nat)
        requires
            n <= len,
        ensures
            self.slice_dot(offset, zeros(len), o, n) == 0,
        decreases n,
    {
        if n > 0 {
            self.lemma_zero_contribution(offset, len, o, (n - 1) as nat);
            assert(zeros(len)[n - 1] == 0i8);
            assert(0 * self.w(offset + n - 1, o) == 0);
        }
    }

    /// With a well-formed bias, the full pre-activation on any input of `I`
    /// dimensions stays within `ACC_LIMIT`, and so does every running sum on
    /// the way.
    pub proof fn lemma_forward_bounded(&self, input: Seq<i8>)
        requires
            self.wf(),
            input.len() == I,
        ensures
            self.fits(self.bias_ints(), 0, input),
            forall|o: int|
                0 <= o < O ==> -ACC_LIMIT <= #[trigger] self.forward_spec(input)[o] <= ACC_LIMIT,
    {
        assert forall|o: int, n: nat| 0 <= o < O && n <= input.len() implies -ACC_LIMIT
            <= self.bias_ints()[o] + #[trigger] self.slice_dot(0, input, o, n) <= ACC_LIMIT by {
            self.lemma_slice_dot_bound(0, input, o, n);
            assert(n * TERM_LIMIT <= I * TERM_LIMIT) by (nonlinear_arith)
                requires
                    n <= I,
                    TERM_LIMIT == 16384,
            ;
            assert(self.bias_ints()[o] == self.bias@[o]);
        }
        assert forall|o: int| 0 <= o < O implies -ACC_LIMIT <= #[trigger] self.forward_spec(
            input,
        )[o] <= ACC_LIMIT by {
            assert(self.forward_spec(input)[o] == self.bias_ints()[o] + self.slice_dot(
                0,
                input,
                o,
                input.len(),
            ));
        }
    }
}

} // verus!
