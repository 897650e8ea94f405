//! Uniform sampling of training pixels from a sequence of grayscale frames,
//! drawn from a seeded generator.

use vstd::prelude::*;
use rand::Rng;
use rand::SeedableRng;
use rand_pcg::Mcg128Xsl64;

verus! {

/// The generator that the samples are drawn from. Its state is opaque.
#[verifier::external_type_specification]
#[verifier::external_body]
pub struct ExMcg128Xsl64(rand_pcg::Mcg128Xsl64);

/// `SeedableRng::seed_from_u64` for `Mcg128Xsl64`: the generator for a seed.
/// Nothing is claimed of its state.
#[verifier::external_body]
fn generator_from_seed(seed: u64) -> (rng: Mcg128Xsl64) {
    Mcg128Xsl64::seed_from_u64(seed)
}

/// `Rng::gen_range` on the half-open range `0..n` of `usize`. The range must
/// not be empty, or the call panics; the value drawn lies in the range.
/// Nothing is claimed of how it is distributed or of the generator's state
/// afterwards.
#[verifier::external_body]
fn draw_index(rng: &mut Mcg128Xsl64, n: usize) -> (drawn: usize)
    requires
        n > 0,
    ensures
        drawn < n,
{
    rng.gen_range(0..n)
}

/// `Rng::gen_range` on the half-open range `0..n` of `u32`. The range must
/// not be empty, or the call panics; the value drawn lies in the range.
/// Nothing is claimed of how it is distributed or of the generator's state
/// afterwards.
#[verifier::external_body]
fn draw_coordinate(rng: &mut Mcg128Xsl64, n: u32) -> (drawn: u32)
    requires
        n > 0,
    ensures
        drawn < n,
{
    rng.gen_range(0..n)
}

/// One grayscale frame: its pixels row by row, one byte each.
#[derive(Debug)]
pub struct Frame {
    pub width: u32,
    pub height: u32,
    pub pixels: Vec<u8>,
}

impl Frame {
    /// The frame holds one byte for each of its pixels.
    pub open spec fn wf(&self) -> bool {
        self.pixels@.len() == self.width * self.height
    }

    /// The frame has a pixel.
    pub open spec fn has_pixels(&self) -> bool {
        self.width > 0 && self.height > 0
    }

    /// The position of the pixel in row `y` and column `x` among the bytes.
    pub open spec fn offset_of(&self, x: int, y: int) -> int {
        y * self.width + x
    }

    /// Whether the frame holds one byte for each of its pixels.
    pub fn is_wf(&self) -> (ok: bool)
        ensures
            ok == self.wf(),
    {
        let width: u64 = self.width as u64;
        let height: u64 = self.height as u64;
        assert(width * height <= 0xFFFF_FFFF * 0xFFFF_FFFF) by (nonlinear_arith)
            requires
                0 <= width <= 0xFFFF_FFFF,
                0 <= height <= 0xFFFF_FFFF,
        ;
        self.pixels.len() as u64 == width * height
    }

    /// The pixel in row `y` and column `x`.
    pub fn get_pixel(&self, x: u32, y: u32) -> (pixel: u8)
        requires
            self.wf(),
            x < self.width,
            y < self.height,
        ensures
            pixel == self.pixels@[self.offset_of(x as int, y as int)],
    {
        let width: usize = self.width as usize;
        let len: usize = self.pixels.len();
        assert(0 <= y * width + x < self.width * self.height) by (nonlinear_arith)
            requires
                0 <= x < self.width,
                0 <= y < self.height,
                width == self.width,
        ;
        assert(0 <= y * width <= y * width + x) by (nonlinear_arith)
            requires
                0 <= x,
                0 <= y,
                0 <= width,
        ;
        assert(y * width + x < len);
        self.pixels[y as usize * width + x as usize]
    }
}

/// One training sample: the frame's index, the row, the column, and the
/// pixel found there.
#[derive(Clone, Copy, Debug, PartialEq, Eq, Structural)]
pub struct Sample {
    pub t: usize,
    pub y: u32,
    pub x: u32,
    pub pixel: u8,
}

/// Every frame holds one byte for each of its pixels.
pub open spec fn frames_wf(frames: Seq<Frame>) -> bool {
    forall|i: int| 0 <= i < frames.len() ==> (#[trigger] frames[i]).wf()
}

/// Every draw finds a pixel: there is a frame, and every frame has a pixel.
pub open spec fn can_sample(frames: Seq<Frame>) -> bool {
    &&& frames.len() > 0
    &&& forall|i: int| 0 <= i < frames.len() ==> (#[trigger] frames[i]).has_pixels()
}

/// `s` names a pixel of one of the frames and holds that pixel.
pub open spec fn is_sample_of(s: Sample, frames: Seq<Frame>) -> bool {
    &&& s.t < frames.len()
    &&& s.y < frames[s.t as int].height
    &&& s.x < frames[s.t as int].width
    &&& s.pixel == frames[s.t as int].pixels@[frames[s.t as int].offset_of(s.x as int, s.y as int)]
}

/// Whether every frame holds one byte for each of its pixels.
pub fn frames_are_wf(frames: &Vec<Frame>) -> (ok: bool)
    ensures
        ok == frames_wf(frames@),
{
    let mut i: usize = 0;
    while i < frames.len()
        invariant
            0 <= i <= frames@.len(),
            forall|j: int| 0 <= j < i ==> (#[trigger] frames@[j]).wf(),
        decreases frames@.len() - i,
    {
        if !frames[i].is_wf() {
            return false;
        }
        i += 1;
    }
    true
}

/// A source of training samples: the frames, in order, and the generator
/// that the samples are drawn from.
pub struct Sampler {
    frames: Vec<Frame>,
    rng: Mcg128Xsl64,
}

impl Sampler {
    /// The frames that samples are drawn from.
    pub closed spec fn frames(&self) -> Seq<Frame> {
        self.frames@
    }

    /// Every frame holds one byte for each of its pixels.
    pub open spec fn wf(&self) -> bool {
        frames_wf(self.frames())
    }

    /// A sampler over `frames` whose generator starts from `seed`; none if a
    /// frame does not hold one byte for each of its pixels.
    pub fn new(frames: Vec<Frame>, seed: u64) -> (made: Option<Sampler>)
        ensures
            made is Some <==> frames_wf(frames@),
            made is Some ==> made->0.frames() == frames@ && made->0.wf(),
    {
        if frames_are_wf(&frames) {
            Some(Sampler { frames, rng: generator_from_seed(seed) })
        } else {
            None
        }
    }

    /// Draws one sample: a frame, then a row of that frame, then a column of
    /// it, and reads the pixel there. There is none if there is no frame to
    /// draw, or if the frame drawn has no row or no column; so there is one
    /// whenever every frame has a pixel.
    pub fn next_sample(&mut self) -> (drawn: Option<Sample>)
        requires
            old(self).wf(),
        ensures
            final(self).frames() == old(self).frames(),
            can_sample(old(self).frames()) ==> drawn is Some,
            drawn is Some ==> is_sample_of(drawn->0, old(self).frames()),
    {
        if self.frames.len() == 0 {
            return None;
        }
        let t: usize = draw_index(&mut self.rng, self.frames.len());
        assert(self.frames()[t as int].wf());
        if self.frames[t].height == 0 {
            return None;
        }
        let y: u32 = draw_coordinate(&mut self.rng, self.frames[t].height);
        if self.frames[t].width == 0 {
            return None;
        }
        let x: u32 = draw_coordinate(&mut self.rng, self.frames[t].width);
        let pixel: u8 = self.frames[t].get_pixel(x, y);
        Some(Sample { t, y, x, pixel })
    }

    /// Draws the samples of one batch, in the order in which the batch is
    /// filled. There is no batch if one of its draws finds no pixel; so
    /// there is one whenever every frame has a pixel.
    pub fn next_samples(&mut self, batch_size: usize) -> (batch: Option<Vec<Sample>>)
        requires
            old(self).wf(),
        ensures
            final(self).frames() == old(self).frames(),
            can_sample(old(self).frames()) || batch_size == 0 ==> batch is Some,
            batch is Some ==> batch->0@.len() == batch_size && forall|i: int|
                0 <= i < batch->0@.len() ==> is_sample_of(
                    #[trigger] batch->0@[i],
                    old(self).frames(),
                ),
    {
        let mut batch: Vec<Sample> = Vec::new();
        let mut i: usize = 0;
        while i < batch_size
            invariant
                0 <= i <= batch_size,
                self.wf(),
                self.frames() == old(self).frames(),
                batch@.len() == i,
                forall|j: int|
                    0 <= j < batch@.len() ==> is_sample_of(#[trigger] batch@[j], self.frames()),
            decreases batch_size - i,
        {
            match self.next_sample() {
                Some(s) => {
                    batch.push(s);
                },
                None => {
                    return None;
                },
            }
            i += 1;
        }
        Some(batch)
    }

    /// The number of frames.
    pub fn frame_count(&self) -> (count: usize)
        ensures
            count == self.frames().len(),
    {
        self.frames.len()
    }

    /// The width and height of frame `t`.
    pub fn frame_size(&self, t: usize) -> (size: (u32, u32))
        requires
            t < self.frames().len(),
        ensures
            size.0 == self.frames()[t as int].width,
            size.1 == self.frames()[t as int].height,
    {
        (self.frames[t].width, self.frames[t].height)
    }
}

} // verus!
