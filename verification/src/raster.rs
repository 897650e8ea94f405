//! The decisions of the playback loop: which pixels a frame refreshes, where
//! a pixel sits in the packed framebuffer, and which frame comes next.

use vstd::prelude::*;
use crate::quant::clamp_int;

verus! {

/// The number of playback steps after which the animation starts over.
pub const FRAME_COUNT: usize = 13144;

/// The number of pixels in a framebuffer row.
pub const SCREEN_WIDTH: usize = 160;

/// The number of rows of the picture.
pub const PICTURE_HEIGHT: usize = 120;

/// The number of framebuffer rows above the picture.
pub const TOP_MARGIN: usize = 20;

/// The number of bytes of the framebuffer, which packs four pixels of two
/// bits each into a byte.
pub const FRAMEBUFFER_BYTES: usize = 6400;

/// The number of pixels that the framebuffer holds.
pub const FRAMEBUFFER_PIXELS: usize = 25600;

/// The first column and first row that playback step `frame` refreshes. A
/// step refreshes every fourth column and every second row from there, and
/// eight consecutive steps refresh every pixel once.
pub open spec fn dither_phase_spec(frame: int) -> (int, int) {
    let phase = frame % 8;
    if phase == 0 {
        (0, 0)
    } else if phase == 1 {
        (2, 0)
    } else if phase == 2 {
        (3, 1)
    } else if phase == 3 {
        (1, 1)
    } else if phase == 4 {
        (1, 0)
    } else if phase == 5 {
        (3, 0)
    } else if phase == 6 {
        (2, 1)
    } else {
        (0, 1)
    }
}

/// The first column and first row that playback step `frame` refreshes.
pub fn dither_phase(frame: usize) -> (start: (usize, usize))
    ensures
        (start.0 as int, start.1 as int) == dither_phase_spec(frame as int),
        start.0 < 4,
        start.1 < 2,
{
    let phase: usize = frame % 8;
    if phase == 0 {
        (0, 0)
    } else if phase == 1 {
        (2, 0)
    } else if phase == 2 {
        (3, 1)
    } else if phase == 3 {
        (1, 1)
    } else if phase == 4 {
        (1, 0)
    } else if phase == 5 {
        (3, 0)
    } else if phase == 6 {
        (2, 1)
    } else {
        (0, 1)
    }
}

/// Over eight consecutive steps every pair of a column offset below four and
/// a row offset below two is the starting point of exactly one step.
pub proof fn lemma_dither_covers(sx: int, sy: int)
    requires
        0 <= sx < 4,
        0 <= sy < 2,
    ensures
        exists|phase: int| 0 <= phase < 8 && #[trigger] dither_phase_spec(phase) == (sx, sy),
        forall|p: int, q: int|
            0 <= p < 8 && 0 <= q < 8 && dither_phase_spec(p) == dither_phase_spec(q) ==> p == q,
{
    assert(dither_phase_spec(0) == (0int, 0int));
    assert(dither_phase_spec(1) == (2int, 0int));
    assert(dither_phase_spec(2) == (3int, 1int));
    assert(dither_phase_spec(3) == (1int, 1int));
    assert(dither_phase_spec(4) == (1int, 0int));
    assert(dither_phase_spec(5) == (3int, 0int));
    assert(dither_phase_spec(6) == (2int, 1int));
    assert(dither_phase_spec(7) == (0int, 1int));
}

/// The playback step after `frame`; the last step is followed by the first.
pub fn next_frame(frame: usize) -> (next: usize)
    requires
        frame < usize::MAX,
    ensures
        next == (frame + 1) % (FRAME_COUNT as int),
        next < FRAME_COUNT,
{
    (frame + 1) % FRAME_COUNT
}

/// The framebuffer position of the picture's pixel in row `row` and column
/// `column`: the picture starts `TOP_MARGIN` rows down.
pub fn pixel_index(row: usize, column: usize) -> (index: usize)
    requires
        row < PICTURE_HEIGHT,
        column < SCREEN_WIDTH,
    ensures
        index == (row + TOP_MARGIN) * SCREEN_WIDTH + column,
        index < FRAMEBUFFER_PIXELS,
{
    (row + TOP_MARGIN) * SCREEN_WIDTH + column
}

/// The two-bit pixel in slot `slot` of a framebuffer byte.
pub open spec fn slot_of(byte: u8, slot: u8) -> u8 {
    (byte >> (2 * slot) as u8) & 3
}

/// A framebuffer byte with the two bits of slot `slot` replaced by `pixel`.
pub open spec fn with_slot(byte: u8, slot: u8, pixel: u8) -> u8 {
    (byte & !(3u8 << (2 * slot) as u8)) | (pixel << (2 * slot) as u8)
}

/// The palette index stored at pixel position `index`.
pub open spec fn pixel_at(fb: Seq<u8>, index: int) -> u8 {
    slot_of(fb[index / 4], (index % 4) as u8)
}

/// Replacing a slot stores the pixel there and leaves the other three slots
/// of the byte as they were.
pub proof fn lemma_with_slot(byte: u8, slot: u8, pixel: u8, other: u8)
    requires
        slot < 4,
        other < 4,
        pixel <= 3,
    ensures
        slot_of(with_slot(byte, slot, pixel), slot) == pixel,
        other != slot ==> slot_of(with_slot(byte, slot, pixel), other) == slot_of(byte, other),
{
    let s: u8 = (2 * slot) as u8;
    let t: u8 = (2 * other) as u8;
    assert(((((byte & !(3u8 << s)) | (pixel << s)) >> s) & 3) == pixel) by (bit_vector)
        requires
            s == 0 || s == 2 || s == 4 || s == 6,
            pixel <= 3,
    ;
    if other != slot {
        assert(((((byte & !(3u8 << s)) | (pixel << s)) >> t) & 3) == ((byte >> t) & 3))
            by (bit_vector)
            requires
                s == 0 || s == 2 || s == 4 || s == 6,
                t == 0 || t == 2 || t == 4 || t == 6,
                s != t,
                pixel <= 3,
        ;
    }
}

/// Writes the palette index `pixel` at pixel position `index` and leaves
/// every other pixel as it was.
pub fn store_pixel(fb: &mut [u8; FRAMEBUFFER_BYTES], index: usize, pixel: u8)
    requires
        index < FRAMEBUFFER_PIXELS,
        pixel <= 3,
    ensures
        final(fb)@ == old(fb)@.update(
            (index / 4) as int,
            with_slot(old(fb)@[(index / 4) as int], (index % 4) as u8, pixel),
        ),
        pixel_at(final(fb)@, index as int) == pixel,
        forall|other: int|
            0 <= other < FRAMEBUFFER_PIXELS && other != index ==> pixel_at(final(fb)@, other)
                == pixel_at(old(fb)@, other),
{
    let slot: u8 = (index % 4) as u8;
    let shift: u8 = 2 * slot;
    let byte: u8 = fb[index / 4];
    let cleared: u8 = byte & !(3u8 << shift);
    let stored: u8 = cleared | (pixel << shift);
    fb[index / 4] = stored;
    proof {
        assert(stored == with_slot(byte, slot, pixel));
        assert forall|other: int| 0 <= other < FRAMEBUFFER_PIXELS && other != index implies pixel_at(
            fb@,
            other,
        ) == pixel_at(old(fb)@, other) by {
            if other / 4 == index / 4 {
                lemma_with_slot(byte, slot, pixel, (other % 4) as u8);
            }
        }
        lemma_with_slot(byte, slot, pixel, slot);
    }
}

/// The palette index of a brightness, given the integer part `quarters` of
/// four times the brightness: the inclusive clamp to the four shades.
pub fn palette_index(quarters: i32) -> (index: u8)
    ensures
        index as int == clamp_int(quarters as int, 0, 3),
{
    if quarters < 0 {
        0
    } else if quarters > 3 {
        3
    } else {
        quarters as u8
    }
}

/// The four shades of the palette, darkest first, as 24-bit colours.
pub fn palette() -> (shades: [u32; 4])
    ensures
        shades@ == seq![0x000000u32, 0x555555u32, 0xAAAAAAu32, 0xFFFFFFu32],
{
    let shades: [u32; 4] = [0x000000, 0x555555, 0xAAAAAA, 0xFFFFFF];
    assert(shades@ =~= seq![0x000000u32, 0x555555u32, 0xAAAAAAu32, 0xFFFFFFu32]);
    shades
}

} // verus!
