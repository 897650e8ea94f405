use bad_apple::raster::{
    dither_phase, next_frame, palette, palette_index, pixel_index, store_pixel, FRAMEBUFFER_BYTES,
    FRAMEBUFFER_PIXELS, FRAME_COUNT,
};

#[test]
fn dither_phases_follow_the_sequence() {
    let expected = [(0, 0), (2, 0), (3, 1), (1, 1), (1, 0), (3, 0), (2, 1), (0, 1)];
    for frame in 0..64usize {
        assert_eq!(dither_phase(frame), expected[frame % 8]);
    }
    assert_eq!(dither_phase(13143), expected[13143 % 8]);
}

#[test]
fn eight_steps_start_at_every_offset_once() {
    let mut seen = [[0u32; 4]; 2];
    for frame in 8..16usize {
        let (sx, sy) = dither_phase(frame);
        seen[sy][sx] += 1;
    }
    assert_eq!(seen, [[1; 4]; 2]);
}

#[test]
fn next_frame_wraps_after_the_last() {
    assert_eq!(FRAME_COUNT, 6572 * 2);
    assert_eq!(next_frame(0), 1);
    assert_eq!(next_frame(13142), 13143);
    assert_eq!(next_frame(13143), 0);
}

#[test]
fn pixel_index_skips_the_top_margin() {
    assert_eq!(pixel_index(0, 0), 3200);
    assert_eq!(pixel_index(0, 159), 3359);
    assert_eq!(pixel_index(1, 0), 3360);
    assert_eq!(pixel_index(119, 159), 22399);
}

#[test]
fn store_pixel_packs_four_pixels_to_a_byte() {
    assert_eq!(FRAMEBUFFER_BYTES * 4, FRAMEBUFFER_PIXELS);
    let mut fb = [0u8; 6400];
    store_pixel(&mut fb, 5, 3);
    assert_eq!(fb[1], 0b0000_1100);
    store_pixel(&mut fb, 5, 1);
    assert_eq!(fb[1], 0b0000_0100);
    store_pixel(&mut fb, 4, 2);
    assert_eq!(fb[1], 0b0000_0110);
    store_pixel(&mut fb, 7, 3);
    assert_eq!(fb[1], 0b1100_0110);
    store_pixel(&mut fb, 25599, 2);
    assert_eq!(fb[6399], 0b1000_0000);
    for (i, b) in fb.iter().enumerate() {
        if i != 1 && i != 6399 {
            assert_eq!(*b, 0);
        }
    }
}

#[test]
fn store_pixel_clears_before_it_sets() {
    let mut fb = [0xFFu8; 6400];
    store_pixel(&mut fb, 6, 0);
    assert_eq!(fb[1], 0xCF);
    store_pixel(&mut fb, 0, 1);
    assert_eq!(fb[0], 0xFD);
    assert_eq!(fb[2], 0xFF);
}

#[test]
fn palette_runs_from_black_to_white() {
    assert_eq!(palette(), [0x000000, 0x555555, 0xAAAAAA, 0xFFFFFF]);
}

#[test]
fn palette_index_clamps_to_the_four_shades() {
    assert_eq!(palette_index(-1), 0);
    assert_eq!(palette_index(i32::MIN), 0);
    assert_eq!(palette_index(0), 0);
    assert_eq!(palette_index(1), 1);
    assert_eq!(palette_index(2), 2);
    assert_eq!(palette_index(3), 3);
    assert_eq!(palette_index(4), 3);
    assert_eq!(palette_index(i32::MAX), 3);
}
