use microw8::{
    FRAMEBUFFER_OFFSET, GAMEPAD_OFFSET, MEMORY_BYTES, PALETTE_BYTES, PALETTE_OFFSET,
    SCREEN_HEIGHT, SCREEN_PIXELS, SCREEN_WIDTH, TIME_OFFSET, decode_frame, gamepad_mask, u32_le,
};

#[test]
fn layout_constants() {
    assert_eq!(SCREEN_WIDTH, 320);
    assert_eq!(SCREEN_HEIGHT, 240);
    assert_eq!(SCREEN_PIXELS, 320 * 240);
    assert_eq!(TIME_OFFSET, 64);
    assert_eq!(GAMEPAD_OFFSET, 68);
    assert_eq!(FRAMEBUFFER_OFFSET, 120);
    assert_eq!(PALETTE_OFFSET, 120 + 320 * 240);
    assert_eq!(PALETTE_BYTES, 256 * 4);
    assert_eq!(MEMORY_BYTES, 4 * 65536);
}

#[test]
fn le_encoding() {
    assert_eq!(u32_le(0x12345678), vec![0x78, 0x56, 0x34, 0x12]);
    assert_eq!(u32_le(0), vec![0, 0, 0, 0]);
    assert_eq!(u32_le(u32::MAX), vec![0xff, 0xff, 0xff, 0xff]);
}

#[test]
fn decode_all_zero_is_opaque_black() {
    let fb = vec![0u8; SCREEN_PIXELS];
    let pal = vec![0u8; PALETTE_BYTES];
    let out = decode_frame(&fb, &pal);
    assert_eq!(out.len(), SCREEN_PIXELS);
    assert!(out.iter().all(|&p| p == 0xff00_0000));
}

#[test]
fn decode_uses_palette_entry_channels_in_order() {
    let mut fb = vec![0u8; SCREEN_PIXELS];
    let mut pal = vec![0u8; PALETTE_BYTES];
    // pixel at (x, y) = (5, 2) selects palette entry 3
    let x = 5usize;
    let y = 2usize;
    fb[y * SCREEN_WIDTH + x] = 3;
    pal[3 * 4] = 10; // red
    pal[3 * 4 + 1] = 20; // green
    pal[3 * 4 + 2] = 30; // blue
    pal[3 * 4 + 3] = 40; // alpha in the palette is ignored
    let out = decode_frame(&fb, &pal);
    assert_eq!(out[y * SCREEN_WIDTH + x], 0xff00_0000 | (10 << 16) | (20 << 8) | 30);
    // an untouched pixel uses entry 0
    assert_eq!(out[0], 0xff00_0000);
}

#[test]
fn decode_highest_palette_entry() {
    let mut fb = vec![0u8; SCREEN_PIXELS];
    let mut pal = vec![0u8; PALETTE_BYTES];
    fb[SCREEN_PIXELS - 1] = 255;
    pal[255 * 4] = 1;
    pal[255 * 4 + 1] = 2;
    pal[255 * 4 + 2] = 3;
    let out = decode_frame(&fb, &pal);
    assert_eq!(out[SCREEN_PIXELS - 1], 0xff00_0000 | (1 << 16) | (2 << 8) | 3);
}

#[test]
fn gamepad_each_bit_independent() {
    for i in 0..8 {
        let mut inputs = [false; 8];
        inputs[i] = true;
        let mask = gamepad_mask(&inputs);
        assert_eq!(mask, 1u32 << i, "input {i} alone must set exactly bit {i}");
    }
}

#[test]
fn gamepad_no_inputs_and_all_inputs() {
    assert_eq!(gamepad_mask(&[false; 8]), 0);
    assert_eq!(gamepad_mask(&[true; 8]), 0xff);
}

#[test]
fn gamepad_mixed_inputs() {
    let inputs = [true, false, true, false, false, true, false, true];
    assert_eq!(gamepad_mask(&inputs), 1 | 4 | 32 | 128);
}
