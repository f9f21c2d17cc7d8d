use gameboy::gpu::{
    arrange_tile_bytes, decode_tile, extract_high_bits, extract_low_bits, map_tile_pixels,
    palette_color, FrameBuffer, DISPLAY_SIZE_IN_BYTES,
};

#[test]
fn extracts_odd_and_even_position_bits() {
    assert_eq!(extract_high_bits(0b1010_1010), 0b1111);
    assert_eq!(extract_low_bits(0b1010_1010), 0b0000);
    assert_eq!(extract_high_bits(0xF0), 0b1100);
    assert_eq!(extract_low_bits(0xF0), 0b1100);
    assert_eq!(extract_high_bits(0x3C), 0b0110);
    assert_eq!(extract_low_bits(0x3C), 0b0110);
}

#[test]
fn arranges_pairs_into_even_then_odd_bit_planes() {
    let mut tile = [0u8; 16];
    tile[0] = 0x3C;
    tile[1] = 0x7E;
    let arranged = arrange_tile_bytes(&tile);
    assert_eq!(arranged.len(), 16);
    assert_eq!(arranged[0], 0x6E);
    assert_eq!(arranged[1], 0x67);
    assert!(arranged[2..].iter().all(|b| *b == 0));
}

#[test]
fn palette_has_four_fixed_colors() {
    assert_eq!(palette_color(0), 0xE0F8D0);
    assert_eq!(palette_color(1), 0x89C06F);
    assert_eq!(palette_color(2), 0x356856);
    assert_eq!(palette_color(3), 0x081820);
}

#[test]
fn maps_each_two_bit_group_to_its_own_pixel() {
    let mut bytes = [0u8; 16];
    bytes[0] = 0b00_01_10_11;
    let rgb = map_tile_pixels(&bytes);
    assert_eq!(rgb.len(), 192);
    assert_eq!(&rgb[0..12], &[0xE0, 0xF8, 0xD0, 0x89, 0xC0, 0x6F, 0x35, 0x68, 0x56, 0x08, 0x18, 0x20]);
    assert_eq!(&rgb[12..15], &[0xE0, 0xF8, 0xD0]);
}

#[test]
fn decodes_a_tile_to_rgb() {
    let mut tile = [0u8; 16];
    tile[0] = 0x3C;
    tile[1] = 0x7E;
    let rgb = decode_tile(&tile);
    assert_eq!(rgb.len(), 192);
    let expected: [u8; 24] = [
        0x89, 0xC0, 0x6F, 0x35, 0x68, 0x56, 0x08, 0x18, 0x20, 0x35, 0x68, 0x56, 0x89, 0xC0, 0x6F,
        0x35, 0x68, 0x56, 0x89, 0xC0, 0x6F, 0x08, 0x18, 0x20,
    ];
    assert_eq!(&rgb[0..24], &expected);
    for p in 8..64 {
        assert_eq!(&rgb[3 * p..3 * p + 3], &[0xE0, 0xF8, 0xD0]);
    }
}

#[test]
fn decoding_twice_gives_the_same_bytes() {
    let tile: [u8; 16] = [
        0xFF, 0x00, 0x7E, 0xFF, 0x85, 0x81, 0x89, 0x83, 0x93, 0x85, 0xA5, 0x8B, 0xC9, 0x97, 0x7E, 0xFF,
    ];
    let first = decode_tile(&tile);
    let second = decode_tile(&tile);
    assert_eq!(first, second);
    assert_eq!(first.len(), 192);
}

#[test]
fn blank_tile_is_lightest_color() {
    let rgb = decode_tile(&[0u8; 16]);
    for p in 0..64 {
        assert_eq!(&rgb[3 * p..3 * p + 3], &[0xE0, 0xF8, 0xD0]);
    }
}

#[test]
fn places_tile_in_frame_buffer() {
    let mut frame = FrameBuffer::new();
    assert_eq!(frame.display.len(), DISPLAY_SIZE_IN_BYTES);
    let tile: Vec<u8> = (0..192).map(|i| i as u8 + 1).collect();
    frame.set_tile_on_display(&tile, 384);
    assert_eq!(frame.display[383], 0);
    assert_eq!(&frame.display[384..576], tile.as_slice());
    assert_eq!(frame.display[576], 0);

    let last = DISPLAY_SIZE_IN_BYTES - 192;
    frame.set_tile_on_display(&tile, last);
    assert_eq!(frame.display[DISPLAY_SIZE_IN_BYTES - 1], 192);
}
