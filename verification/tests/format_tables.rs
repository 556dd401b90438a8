use scratch_image::{bits_per_pixel, block_size, is_block_compressed, pitch_and_linear_size};

#[test]
fn block_compressed_family() {
    for f in 70..=84u32 {
        assert!(is_block_compressed(f));
    }
    for f in 94..=99u32 {
        assert!(is_block_compressed(f));
    }
    assert!(!is_block_compressed(0));
    assert!(!is_block_compressed(28));
    assert!(!is_block_compressed(69));
    assert!(!is_block_compressed(85));
    assert!(!is_block_compressed(93));
    assert!(!is_block_compressed(100));
}

#[test]
fn bits_per_pixel_table() {
    assert_eq!(bits_per_pixel(2), 128);
    assert_eq!(bits_per_pixel(6), 96);
    assert_eq!(bits_per_pixel(10), 64);
    assert_eq!(bits_per_pixel(22), 64);
    assert_eq!(bits_per_pixel(28), 32);
    assert_eq!(bits_per_pixel(47), 32);
    assert_eq!(bits_per_pixel(49), 16);
    assert_eq!(bits_per_pixel(61), 8);
    assert_eq!(bits_per_pixel(66), 1);
    assert_eq!(bits_per_pixel(67), 32);
    assert_eq!(bits_per_pixel(71), 4);
    assert_eq!(bits_per_pixel(74), 8);
    assert_eq!(bits_per_pixel(80), 4);
    assert_eq!(bits_per_pixel(83), 8);
    assert_eq!(bits_per_pixel(85), 16);
    assert_eq!(bits_per_pixel(87), 32);
    assert_eq!(bits_per_pixel(98), 8);
    assert_eq!(bits_per_pixel(0), 0);
    assert_eq!(bits_per_pixel(200), 0);
}

#[test]
fn block_size_table() {
    assert_eq!(block_size(70), 8);
    assert_eq!(block_size(71), 8);
    assert_eq!(block_size(79), 8);
    assert_eq!(block_size(81), 8);
    assert_eq!(block_size(73), 16);
    assert_eq!(block_size(77), 16);
    assert_eq!(block_size(98), 16);
    assert_eq!(block_size(28), 16);
}

#[test]
fn compressed_size_example() {
    // 16-byte blocks (BC7), 256x256: 64x64 blocks, 64*16 = 1024 per row,
    // 64 rows of blocks.
    let (row_pitch, linear_size) = pitch_and_linear_size(256, 256, 98);
    assert_eq!(row_pitch, 1024);
    assert_eq!(linear_size, 64 * 64 * 16);
    assert_eq!(linear_size, 65536);
}

#[test]
fn uncompressed_size_example() {
    // 32 bits per pixel, 256x256: 256*32/8 = 1024 bytes per row.
    let (row_pitch, linear_size) = pitch_and_linear_size(256, 256, 28);
    assert_eq!(row_pitch, 1024);
    assert_eq!(linear_size, 1024 * 256);
    assert_eq!(linear_size, 262144);
}

#[test]
fn degenerate_dimensions_still_occupy_one_block() {
    let (row_pitch, linear_size) = pitch_and_linear_size(0, 0, 71);
    assert_eq!(row_pitch, 8);
    assert_eq!(linear_size, 8);

    let (row_pitch, linear_size) = pitch_and_linear_size(1, 1, 71);
    assert_eq!(row_pitch, 8);
    assert_eq!(linear_size, 8);
}

#[test]
fn uncompressed_rounds_bits_up_to_whole_bytes() {
    // 1 bit per pixel, width 10: ceil(10 / 8) = 2 bytes per row.
    let (row_pitch, linear_size) = pitch_and_linear_size(10, 3, 66);
    assert_eq!(row_pitch, 2);
    assert_eq!(linear_size, 6);
}
