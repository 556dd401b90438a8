use scratch_image::{Error, ScratchImage};

/// 8x8, 4 mips, 32bpp, no cubemap, one layer: 256 + 64 + 16 + 4 = 340.
fn small_mip_chain() -> ScratchImage {
    ScratchImage::new(8, 8, 1, 4, 1, 28, false)
}

#[test]
fn mip_chain_accumulation() {
    let img = small_mip_chain();
    assert_eq!(img.as_slice().len(), 340);
}

#[test]
fn construction_zero_fills_payload() {
    let img = small_mip_chain();
    assert!(img.as_slice().iter().all(|&b| b == 0));
}

#[test]
fn cubemap_multiplier() {
    let flat = ScratchImage::new(8, 8, 1, 4, 1, 28, false);
    let cube = ScratchImage::new(8, 8, 1, 4, 1, 28, true);
    assert_eq!(cube.as_slice().len(), 6 * flat.as_slice().len());
    assert_eq!(cube.as_slice().len(), 2040);
    assert!(cube.is_cubemap());
    assert!(!flat.is_cubemap());
}

#[test]
fn array_multiplier_on_construction() {
    let one = ScratchImage::new(8, 8, 1, 4, 1, 28, false);
    let three = ScratchImage::new(8, 8, 1, 4, 3, 28, false);
    assert_eq!(three.as_slice().len(), 3 * one.as_slice().len());
    assert_eq!(three.as_slice().len(), 1020);
    assert_eq!(three.layer_count(), 3);
}

#[test]
fn array_multiplier_absent_on_load() {
    // The load path checks the payload against the mip/cubemap size only,
    // so a container built with three layers re-reads as too large.
    let three = ScratchImage::new(8, 8, 1, 4, 3, 28, false);
    let bytes = three.serialize();
    assert!(matches!(ScratchImage::from_bytes(&bytes), Err(Error::BadDataSize)));
}

#[test]
fn round_trip_uncompressed() {
    let mut img = ScratchImage::new(16, 16, 1, 2, 1, 28, false);
    for (i, b) in img.as_slice_mut().iter_mut().enumerate() {
        *b = (i % 251) as u8;
    }
    let bytes = img.serialize();
    assert_eq!(bytes.len(), 148 + img.as_slice().len());
    let back = ScratchImage::from_bytes(&bytes).expect("round trip must load");
    assert_eq!(back.image_size(), img.image_size());
    assert_eq!(back.mipmap_count(), img.mipmap_count());
    assert_eq!(back.layer_count(), img.layer_count());
    assert_eq!(back.dxgi_format(), img.dxgi_format());
    assert_eq!(back.is_cubemap(), img.is_cubemap());
    assert_eq!(back.as_slice(), img.as_slice());
    assert_eq!(back.serialize(), bytes);
}

#[test]
fn round_trip_compressed_cubemap() {
    let img = ScratchImage::new(64, 64, 1, 1, 1, 98, true);
    assert_eq!(img.as_slice().len(), 6 * 16 * 16 * 16);
    let bytes = img.serialize();
    let back = ScratchImage::from_bytes(&bytes).expect("round trip must load");
    assert!(back.is_cubemap());
    assert_eq!(back.dxgi_format(), 98);
    assert_eq!(back.as_slice(), img.as_slice());
    assert_eq!(back.serialize(), bytes);
}

#[test]
fn header_layout_is_bit_exact() {
    let img = ScratchImage::new(16, 8, 1, 2, 1, 28, false);
    let bytes = img.serialize();
    assert_eq!(&bytes[0..4], b"DDS ");
    assert_eq!(&bytes[4..8], &124u32.to_le_bytes());
    assert_eq!(&bytes[12..16], &8u32.to_le_bytes());
    assert_eq!(&bytes[16..20], &16u32.to_le_bytes());
    // 16 pixels at 32bpp: 64 bytes of row pitch for an uncompressed format.
    assert_eq!(&bytes[20..24], &64u32.to_le_bytes());
    assert_eq!(&bytes[28..32], &2u32.to_le_bytes());
    assert_eq!(&bytes[32..76], &[0u8; 44]);
    assert_eq!(&bytes[76..80], &32u32.to_le_bytes());
    assert_eq!(&bytes[84..88], b"DX10");
    assert_eq!(&bytes[128..132], &28u32.to_le_bytes());
    assert_eq!(&bytes[140..144], &1u32.to_le_bytes());
    assert_eq!(&bytes[144..148], &0u32.to_le_bytes());
}

#[test]
fn magic_rejection() {
    let img = small_mip_chain();
    let mut bytes = img.serialize();
    bytes[0] = b'X';
    assert!(matches!(ScratchImage::from_bytes(&bytes), Err(Error::BadFileMagic)));

    // Any first four bytes other than "DDS " are rejected the same way,
    // whatever follows.
    let garbage = vec![0xA5u8; 200];
    assert!(matches!(ScratchImage::from_bytes(&garbage), Err(Error::BadFileMagic)));
}

#[test]
fn bad_header_size_rejection() {
    let img = small_mip_chain();
    let mut bytes = img.serialize();
    bytes[4..8].copy_from_slice(&123u32.to_le_bytes());
    assert!(matches!(ScratchImage::from_bytes(&bytes), Err(Error::BadFileHeader)));
}

#[test]
fn bad_pixel_format_size_rejection() {
    let img = small_mip_chain();
    let mut bytes = img.serialize();
    bytes[76..80].copy_from_slice(&31u32.to_le_bytes());
    assert!(matches!(ScratchImage::from_bytes(&bytes), Err(Error::BadPixelFormat)));
}

#[test]
fn legacy_four_cc_rejection() {
    let img = small_mip_chain();
    let mut bytes = img.serialize();
    bytes[84..88].copy_from_slice(b"DXT1");
    assert!(matches!(
        ScratchImage::from_bytes(&bytes),
        Err(Error::NotImplementedYet(_))
    ));
}

#[test]
fn bad_linear_size_rejection() {
    let img = ScratchImage::new(64, 64, 1, 1, 1, 98, false);
    let mut bytes = img.serialize();
    bytes[20..24].copy_from_slice(&4097u32.to_le_bytes());
    assert!(matches!(ScratchImage::from_bytes(&bytes), Err(Error::BadLinearSize)));
}

#[test]
fn bad_pitch_rejection() {
    let img = small_mip_chain();
    let mut bytes = img.serialize();
    bytes[20..24].copy_from_slice(&33u32.to_le_bytes());
    assert!(matches!(ScratchImage::from_bytes(&bytes), Err(Error::BadPitch)));
}

#[test]
fn bad_data_size_rejection() {
    let img = small_mip_chain();
    let mut bytes = img.serialize();
    bytes.push(0);
    assert!(matches!(ScratchImage::from_bytes(&bytes), Err(Error::BadDataSize)));

    let mut bytes = img.serialize();
    bytes.pop();
    assert!(matches!(ScratchImage::from_bytes(&bytes), Err(Error::BadDataSize)));
}

#[test]
fn accessors_report_stored_fields() {
    let img = ScratchImage::new(4, 8, 16, 2, 5, 77, false);
    assert_eq!(img.image_size(), (4, 8, 16));
    assert_eq!(img.image_width(), 4);
    assert_eq!(img.image_height(), 8);
    assert_eq!(img.image_depth(), 16);
    assert_eq!(img.mipmap_count(), 2);
    assert_eq!(img.layer_count(), 5);
    assert_eq!(img.dxgi_format(), 77);
    assert_eq!(img.block_size(), 16);
    assert!(img.is_texture3d());
    assert!(!img.is_texture2d());
    assert!(!img.is_texture1d());
}

#[test]
fn resource_dimension_from_geometry() {
    assert!(ScratchImage::new(4, 1, 1, 1, 1, 28, false).is_texture1d());
    assert!(ScratchImage::new(4, 4, 1, 1, 1, 28, false).is_texture2d());
    assert!(ScratchImage::new(4, 4, 4, 1, 1, 28, false).is_texture3d());
    let flat = ScratchImage::new(1, 1, 1, 1, 1, 28, false);
    assert!(!flat.is_texture1d() && !flat.is_texture2d() && !flat.is_texture3d());
    assert!(ScratchImage::new(80, 80, 1, 1, 1, 80, false).block_size() == 8);
}

#[test]
fn mipmap_count_zero_still_holds_the_base_level() {
    let img = ScratchImage::new(8, 8, 1, 0, 1, 28, false);
    assert_eq!(img.mipmap_count(), 0);
    assert_eq!(img.as_slice().len(), 256);
    let bytes = img.serialize();
    let back = ScratchImage::from_bytes(&bytes).expect("round trip must load");
    assert_eq!(back.as_slice().len(), 256);
}

#[test]
fn mip_dimensions_shrink_to_zero_unclamped() {
    // 1x1 with three declared mips: 4 + 0 + 0 bytes.
    let img = ScratchImage::new(1, 1, 1, 3, 1, 28, false);
    assert_eq!(img.as_slice().len(), 4);
}

#[test]
fn payload_mutation_is_visible_and_serialized() {
    let mut img = ScratchImage::new(2, 2, 1, 1, 1, 28, false);
    img.as_slice_mut()[0] = 0xAB;
    img.as_slice_mut()[15] = 0xCD;
    assert_eq!(img.as_slice()[0], 0xAB);
    let bytes = img.serialize();
    assert_eq!(bytes[148], 0xAB);
    assert_eq!(bytes[148 + 15], 0xCD);
}

#[test]
fn typed_view_gating() {
    // 32bpp: elements of 4 bytes fit, anything else is refused.
    let img = ScratchImage::new(4, 4, 1, 1, 1, 28, false);
    assert_eq!(img.typed_element_count(4), Some(16));
    assert_eq!(img.typed_element_count(2), None);
    assert_eq!(img.typed_element_count(8), None);
    assert_eq!(img.typed_element_count(0), None);
    let n = img.typed_element_count(4).unwrap();
    assert_eq!(n * 4, img.as_slice().len());

    // 128bpp: 16-byte elements.
    let wide = ScratchImage::new(4, 4, 1, 1, 1, 2, false);
    assert_eq!(wide.typed_element_count(16), Some(16));
    assert_eq!(wide.typed_element_count(4), None);
}

#[test]
fn write_back_reproduces_loaded_stream() {
    let img = small_mip_chain();
    let mut bytes = img.serialize();
    // Perturb fields the load path does not validate: reserved words,
    // legacy pixel-format fields, a capability word, a payload byte.
    bytes[32] = 7;
    bytes[75] = 9;
    bytes[88..92].copy_from_slice(&0xDEADBEEFu32.to_le_bytes());
    bytes[108] = 0x55;
    bytes[200] = 0xEE;
    let back = ScratchImage::from_bytes(&bytes).expect("stream must load");
    assert_eq!(back.serialize(), bytes);
}
