//! Classification tables for DXGI pixel-format identifiers.
//!
//! A format identifier is the unsigned 32-bit code stored in the extended
//! header.  The tables answer three questions about it: is the format
//! block-compressed, how many bits does one texel occupy, and how many bytes
//! does one compressed block occupy.

use vstd::prelude::*;

verus! {

/// First identifier of the BC1 family (`DXGI_FORMAT_BC1_TYPELESS`).
pub const DXGI_BC1_FIRST: u32 = 70;

/// Last identifier of the BC1 family (`DXGI_FORMAT_BC1_UNORM_SRGB`).
pub const DXGI_BC1_LAST: u32 = 72;

/// First identifier of the BC4 family (`DXGI_FORMAT_BC4_TYPELESS`).
pub const DXGI_BC4_FIRST: u32 = 79;

/// Last identifier of the BC4 family (`DXGI_FORMAT_BC4_SNORM`).
pub const DXGI_BC4_LAST: u32 = 81;

/// First identifier of the contiguous BC1..BC5 range (`DXGI_FORMAT_BC1_TYPELESS`).
pub const DXGI_BC1_TO_BC5_FIRST: u32 = 70;

/// Last identifier of the contiguous BC1..BC5 range (`DXGI_FORMAT_BC5_SNORM`).
pub const DXGI_BC1_TO_BC5_LAST: u32 = 84;

/// First identifier of the contiguous BC6H..BC7 range (`DXGI_FORMAT_BC6H_TYPELESS`).
pub const DXGI_BC6_TO_BC7_FIRST: u32 = 94;

/// Last identifier of the contiguous BC6H..BC7 range (`DXGI_FORMAT_BC7_UNORM_SRGB`).
pub const DXGI_BC6_TO_BC7_LAST: u32 = 99;

/// True exactly for the block-compressed family: BC1 through BC5
/// (identifiers 70..=84) and BC6H through BC7 (identifiers 94..=99).
/// Every other code, including unknown ones, counts as uncompressed.
pub open spec fn spec_is_block_compressed(format: u32) -> bool {
    (DXGI_BC1_TO_BC5_FIRST <= format && format <= DXGI_BC1_TO_BC5_LAST)
        || (DXGI_BC6_TO_BC7_FIRST <= format && format <= DXGI_BC6_TO_BC7_LAST)
}

/// Bit width of one texel for each supported format identifier.
/// For the block-compressed families the value is the equivalent
/// per-texel width (4 for BC1/BC4, 8 for the rest); an identifier outside
/// every supported range maps to 0.
pub open spec fn spec_bits_per_pixel(format: u32) -> u32 {
    if 1 <= format && format <= 4 {
        128
    } else if 5 <= format && format <= 8 {
        96
    } else if 9 <= format && format <= 22 {
        64
    } else if 23 <= format && format <= 47 {
        32
    } else if 48 <= format && format <= 59 {
        16
    } else if 60 <= format && format <= 65 {
        8
    } else if format == 66 {
        1
    } else if 67 <= format && format <= 69 {
        32
    } else if (DXGI_BC1_FIRST <= format && format <= DXGI_BC1_LAST) || (DXGI_BC4_FIRST <= format
        && format <= DXGI_BC4_LAST) {
        4
    } else if (73 <= format && format <= 78) || (82 <= format && format <= 84) {
        8
    } else if 85 <= format && format <= 86 {
        16
    } else if 87 <= format && format <= 93 {
        32
    } else if DXGI_BC6_TO_BC7_FIRST <= format && format <= DXGI_BC6_TO_BC7_LAST {
        8
    } else {
        0
    }
}

/// Bytes occupied by one compressed 4x4 block: 8 for the BC1 and BC4
/// families, 16 for every other identifier.  The value is meaningless for
/// uncompressed formats but is still defined, mirroring the table's use.
pub open spec fn spec_block_size(format: u32) -> u32 {
    if (DXGI_BC1_FIRST <= format && format <= DXGI_BC1_LAST) || (DXGI_BC4_FIRST <= format
        && format <= DXGI_BC4_LAST) {
        8
    } else {
        16
    }
}

/// Reports whether a format identifier belongs to the block-compressed
/// family (BC1 through BC7 and their variants).
pub fn is_block_compressed(format: u32) -> (r: bool)
    ensures
        r == spec_is_block_compressed(format),
{
    (DXGI_BC1_TO_BC5_FIRST <= format && format <= DXGI_BC1_TO_BC5_LAST) || (DXGI_BC6_TO_BC7_FIRST
        <= format && format <= DXGI_BC6_TO_BC7_LAST)
}

/// Looks up the per-texel bit width of a format identifier; 0 for an
/// identifier outside every supported range.
pub fn bits_per_pixel(format: u32) -> (r: u32)
    ensures
        r == spec_bits_per_pixel(format),
{
    if 1 <= format && format <= 4 {
        128
    } else if 5 <= format && format <= 8 {
        96
    } else if 9 <= format && format <= 22 {
        64
    } else if 23 <= format && format <= 47 {
        32
    } else if 48 <= format && format <= 59 {
        16
    } else if 60 <= format && format <= 65 {
        8
    } else if format == 66 {
        1
    } else if 67 <= format && format <= 69 {
        32
    } else if (DXGI_BC1_FIRST <= format && format <= DXGI_BC1_LAST) || (DXGI_BC4_FIRST <= format
        && format <= DXGI_BC4_LAST) {
        4
    } else if (73 <= format && format <= 78) || (82 <= format && format <= 84) {
        8
    } else if 85 <= format && format <= 86 {
        16
    } else if 87 <= format && format <= 93 {
        32
    } else if DXGI_BC6_TO_BC7_FIRST <= format && format <= DXGI_BC6_TO_BC7_LAST {
        8
    } else {
        0
    }
}

/// Looks up the byte size of one compressed block of a format identifier.
pub fn block_size(format: u32) -> (r: u32)
    ensures
        r == spec_block_size(format),
{
    if (DXGI_BC1_FIRST <= format && format <= DXGI_BC1_LAST) || (DXGI_BC4_FIRST <= format
        && format <= DXGI_BC4_LAST) {
        8
    } else {
        16
    }
}

} // verus!
