//! Row-pitch and linear-size arithmetic.
//!
//! The functions here are the single authority for how many bytes a mip
//! level of a given geometry and pixel format must occupy.  Both the load
//! path (validation) and the construction path (allocation) go through
//! them.

use vstd::prelude::*;

use crate::format::{
    bits_per_pixel, block_size, is_block_compressed, spec_bits_per_pixel, spec_block_size,
    spec_is_block_compressed,
};

verus! {

/// Number of 4-texel blocks covering one dimension: `ceil(dim / 4)`,
/// clamped below to 1 so a degenerate dimension still occupies one block.
pub open spec fn spec_block_count(dim: u32) -> int {
    if dim == 0 {
        1
    } else {
        (dim + 3) / 4
    }
}

/// Byte length of one row: one row of blocks for a block-compressed
/// format, otherwise `ceil(width * bits_per_pixel / 8)`.
pub open spec fn spec_row_pitch(width: u32, format: u32) -> int {
    if spec_is_block_compressed(format) {
        spec_block_count(width) * spec_block_size(format)
    } else {
        (width * spec_bits_per_pixel(format) + 7) / 8
    }
}

/// Byte length of one whole mip level: the row pitch times the number of
/// block rows (compressed) or the number of pixel rows (uncompressed).
pub open spec fn spec_linear_size(width: u32, height: u32, format: u32) -> int {
    if spec_is_block_compressed(format) {
        spec_row_pitch(width, format) * spec_block_count(height)
    } else {
        spec_row_pitch(width, format) * height
    }
}

/// Dimension of mip level `level`: the base dimension halved once per
/// level, with no clamping, so a deep enough level reaches 0.
pub open spec fn spec_mip_dim(dim: u32, level: nat) -> u32
    decreases level,
{
    if level == 0 {
        dim
    } else {
        spec_mip_dim(dim, (level - 1) as nat) / 2
    }
}

/// Total byte length of mip levels `0 .. levels` laid out back to back.
pub open spec fn spec_mip_chain_size(width: u32, height: u32, format: u32, levels: nat) -> int
    decreases levels,
{
    if levels == 0 {
        0
    } else {
        spec_mip_chain_size(width, height, format, (levels - 1) as nat) + spec_linear_size(
            spec_mip_dim(width, (levels - 1) as nat),
            spec_mip_dim(height, (levels - 1) as nat),
            format,
        )
    }
}

/// A declared mip count of 0 is treated exactly like 1: the base level is
/// always present in the payload.
pub open spec fn spec_effective_levels(mipmap_count: u32) -> nat {
    if mipmap_count == 0 {
        1
    } else {
        mipmap_count as nat
    }
}

/// Payload byte length the load path checks a file against: the mip chain
/// sum, multiplied by 6 when the cubemap bit is set.  The array-layer
/// count takes no part in this check.
pub open spec fn spec_load_data_size(
    width: u32,
    height: u32,
    format: u32,
    mipmap_count: u32,
    is_cubemap: bool,
) -> int {
    spec_mip_chain_size(width, height, format, spec_effective_levels(mipmap_count)) * (
    if is_cubemap {
        6int
    } else {
        1int
    })
}

/// Payload byte length the construction path allocates: the cubemap-
/// adjusted mip chain sum, further multiplied by the array-layer count.
pub open spec fn spec_new_data_size(
    width: u32,
    height: u32,
    format: u32,
    mipmap_count: u32,
    is_cubemap: bool,
    array_size: u32,
) -> int {
    spec_load_data_size(width, height, format, mipmap_count, is_cubemap) * array_size
}

/// Every linear size is non-negative and below 2^70.
pub proof fn lemma_linear_size_bound(width: u32, height: u32, format: u32)
    ensures
        0 <= spec_linear_size(width, height, format) < 0x400000000000000000,
{
    if spec_is_block_compressed(format) {
        assert(1 <= spec_block_count(width) <= 0x40000000);
        assert(1 <= spec_block_count(height) <= 0x40000000);
        assert(spec_block_size(format) <= 16);
        assert(spec_row_pitch(width, format) <= 0x40000000 * 16) by (nonlinear_arith)
            requires
                1 <= spec_block_count(width) <= 0x40000000,
                0 < spec_block_size(format) <= 16,
                spec_row_pitch(width, format) == spec_block_count(width) * spec_block_size(format),
        ;
        assert(0 < spec_row_pitch(width, format)) by (nonlinear_arith)
            requires
                1 <= spec_block_count(width),
                0 < spec_block_size(format),
                spec_row_pitch(width, format) == spec_block_count(width) * spec_block_size(format),
        ;
        assert(0 < spec_linear_size(width, height, format) <= 0x400000000 * 0x40000000)
            by (nonlinear_arith)
            requires
                0 < spec_row_pitch(width, format) <= 0x400000000,
                1 <= spec_block_count(height) <= 0x40000000,
                spec_linear_size(width, height, format) == spec_row_pitch(width, format)
                    * spec_block_count(height),
        ;
    } else {
        assert(spec_bits_per_pixel(format) <= 128);
        assert(width * spec_bits_per_pixel(format) <= 0xffffffff * 128) by (nonlinear_arith)
            requires
                width <= 0xffffffff,
                spec_bits_per_pixel(format) <= 128,
        ;
        assert(0 <= width * spec_bits_per_pixel(format)) by (nonlinear_arith)
            requires
                0 <= width,
                0 <= spec_bits_per_pixel(format),
        ;
        assert(0 <= spec_row_pitch(width, format) <= 0x2000000000);
        assert(0 <= spec_linear_size(width, height, format) <= 0x2000000000 * 0x100000000)
            by (nonlinear_arith)
            requires
                0 <= spec_row_pitch(width, format) <= 0x2000000000,
                0 <= height <= 0x100000000,
                spec_linear_size(width, height, format) == spec_row_pitch(width, format) * height,
        ;
    }
}

/// Exact row pitch and linear size of mip level 0, computed in a width
/// that cannot overflow for any inputs.
pub fn pitch_and_linear_size_wide(width: u32, height: u32, format: u32) -> (r: (u128, u128))
    ensures
        r.0 == spec_row_pitch(width, format),
        r.1 == spec_linear_size(width, height, format),
{
    proof {
        lemma_linear_size_bound(width, height, format);
    }
    if is_block_compressed(format) {
        let blocks_wide: u128 = if width == 0 {
            1
        } else {
            (width as u128 + 3) / 4
        };
        let blocks_high: u128 = if height == 0 {
            1
        } else {
            (height as u128 + 3) / 4
        };
        let row_pitch: u128 = blocks_wide * (block_size(format) as u128);
        assert(blocks_wide * (spec_block_size(format) as u128) == spec_block_count(width)
            * spec_block_size(format)) by (nonlinear_arith)
            requires
                blocks_wide == spec_block_count(width),
                0 < spec_block_size(format) <= 16,
                blocks_wide <= 0x40000000,
        ;
        let linear_size: u128 = row_pitch * blocks_high;
        assert(row_pitch * blocks_high == spec_row_pitch(width, format) * spec_block_count(height))
            by (nonlinear_arith)
            requires
                row_pitch == spec_row_pitch(width, format),
                blocks_high == spec_block_count(height),
                0 <= row_pitch <= 0x400000000,
                0 < blocks_high <= 0x40000000,
        ;
        (row_pitch, linear_size)
    } else {
        let bits: u128 = (width as u128) * (bits_per_pixel(format) as u128);
        assert(bits == width * spec_bits_per_pixel(format)) by (nonlinear_arith)
            requires
                bits == (width as u128) * (spec_bits_per_pixel(format) as u128),
                width <= 0xffffffff,
                spec_bits_per_pixel(format) <= 128,
        ;
        let row_pitch: u128 = (bits + 7) / 8;
        let linear_size: u128 = row_pitch * (height as u128);
        assert(row_pitch * (height as u128) == spec_row_pitch(width, format) * height)
            by (nonlinear_arith)
            requires
                row_pitch == spec_row_pitch(width, format),
                0 <= row_pitch <= 0x2000000000,
                height <= 0xffffffff,
        ;
        (row_pitch, linear_size)
    }
}

/// Row pitch and linear size of mip level 0 as the 32-bit values a header
/// stores.  The caller must know both fit; `from_bytes` and `new` check
/// or guarantee that before storing them.
pub fn pitch_and_linear_size(width: u32, height: u32, format: u32) -> (r: (u32, u32))
    requires
        spec_row_pitch(width, format) <= u32::MAX,
        spec_linear_size(width, height, format) <= u32::MAX,
    ensures
        r.0 == spec_row_pitch(width, format),
        r.1 == spec_linear_size(width, height, format),
{
    let (row_pitch, linear_size) = pitch_and_linear_size_wide(width, height, format);
    (row_pitch as u32, linear_size as u32)
}

} // verus!
