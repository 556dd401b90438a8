//! Codec for the DDS texture container format (DX10 extended headers only).
//!
//! The crate reads, validates, constructs and writes the structural layout
//! that wraps raw GPU texture data: a fixed 148-byte header followed by one
//! contiguous payload holding every mip level, cubemap face and array layer
//! back to back.  Pixel contents are never interpreted.

pub mod format;
pub mod header;
pub mod image;
pub mod size;

pub use format::{bits_per_pixel, block_size, is_block_compressed};
pub use image::{Error, ScratchImage};
pub use size::pitch_and_linear_size;
