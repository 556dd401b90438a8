//! The container entity: one header plus one contiguous payload buffer.
//!
//! A `ScratchImage` is created either by parsing an in-memory byte stream
//! (`from_bytes`) or from first principles (`new`), and written back out
//! with `serialize`.  The load path validates the declared sizes against
//! the size arithmetic; the construction path derives every header field
//! from the given geometry.

use vstd::prelude::*;
use vstd::slice::{slice_subrange, slice_to_vec};

use crate::format::{bits_per_pixel, is_block_compressed, spec_bits_per_pixel,
    spec_is_block_compressed};
use crate::header::{
    decode_header, encode_header, header_matches_bytes, le32_at, lemma_encode_matches,
    lemma_matches_append, lemma_matches_encode_exact, lemma_matches_unique, spec_encode_header, DirectDrawHeader,
    DirectDrawHeader10, DirectDrawPixelFormat, BASE_HEADER_SIZE, D3D10_RESOURCE_DIMENSION_TEXTURE1D,
    D3D10_RESOURCE_DIMENSION_TEXTURE2D, D3D10_RESOURCE_DIMENSION_TEXTURE3D,
    D3D10_RESOURCE_DIMENSION_UNKNOWN, DDPF_FOURCC, DDSCAPS2_CUBEMAP, DDSCAPS2_CUBEMAP_NEGATIVEX,
    DDSCAPS2_CUBEMAP_NEGATIVEY, DDSCAPS2_CUBEMAP_NEGATIVEZ, DDSCAPS2_CUBEMAP_POSITIVEX,
    DDSCAPS2_CUBEMAP_POSITIVEY, DDSCAPS2_CUBEMAP_POSITIVEZ, DDSCAPS2_VOLUME, DDSCAPS_COMPLEX,
    DDSCAPS_MIPMAP, DDSCAPS_TEXTURE, DDSD_CAPS, DDSD_DEPTH, DDSD_HEIGHT, DDSD_LINEARSIZE,
    DDSD_MIPMAPCOUNT, DDSD_PIXELFORMAT, DDSD_WIDTH, DDS_MAGIC, DDS_RESOURCE_MISC_TEXTURECUBE,
    DX10_FOUR_CC, HEADER_BYTES, PIXEL_FORMAT_SIZE,
};
use crate::size::{
    lemma_linear_size_bound, pitch_and_linear_size_wide, spec_effective_levels,
    spec_linear_size, spec_load_data_size, spec_mip_chain_size, spec_mip_dim, spec_new_data_size,
    spec_row_pitch,
};

verus! {

/// Why a byte stream was rejected by the load path.
#[derive(Clone, Copy, Debug, PartialEq, Eq)]
pub enum Error {
    /// The first four bytes are not `"DDS "`.
    BadFileMagic,
    /// The declared base-header size is not 124.
    BadFileHeader,
    /// The declared pixel-format sub-record size is not 32.
    BadPixelFormat,
    /// The declared linear size disagrees with the computed one for a
    /// block-compressed format.
    BadLinearSize,
    /// The declared row pitch disagrees with the computed one for an
    /// uncompressed format.
    BadPitch,
    /// The payload length disagrees with the expected total size.
    BadDataSize,
    /// A legacy header without the extended codec tag was encountered.
    NotImplementedYet(&'static str),
}

/// True when the misc-flags word carries the cubemap bit.
pub open spec fn spec_is_cubemap_flag(misc_flag: u32) -> bool {
    misc_flag & DDS_RESOURCE_MISC_TEXTURECUBE == DDS_RESOURCE_MISC_TEXTURECUBE
}

/// The fixed structural checks of the load path: magic, declared base
/// size, declared pixel-format size, and the extended codec tag.
pub open spec fn spec_structure_ok(h: DirectDrawHeader) -> bool {
    &&& h.magic == DDS_MAGIC
    &&& h.size == BASE_HEADER_SIZE
    &&& h.pixel_format.size == PIXEL_FORMAT_SIZE
    &&& h.pixel_format.four_cc == DX10_FOUR_CC
}

/// The stored `pitch_or_linear_size` agrees with the size arithmetic for
/// mip 0: the linear size for a block-compressed format, the row pitch
/// otherwise.
pub open spec fn spec_pitch_ok(h: DirectDrawHeader) -> bool {
    if spec_is_block_compressed(h.dxt10.dxgi_format) {
        h.pitch_or_linear_size == spec_linear_size(h.width, h.height, h.dxt10.dxgi_format)
    } else {
        h.pitch_or_linear_size == spec_row_pitch(h.width, h.dxt10.dxgi_format)
    }
}

/// A payload of `n` bytes has exactly the length the load path expects
/// for header `h`: the cubemap-adjusted mip-chain sum, with no
/// array-layer factor.
pub open spec fn spec_data_size_ok(h: DirectDrawHeader, n: int) -> bool {
    n == spec_load_data_size(
        h.width,
        h.height,
        h.dxt10.dxgi_format,
        h.mipmap_count,
        spec_is_cubemap_flag(h.dxt10.misc_flag),
    )
}

/// The load path accepts byte stream `s`: every validation over the
/// decoded header fields and the payload length passes.
pub open spec fn spec_load_accepts(s: Seq<u8>) -> bool {
    &&& le32_at(s, 0) == DDS_MAGIC
    &&& le32_at(s, 4) == BASE_HEADER_SIZE
    &&& le32_at(s, 76) == PIXEL_FORMAT_SIZE
    &&& le32_at(s, 84) == DX10_FOUR_CC
    &&& (if spec_is_block_compressed(le32_at(s, 128)) {
        le32_at(s, 20) == spec_linear_size(le32_at(s, 16), le32_at(s, 12), le32_at(s, 128))
    } else {
        le32_at(s, 20) == spec_row_pitch(le32_at(s, 16), le32_at(s, 128))
    })
    &&& s.len() - HEADER_BYTES == spec_load_data_size(
        le32_at(s, 16),
        le32_at(s, 12),
        le32_at(s, 128),
        le32_at(s, 28),
        spec_is_cubemap_flag(le32_at(s, 136)),
    )
}

/// Header flags derived by the construction path.
pub open spec fn spec_new_flags(
    width: u32,
    height: u32,
    depth: u32,
    mipmap_count: u32,
    format: u32,
) -> u32 {
    let f = DDSD_CAPS | DDSD_PIXELFORMAT;
    let f = if spec_is_block_compressed(format) {
        f | DDSD_LINEARSIZE
    } else {
        f
    };
    let f = if width > 1 {
        f | DDSD_WIDTH
    } else {
        f
    };
    let f = if height > 1 {
        f | DDSD_HEIGHT
    } else {
        f
    };
    let f = if depth > 1 {
        f | DDSD_DEPTH
    } else {
        f
    };
    if mipmap_count > 1 {
        f | DDSD_MIPMAPCOUNT
    } else {
        f
    }
}

/// Resource dimension derived by the construction path: the highest of
/// the dimensions exceeding 1 wins.
pub open spec fn spec_new_resource_dimension(width: u32, height: u32, depth: u32) -> u32 {
    if depth > 1 {
        D3D10_RESOURCE_DIMENSION_TEXTURE3D
    } else if height > 1 {
        D3D10_RESOURCE_DIMENSION_TEXTURE2D
    } else if width > 1 {
        D3D10_RESOURCE_DIMENSION_TEXTURE1D
    } else {
        D3D10_RESOURCE_DIMENSION_UNKNOWN
    }
}

/// First capability word derived by the construction path.
pub open spec fn spec_new_caps(depth: u32, mipmap_count: u32, is_cubemap: bool) -> u32 {
    let c = DDSCAPS_TEXTURE;
    let c = if depth > 1 {
        c | DDSCAPS_COMPLEX
    } else {
        c
    };
    let c = if mipmap_count > 1 {
        c | DDSCAPS_MIPMAP | DDSCAPS_COMPLEX
    } else {
        c
    };
    if is_cubemap {
        c | DDSCAPS_COMPLEX
    } else {
        c
    }
}

/// Second capability word derived by the construction path: the volume
/// bit for a deep texture, the cubemap bit plus all six face bits for a
/// cubemap.
pub open spec fn spec_new_caps2(depth: u32, is_cubemap: bool) -> u32 {
    let c = if depth > 1 {
        DDSCAPS2_VOLUME
    } else {
        0u32
    };
    if is_cubemap {
        c | DDSCAPS2_CUBEMAP | DDSCAPS2_CUBEMAP_POSITIVEX | DDSCAPS2_CUBEMAP_NEGATIVEX
            | DDSCAPS2_CUBEMAP_POSITIVEY | DDSCAPS2_CUBEMAP_NEGATIVEY | DDSCAPS2_CUBEMAP_POSITIVEZ
            | DDSCAPS2_CUBEMAP_NEGATIVEZ
    } else {
        c
    }
}

/// One texture container: a header and the raw payload bytes of every
/// mip level, cubemap face and array layer, back to back.
#[derive(Clone)]
pub struct ScratchImage {
    dds_header: DirectDrawHeader,
    dds_data: Vec<u8>,
}

/// Exact mip-chain byte total, `mipmap_count` treated as at least 1,
/// computed in a width that cannot overflow for any inputs.
fn mip_chain_size_wide(width: u32, height: u32, format: u32, mipmap_count: u32) -> (r: u128)
    ensures
        r == spec_mip_chain_size(width, height, format, spec_effective_levels(mipmap_count)),
        r <= 0x100000000 * 0x400000000000000000,
{
    let (_, linear0) = pitch_and_linear_size_wide(width, height, format);
    proof {
        lemma_linear_size_bound(width, height, format);
        assert(spec_mip_dim(width, 0) == width);
        assert(spec_mip_dim(height, 0) == height);
        assert(spec_mip_chain_size(width, height, format, 0) == 0);
        assert(spec_mip_chain_size(width, height, format, 1) == spec_mip_chain_size(
            width,
            height,
            format,
            0,
        ) + spec_linear_size(spec_mip_dim(width, 0), spec_mip_dim(height, 0), format));
    }
    let mut total: u128 = linear0;
    let mut cur_w = width;
    let mut cur_h = height;
    let mut mip: u32 = 1;
    while mip < mipmap_count
        invariant
            1 <= mip,
            mip <= mipmap_count || (mip == 1 && mipmap_count <= 1),
            cur_w == spec_mip_dim(width, (mip - 1) as nat),
            cur_h == spec_mip_dim(height, (mip - 1) as nat),
            total == spec_mip_chain_size(width, height, format, mip as nat),
            total <= mip * 0x400000000000000000,
        decreases mipmap_count - mip,
    {
        cur_w = cur_w / 2;
        cur_h = cur_h / 2;
        let (_, mip_linear) = pitch_and_linear_size_wide(cur_w, cur_h, format);
        proof {
            lemma_linear_size_bound(cur_w, cur_h, format);
            assert(mip * 0x400000000000000000 + 0x400000000000000000 == (mip + 1)
                * 0x400000000000000000) by (nonlinear_arith);
            assert(mip * 0x400000000000000000 <= 0xffffffff * 0x400000000000000000)
                by (nonlinear_arith)
                requires
                    1 <= mip <= 0xffffffffu32,
            ;
            assert(cur_w == spec_mip_dim(width, mip as nat));
            assert(cur_h == spec_mip_dim(height, mip as nat));
            assert(spec_mip_chain_size(width, height, format, (mip + 1) as nat)
                == spec_mip_chain_size(width, height, format, mip as nat) + spec_linear_size(
                spec_mip_dim(width, mip as nat),
                spec_mip_dim(height, mip as nat),
                format,
            ));
        }
        total = total + mip_linear;
        mip = mip + 1;
    }
    proof {
        assert(mip * 0x400000000000000000 <= 0x100000000 * 0x400000000000000000)
            by (nonlinear_arith)
            requires
                1 <= mip <= 0x100000000,
        ;
        assert(spec_effective_levels(mipmap_count) == if mipmap_count == 0 {
            1nat
        } else {
            mipmap_count as nat
        });
    }
    total
}

impl ScratchImage {
    /// The header record the container carries.
    pub closed spec fn header(self) -> DirectDrawHeader {
        self.dds_header
    }

    /// The payload bytes the container carries.
    pub closed spec fn data(self) -> Seq<u8> {
        self.dds_data@
    }

    /// Every container made by `from_bytes` or `new` satisfies this: the
    /// fixed structural fields hold their required values and the stored
    /// pitch-or-linear-size agrees with the size arithmetic.
    pub open spec fn wf(self) -> bool {
        &&& spec_structure_ok(self.header())
        &&& spec_pitch_ok(self.header())
    }

    /// The payload length is the one the load path checks against: the
    /// cubemap-adjusted mip-chain sum without the array-layer factor.
    /// `from_bytes` guarantees it; `new` guarantees it exactly when
    /// `array_size` is 1.
    pub open spec fn load_sized(self) -> bool {
        spec_data_size_ok(self.header(), self.data().len() as int)
    }

    /// Parses and validates one complete in-memory byte stream: a
    /// 148-byte header followed by the payload.  Each rejection names
    /// the first check that failed, in the fixed order magic, base size,
    /// pixel-format size, codec tag, pitch arithmetic, payload length.
    pub fn from_bytes(bytes: &[u8]) -> (r: Result<ScratchImage, Error>)
        requires
            bytes@.len() >= HEADER_BYTES,
        ensures
            ((r matches Err(Error::BadFileMagic)) <==> le32_at(bytes@, 0) != DDS_MAGIC),
            ((r matches Err(Error::BadFileHeader)) <==> le32_at(bytes@, 0) == DDS_MAGIC && le32_at(
                bytes@,
                4,
            ) != BASE_HEADER_SIZE),
            ((r matches Err(Error::BadPixelFormat)) <==> le32_at(bytes@, 0) == DDS_MAGIC
                && le32_at(bytes@, 4) == BASE_HEADER_SIZE && le32_at(bytes@, 76)
                != PIXEL_FORMAT_SIZE),
            ((r matches Err(Error::NotImplementedYet(_))) <==> le32_at(bytes@, 0) == DDS_MAGIC
                && le32_at(bytes@, 4) == BASE_HEADER_SIZE && le32_at(bytes@, 76)
                == PIXEL_FORMAT_SIZE && le32_at(bytes@, 84) != DX10_FOUR_CC),
            ((r matches Err(Error::BadLinearSize)) <==> le32_at(bytes@, 0) == DDS_MAGIC && le32_at(
                bytes@,
                4,
            ) == BASE_HEADER_SIZE && le32_at(bytes@, 76) == PIXEL_FORMAT_SIZE && le32_at(bytes@, 84)
                == DX10_FOUR_CC && spec_is_block_compressed(le32_at(bytes@, 128)) && le32_at(
                bytes@,
                20,
            ) != spec_linear_size(le32_at(bytes@, 16), le32_at(bytes@, 12), le32_at(bytes@, 128))),
            ((r matches Err(Error::BadPitch)) <==> le32_at(bytes@, 0) == DDS_MAGIC && le32_at(
                bytes@,
                4,
            ) == BASE_HEADER_SIZE && le32_at(bytes@, 76) == PIXEL_FORMAT_SIZE && le32_at(bytes@, 84)
                == DX10_FOUR_CC && !spec_is_block_compressed(le32_at(bytes@, 128)) && le32_at(
                bytes@,
                20,
            ) != spec_row_pitch(le32_at(bytes@, 16), le32_at(bytes@, 128))),
            ((r is Ok) <==> spec_load_accepts(bytes@)),
            ((r matches Err(Error::BadDataSize)) <==> !spec_load_accepts(bytes@) && le32_at(
                bytes@,
                0,
            ) == DDS_MAGIC && le32_at(bytes@, 4) == BASE_HEADER_SIZE && le32_at(bytes@, 76)
                == PIXEL_FORMAT_SIZE && le32_at(bytes@, 84) == DX10_FOUR_CC && (
            if spec_is_block_compressed(le32_at(bytes@, 128)) {
                le32_at(bytes@, 20) == spec_linear_size(
                    le32_at(bytes@, 16),
                    le32_at(bytes@, 12),
                    le32_at(bytes@, 128),
                )
            } else {
                le32_at(bytes@, 20) == spec_row_pitch(le32_at(bytes@, 16), le32_at(bytes@, 128))
            })),
            (r matches Ok(img) ==> {
                &&& header_matches_bytes(img.header(), bytes@)
                &&& img.data() == bytes@.skip(HEADER_BYTES as int)
                &&& img.wf()
                &&& img.load_sized()
            }),
    {
        let h = decode_header(bytes);
        if h.magic != DDS_MAGIC {
            return Err(Error::BadFileMagic);
        }
        if h.size != BASE_HEADER_SIZE {
            return Err(Error::BadFileHeader);
        }
        if h.pixel_format.size != PIXEL_FORMAT_SIZE {
            return Err(Error::BadPixelFormat);
        }
        if h.pixel_format.four_cc != DX10_FOUR_CC {
            return Err(
                Error::NotImplementedYet(
                    "File does not have DX10 headers, DX9 files are not implemented yet",
                ),
            );
        }
        let n = bytes.len();
        let data = slice_to_vec(slice_subrange(bytes, HEADER_BYTES, n));
        let format = h.dxt10.dxgi_format;
        let (row_pitch, linear_size) = pitch_and_linear_size_wide(h.width, h.height, format);
        if is_block_compressed(format) {
            if linear_size != h.pitch_or_linear_size as u128 {
                return Err(Error::BadLinearSize);
            }
        } else {
            if row_pitch != h.pitch_or_linear_size as u128 {
                return Err(Error::BadPitch);
            }
        }
        let mut image_data_size = mip_chain_size_wide(h.width, h.height, format, h.mipmap_count);
        if h.dxt10.misc_flag & DDS_RESOURCE_MISC_TEXTURECUBE == DDS_RESOURCE_MISC_TEXTURECUBE {
            image_data_size = image_data_size * 6;
        }
        if image_data_size != data.len() as u128 {
            return Err(Error::BadDataSize);
        }
        Ok(ScratchImage { dds_header: h, dds_data: data })
    }

    /// Builds an internally consistent container from first principles:
    /// every flag and capability bit is derived from the inputs, the
    /// stored pitch-or-linear-size comes from the size arithmetic, and a
    /// zero-filled payload of the full mip/cubemap/array size is
    /// allocated.  Inputs are trusted: no validation is performed.
    pub fn new(
        width: u32,
        height: u32,
        depth: u32,
        mipmap_count: u32,
        array_size: u32,
        dxgi_format: u32,
        is_cubemap: bool,
    ) -> (r: ScratchImage)
        requires
            spec_row_pitch(width, dxgi_format) <= u32::MAX,
            spec_linear_size(width, height, dxgi_format) <= u32::MAX,
            spec_new_data_size(width, height, dxgi_format, mipmap_count, is_cubemap, array_size)
                <= usize::MAX,
        ensures
            r.wf(),
            array_size == 1 ==> r.load_sized(),
            r.header().magic == DDS_MAGIC,
            r.header().size == BASE_HEADER_SIZE,
            r.header().flags == spec_new_flags(width, height, depth, mipmap_count, dxgi_format),
            r.header().height == height,
            r.header().width == width,
            r.header().pitch_or_linear_size == (if spec_is_block_compressed(dxgi_format) {
                spec_linear_size(width, height, dxgi_format)
            } else {
                spec_row_pitch(width, dxgi_format)
            }),
            r.header().depth == depth,
            r.header().mipmap_count == mipmap_count,
            forall|i: int| 0 <= i < 11 ==> #[trigger] r.header().reserved@[i] == 0,
            r.header().pixel_format == (DirectDrawPixelFormat {
                size: PIXEL_FORMAT_SIZE,
                flags: DDPF_FOURCC,
                four_cc: DX10_FOUR_CC,
                rgb_bit_count: 0,
                red_bit_mask: 0,
                green_bit_mask: 0,
                blue_bit_mask: 0,
                alpha_bit_mask: 0,
            }),
            r.header().caps == spec_new_caps(depth, mipmap_count, is_cubemap),
            r.header().caps2 == spec_new_caps2(depth, is_cubemap),
            r.header().caps3 == 0,
            r.header().caps4 == 0,
            r.header().reserved2 == 0,
            r.header().dxt10 == (DirectDrawHeader10 {
                dxgi_format,
                resource_dimension: spec_new_resource_dimension(width, height, depth),
                misc_flag: if is_cubemap {
                    DDS_RESOURCE_MISC_TEXTURECUBE
                } else {
                    0
                },
                array_size,
                misc_flags2: 0,
            }),
            r.data().len() == spec_new_data_size(
                width,
                height,
                dxgi_format,
                mipmap_count,
                is_cubemap,
                array_size,
            ),
            forall|i: int| 0 <= i < r.data().len() ==> #[trigger] r.data()[i] == 0,
    {
        let mut flags = DDSD_CAPS | DDSD_PIXELFORMAT;
        let mut resource_dimension = D3D10_RESOURCE_DIMENSION_UNKNOWN;
        let mut caps = DDSCAPS_TEXTURE;
        let mut caps2: u32 = 0;

        if is_block_compressed(dxgi_format) {
            flags = flags | DDSD_LINEARSIZE;
        }
        if width > 1 {
            flags = flags | DDSD_WIDTH;
            resource_dimension = D3D10_RESOURCE_DIMENSION_TEXTURE1D;
        }
        if height > 1 {
            flags = flags | DDSD_HEIGHT;
            resource_dimension = D3D10_RESOURCE_DIMENSION_TEXTURE2D;
        }
        if depth > 1 {
            flags = flags | DDSD_DEPTH;
            resource_dimension = D3D10_RESOURCE_DIMENSION_TEXTURE3D;
            caps = caps | DDSCAPS_COMPLEX;
            caps2 = DDSCAPS2_VOLUME;
        }
        if mipmap_count > 1 {
            flags = flags | DDSD_MIPMAPCOUNT;
            caps = caps | DDSCAPS_MIPMAP;
            caps = caps | DDSCAPS_COMPLEX;
        }

        let mut misc_flag: u32 = 0;
        if is_cubemap {
            caps = caps | DDSCAPS_COMPLEX;
            caps2 = caps2 | DDSCAPS2_CUBEMAP;
            caps2 = caps2 | DDSCAPS2_CUBEMAP_POSITIVEX;
            caps2 = caps2 | DDSCAPS2_CUBEMAP_NEGATIVEX;
            caps2 = caps2 | DDSCAPS2_CUBEMAP_POSITIVEY;
            caps2 = caps2 | DDSCAPS2_CUBEMAP_NEGATIVEY;
            caps2 = caps2 | DDSCAPS2_CUBEMAP_POSITIVEZ;
            caps2 = caps2 | DDSCAPS2_CUBEMAP_NEGATIVEZ;
            misc_flag = DDS_RESOURCE_MISC_TEXTURECUBE;
        }
        let (row_pitch, linear_size) = pitch_and_linear_size_wide(width, height, dxgi_format);

        let dds_header = DirectDrawHeader {
            magic: DDS_MAGIC,
            size: BASE_HEADER_SIZE,
            flags,
            height,
            width,
            pitch_or_linear_size: if is_block_compressed(dxgi_format) {
                linear_size as u32
            } else {
                row_pitch as u32
            },
            depth,
            mipmap_count,
            reserved: [0u32; 11],
            pixel_format: DirectDrawPixelFormat {
                size: PIXEL_FORMAT_SIZE,
                flags: DDPF_FOURCC,
                four_cc: DX10_FOUR_CC,
                rgb_bit_count: 0,
                red_bit_mask: 0,
                green_bit_mask: 0,
                blue_bit_mask: 0,
                alpha_bit_mask: 0,
            },
            caps,
            caps2,
            caps3: 0,
            caps4: 0,
            reserved2: 0,
            dxt10: DirectDrawHeader10 {
                dxgi_format,
                resource_dimension,
                misc_flag,
                array_size,
                misc_flags2: 0,
            },
        };

        let chain = mip_chain_size_wide(width, height, dxgi_format, mipmap_count);
        let ghost load_size = spec_load_data_size(
            width,
            height,
            dxgi_format,
            mipmap_count,
            is_cubemap,
        );
        let adjusted: u128 = if is_cubemap {
            chain * 6
        } else {
            chain
        };
        proof {
            assert(0x4u32 & 0x4u32 == 0x4u32) by (bit_vector);
            assert(0u32 & 0x4u32 == 0u32) by (bit_vector);
            assert(spec_is_cubemap_flag(misc_flag) == is_cubemap);
            assert(adjusted == load_size);
            assert(spec_new_data_size(width, height, dxgi_format, mipmap_count, is_cubemap,
                array_size) == load_size * array_size);
            assert(adjusted * array_size == spec_new_data_size(width, height, dxgi_format,
                mipmap_count, is_cubemap, array_size));
        }
        let image_data_size: u128 = adjusted * array_size as u128;
        let total: usize = image_data_size as usize;

        let mut dds_data: Vec<u8> = Vec::new();
        while dds_data.len() < total
            invariant
                dds_data@.len() <= total,
                forall|i: int| 0 <= i < dds_data@.len() ==> #[trigger] dds_data@[i] == 0,
            decreases total - dds_data@.len(),
        {
            dds_data.push(0u8);
        }

        proof {
            if array_size == 1 {
                assert(image_data_size == adjusted * 1);
                assert(dds_data@.len() == load_size);
                assert(spec_data_size_ok(dds_header, dds_data@.len() as int));
            }
        }
        ScratchImage { dds_header, dds_data }
    }

    /// Encodes the container back to one byte stream: the 148-byte
    /// header followed by the payload, with no separator.  The stream
    /// reproduces exactly the layout the load path consumes.
    pub fn serialize(&self) -> (out: Vec<u8>)
        ensures
            out@ == spec_encode_header(self.header()) + self.data(),
            out@.len() == HEADER_BYTES + self.data().len(),
            header_matches_bytes(self.header(), out@),
            out@.skip(HEADER_BYTES as int) == self.data(),
    {
        let mut out = encode_header(&self.dds_header);
        let mut payload = slice_to_vec(self.dds_data.as_slice());
        proof {
            lemma_encode_matches(self.dds_header);
        }
        out.append(&mut payload);
        proof {
            lemma_matches_append(
                self.dds_header,
                spec_encode_header(self.dds_header),
                self.dds_data@,
            );
            assert(out@.skip(HEADER_BYTES as int) =~= self.dds_data@);
        }
        out
    }

    /// Width, height and depth, in that order.
    pub fn image_size(&self) -> (r: (u32, u32, u32))
        ensures
            r == (self.header().width, self.header().height, self.header().depth),
    {
        (self.dds_header.width, self.dds_header.height, self.dds_header.depth)
    }

    /// Width in texels.
    pub fn image_width(&self) -> (r: u32)
        ensures
            r == self.header().width,
    {
        self.dds_header.width
    }

    /// Height in texels.
    pub fn image_height(&self) -> (r: u32)
        ensures
            r == self.header().height,
    {
        self.dds_header.height
    }

    /// Depth in texels.
    pub fn image_depth(&self) -> (r: u32)
        ensures
            r == self.header().depth,
    {
        self.dds_header.depth
    }

    /// Number of mip levels the header declares.
    pub fn mipmap_count(&self) -> (r: u32)
        ensures
            r == self.header().mipmap_count,
    {
        self.dds_header.mipmap_count
    }

    /// Number of array layers the extended header declares.
    pub fn layer_count(&self) -> (r: u32)
        ensures
            r == self.header().dxt10.array_size,
    {
        self.dds_header.dxt10.array_size
    }

    /// Byte size of one compressed block of the container's format.
    pub fn block_size(&self) -> (r: u32)
        ensures
            r == crate::format::spec_block_size(self.header().dxt10.dxgi_format),
    {
        crate::format::block_size(self.dds_header.dxt10.dxgi_format)
    }

    /// True when the stored resource dimension is one-dimensional.
    pub fn is_texture1d(&self) -> (r: bool)
        ensures
            r == (self.header().dxt10.resource_dimension
                == D3D10_RESOURCE_DIMENSION_TEXTURE1D),
    {
        self.dds_header.dxt10.resource_dimension == D3D10_RESOURCE_DIMENSION_TEXTURE1D
    }

    /// True when the stored resource dimension is two-dimensional.
    pub fn is_texture2d(&self) -> (r: bool)
        ensures
            r == (self.header().dxt10.resource_dimension
                == D3D10_RESOURCE_DIMENSION_TEXTURE2D),
    {
        self.dds_header.dxt10.resource_dimension == D3D10_RESOURCE_DIMENSION_TEXTURE2D
    }

    /// True when the stored resource dimension is three-dimensional.
    pub fn is_texture3d(&self) -> (r: bool)
        ensures
            r == (self.header().dxt10.resource_dimension
                == D3D10_RESOURCE_DIMENSION_TEXTURE3D),
    {
        self.dds_header.dxt10.resource_dimension == D3D10_RESOURCE_DIMENSION_TEXTURE3D
    }

    /// True when the extended header's misc flags carry the cubemap bit.
    pub fn is_cubemap(&self) -> (r: bool)
        ensures
            r == spec_is_cubemap_flag(self.header().dxt10.misc_flag),
    {
        self.dds_header.dxt10.misc_flag & DDS_RESOURCE_MISC_TEXTURECUBE
            == DDS_RESOURCE_MISC_TEXTURECUBE
    }

    /// The pixel-format identifier.
    pub fn dxgi_format(&self) -> (r: u32)
        ensures
            r == self.header().dxt10.dxgi_format,
    {
        self.dds_header.dxt10.dxgi_format
    }

    /// Immutable view of the raw payload bytes.
    pub fn as_slice(&self) -> (r: &[u8])
        ensures
            r@ == self.data(),
    {
        self.dds_data.as_slice()
    }

    /// Mutable view of the raw payload bytes.  The header and the
    /// payload length are untouched; only byte contents can change.
    pub fn as_slice_mut(&mut self) -> (r: &mut [u8])
        ensures
            r@ == old(self).data(),
            final(self).data() == final(r)@,
            final(self).header() == old(self).header(),
    {
        self.dds_data.as_mut_slice()
    }

    /// Gate for a typed reinterpretation of the payload: `Some(n)`
    /// exactly when the requested element byte size equals the format's
    /// `bits_per_pixel / 8`, is non-zero, and divides the payload length
    /// evenly; `n` is then the element count, with `n * element_size`
    /// equal to the payload length.
    pub fn typed_element_count(&self, element_size: usize) -> (r: Option<usize>)
        ensures
            ((r is Some) <==> element_size == spec_bits_per_pixel(
                self.header().dxt10.dxgi_format,
            ) as int / 8 && element_size > 0 && self.data().len() as int % element_size as int == 0),
            (r matches Some(n) ==> n * element_size == self.data().len()),
    {
        let source_size = (bits_per_pixel(self.dds_header.dxt10.dxgi_format) / 8) as usize;
        if source_size == element_size && element_size > 0 && self.dds_data.len() % element_size
            == 0 {
            let n = self.dds_data.len() / element_size;
            proof {
                assert(n * element_size == self.dds_data@.len()) by (nonlinear_arith)
                    requires
                        element_size > 0,
                        n == self.dds_data@.len() as int / element_size as int,
                        self.dds_data@.len() as int % element_size as int == 0,
                ;
            }
            Some(n)
        } else {
            None
        }
    }
}

/// Round-trip law: any well-formed, load-sized container — every
/// container `from_bytes` returns, and every container `new` builds with
/// an array-layer count of 1 — serializes to a stream that `from_bytes`
/// accepts again, with the same header and the same payload bytes.
pub proof fn lemma_round_trip(c: ScratchImage, s: Seq<u8>)
    requires
        c.wf(),
        c.load_sized(),
        s == spec_encode_header(c.header()) + c.data(),
    ensures
        s.len() >= HEADER_BYTES,
        spec_load_accepts(s),
        forall|h: DirectDrawHeader| header_matches_bytes(h, s) ==> h == c.header(),
        s.skip(HEADER_BYTES as int) == c.data(),
{
    lemma_encode_matches(c.header());
    lemma_matches_append(c.header(), spec_encode_header(c.header()), c.data());
    assert(s.skip(HEADER_BYTES as int) =~= c.data());
    assert forall|h: DirectDrawHeader| header_matches_bytes(h, s) implies h == c.header() by {
        lemma_matches_unique(h, c.header(), s);
    }
}

/// Write-back fidelity: a container holding what `from_bytes` took from
/// a stream — a matching header and the stream's payload tail —
/// serializes back to that stream, bit for bit.
pub proof fn lemma_serialize_after_load(img: ScratchImage, s: Seq<u8>)
    requires
        s.len() >= HEADER_BYTES,
        header_matches_bytes(img.header(), s),
        img.data() == s.skip(HEADER_BYTES as int),
    ensures
        spec_encode_header(img.header()) + img.data() == s,
{
    lemma_matches_encode_exact(img.header(), s);
    assert(spec_encode_header(img.header()) + img.data() =~= s);
}

/// Cubemap law: with identical geometry, setting the cubemap bit makes
/// both the construction-path and the load-path payload size exactly six
/// times the non-cubemap value.
pub proof fn lemma_cubemap_multiplier(
    width: u32,
    height: u32,
    format: u32,
    mipmap_count: u32,
    array_size: u32,
)
    ensures
        spec_load_data_size(width, height, format, mipmap_count, true) == 6 * spec_load_data_size(
            width,
            height,
            format,
            mipmap_count,
            false,
        ),
        spec_new_data_size(width, height, format, mipmap_count, true, array_size) == 6
            * spec_new_data_size(width, height, format, mipmap_count, false, array_size),
{
    let base = spec_mip_chain_size(width, height, format, spec_effective_levels(mipmap_count));
    assert((base * 6) * array_size == 6 * ((base * 1) * array_size)) by (nonlinear_arith);
}

/// Array-layer law: the construction path allocates exactly
/// `array_size` times the cubemap-adjusted mip-chain sum, while the load
/// path's expected size carries no array-layer factor at all.
pub proof fn lemma_array_multiplier(
    width: u32,
    height: u32,
    format: u32,
    mipmap_count: u32,
    is_cubemap: bool,
    array_size: u32,
)
    ensures
        spec_new_data_size(width, height, format, mipmap_count, is_cubemap, array_size)
            == array_size * spec_load_data_size(width, height, format, mipmap_count, is_cubemap),
{
    let load = spec_load_data_size(width, height, format, mipmap_count, is_cubemap);
    assert(load * array_size == array_size * load) by (nonlinear_arith);
}

} // verus!
