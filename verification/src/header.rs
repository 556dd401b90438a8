//! The fixed 148-byte container header and its bit-exact little-endian
//! byte encoding.
//!
//! The header is a sequence of 37 little-endian 32-bit words at fixed
//! offsets: the base record (magic through the capability words) with an
//! embedded pixel-format descriptor, followed by the extended sub-record.
//! Decoding reinterprets an exact byte window field by field; encoding is
//! its inverse, reproducing the window bit for bit.

use vstd::bytes::{
    lemma_auto_spec_u32_to_from_le_bytes, spec_u32_from_le_bytes, spec_u32_to_le_bytes,
    u32_from_le_bytes, u32_to_le_bytes,
};
use vstd::prelude::*;
use vstd::slice::slice_subrange;

verus! {

broadcast use vstd::array::group_array_axioms;

/// The four magic bytes `"DDS "` read as one little-endian word.
pub const DDS_MAGIC: u32 = 0x20534444;

/// The four codec-tag bytes `"DX10"` read as one little-endian word.
pub const DX10_FOUR_CC: u32 = 0x30315844;

/// Declared byte size of the base header record.
pub const BASE_HEADER_SIZE: u32 = 124;

/// Declared byte size of the pixel-format descriptor.
pub const PIXEL_FORMAT_SIZE: u32 = 32;

/// Byte length of the whole encoded header.
pub const HEADER_BYTES: usize = 148;

/// Number of 32-bit words in the encoded header.
pub const HEADER_WORDS: usize = 37;

/// Header flag: capability bits are valid.
pub const DDSD_CAPS: u32 = 0x1;

/// Header flag: height is valid.
pub const DDSD_HEIGHT: u32 = 0x2;

/// Header flag: width is valid.
pub const DDSD_WIDTH: u32 = 0x4;

/// Header flag: the pixel format is valid.
pub const DDSD_PIXELFORMAT: u32 = 0x1000;

/// Header flag: the mipmap count is valid.
pub const DDSD_MIPMAPCOUNT: u32 = 0x20000;

/// Header flag: `pitch_or_linear_size` holds a linear size.
pub const DDSD_LINEARSIZE: u32 = 0x80000;

/// Header flag: depth is valid.
pub const DDSD_DEPTH: u32 = 0x800000;

/// Capability bit: the surface is more than one image.
pub const DDSCAPS_COMPLEX: u32 = 0x8;

/// Capability bit: the surface carries mipmaps.
pub const DDSCAPS_MIPMAP: u32 = 0x400000;

/// Capability bit: the surface is a texture.
pub const DDSCAPS_TEXTURE: u32 = 0x1000;

/// Second capability word: the surface is a cubemap.
pub const DDSCAPS2_CUBEMAP: u32 = 0x200;

/// Second capability word: the positive-x cubemap face is present.
pub const DDSCAPS2_CUBEMAP_POSITIVEX: u32 = 0x400;

/// Second capability word: the negative-x cubemap face is present.
pub const DDSCAPS2_CUBEMAP_NEGATIVEX: u32 = 0x800;

/// Second capability word: the positive-y cubemap face is present.
pub const DDSCAPS2_CUBEMAP_POSITIVEY: u32 = 0x1000;

/// Second capability word: the negative-y cubemap face is present.
pub const DDSCAPS2_CUBEMAP_NEGATIVEY: u32 = 0x2000;

/// Second capability word: the positive-z cubemap face is present.
pub const DDSCAPS2_CUBEMAP_POSITIVEZ: u32 = 0x4000;

/// Second capability word: the negative-z cubemap face is present.
pub const DDSCAPS2_CUBEMAP_NEGATIVEZ: u32 = 0x8000;

/// Second capability word: the surface is a volume texture.
pub const DDSCAPS2_VOLUME: u32 = 0x200000;

/// Pixel-format flag: the descriptor carries a four-character codec tag.
pub const DDPF_FOURCC: u32 = 0x4;

/// Extended-header misc flag: the resource is a cubemap.
pub const DDS_RESOURCE_MISC_TEXTURECUBE: u32 = 0x4;

/// Resource dimension: unknown.
pub const D3D10_RESOURCE_DIMENSION_UNKNOWN: u32 = 0;

/// Resource dimension: one-dimensional texture.
pub const D3D10_RESOURCE_DIMENSION_TEXTURE1D: u32 = 2;

/// Resource dimension: two-dimensional texture.
pub const D3D10_RESOURCE_DIMENSION_TEXTURE2D: u32 = 3;

/// Resource dimension: three-dimensional texture.
pub const D3D10_RESOURCE_DIMENSION_TEXTURE3D: u32 = 4;

/// The 32-byte pixel-format descriptor embedded in the base header.
/// With the extended codec tag present, the legacy bit-count and bit-mask
/// fields carry no meaning and are kept only for layout fidelity.
#[derive(Clone, Copy, Debug)]
pub struct DirectDrawPixelFormat {
    /// Declared byte size of this descriptor; 32 in a valid file.
    pub size: u32,
    /// Descriptor flag bits.
    pub flags: u32,
    /// Four-character codec tag as one little-endian word.
    pub four_cc: u32,
    /// Legacy per-pixel bit count.
    pub rgb_bit_count: u32,
    /// Legacy red channel mask.
    pub red_bit_mask: u32,
    /// Legacy green channel mask.
    pub green_bit_mask: u32,
    /// Legacy blue channel mask.
    pub blue_bit_mask: u32,
    /// Legacy alpha channel mask.
    pub alpha_bit_mask: u32,
}

/// The 20-byte extended sub-record that closes the header.
#[derive(Clone, Copy, Debug)]
pub struct DirectDrawHeader10 {
    /// Pixel-format identifier.
    pub dxgi_format: u32,
    /// Resource dimension code.
    pub resource_dimension: u32,
    /// Misc flag bits; bit 0x4 marks a cubemap.
    pub misc_flag: u32,
    /// Array-layer count.
    pub array_size: u32,
    /// Second misc flag word; 0 on construction.
    pub misc_flags2: u32,
}

/// The whole 148-byte header record.
#[derive(Clone, Copy, Debug)]
pub struct DirectDrawHeader {
    /// File magic as one little-endian word; `"DDS "` in a valid file.
    pub magic: u32,
    /// Declared byte size of the base record; 124 in a valid file.
    pub size: u32,
    /// Flag bits naming which geometry fields are meaningful.
    pub flags: u32,
    /// Height in texels.
    pub height: u32,
    /// Width in texels.
    pub width: u32,
    /// Row pitch of mip 0 for uncompressed formats, linear size of mip 0
    /// for block-compressed ones.
    pub pitch_or_linear_size: u32,
    /// Depth in texels.
    pub depth: u32,
    /// Number of mip levels.
    pub mipmap_count: u32,
    /// Eleven reserved words; 0 on construction.
    pub reserved: [u32; 11],
    /// Embedded pixel-format descriptor.
    pub pixel_format: DirectDrawPixelFormat,
    /// First capability word.
    pub caps: u32,
    /// Second capability word.
    pub caps2: u32,
    /// Third capability word.
    pub caps3: u32,
    /// Fourth capability word; reserved.
    pub caps4: u32,
    /// One more reserved word.
    pub reserved2: u32,
    /// Embedded extended sub-record.
    pub dxt10: DirectDrawHeader10,
}

/// The little-endian 32-bit word beginning at byte offset `off` of `s`.
pub open spec fn le32_at(s: Seq<u8>, off: int) -> u32 {
    spec_u32_from_le_bytes(s.subrange(off, off + 4))
}

/// The header's `k`-th 32-bit word, in on-disk order.
pub open spec fn spec_header_word(h: DirectDrawHeader, k: int) -> u32 {
    if k == 0 {
        h.magic
    } else if k == 1 {
        h.size
    } else if k == 2 {
        h.flags
    } else if k == 3 {
        h.height
    } else if k == 4 {
        h.width
    } else if k == 5 {
        h.pitch_or_linear_size
    } else if k == 6 {
        h.depth
    } else if k == 7 {
        h.mipmap_count
    } else if 8 <= k && k < 19 {
        h.reserved@[k - 8]
    } else if k == 19 {
        h.pixel_format.size
    } else if k == 20 {
        h.pixel_format.flags
    } else if k == 21 {
        h.pixel_format.four_cc
    } else if k == 22 {
        h.pixel_format.rgb_bit_count
    } else if k == 23 {
        h.pixel_format.red_bit_mask
    } else if k == 24 {
        h.pixel_format.green_bit_mask
    } else if k == 25 {
        h.pixel_format.blue_bit_mask
    } else if k == 26 {
        h.pixel_format.alpha_bit_mask
    } else if k == 27 {
        h.caps
    } else if k == 28 {
        h.caps2
    } else if k == 29 {
        h.caps3
    } else if k == 30 {
        h.caps4
    } else if k == 31 {
        h.reserved2
    } else if k == 32 {
        h.dxt10.dxgi_format
    } else if k == 33 {
        h.dxt10.resource_dimension
    } else if k == 34 {
        h.dxt10.misc_flag
    } else if k == 35 {
        h.dxt10.array_size
    } else {
        h.dxt10.misc_flags2
    }
}

/// The `i`-th byte of the encoded header: byte `i % 4` of word `i / 4`.
pub open spec fn spec_header_byte(h: DirectDrawHeader, i: int) -> u8 {
    spec_u32_to_le_bytes(spec_header_word(h, i / 4))[i % 4]
}

/// The exact 148-byte encoding of a header.
pub open spec fn spec_encode_header(h: DirectDrawHeader) -> Seq<u8> {
    Seq::new(HEADER_BYTES as nat, |i: int| spec_header_byte(h, i))
}

/// Field-by-field statement that header `h` is what byte sequence `s`
/// (of length at least 148) holds at the fixed on-disk offsets.
pub open spec fn header_matches_bytes(h: DirectDrawHeader, s: Seq<u8>) -> bool {
    &&& h.magic == le32_at(s, 0)
    &&& h.size == le32_at(s, 4)
    &&& h.flags == le32_at(s, 8)
    &&& h.height == le32_at(s, 12)
    &&& h.width == le32_at(s, 16)
    &&& h.pitch_or_linear_size == le32_at(s, 20)
    &&& h.depth == le32_at(s, 24)
    &&& h.mipmap_count == le32_at(s, 28)
    &&& forall|i: int| 0 <= i < 11 ==> #[trigger] h.reserved@[i] == le32_at(s, 32 + 4 * i)
    &&& h.pixel_format.size == le32_at(s, 76)
    &&& h.pixel_format.flags == le32_at(s, 80)
    &&& h.pixel_format.four_cc == le32_at(s, 84)
    &&& h.pixel_format.rgb_bit_count == le32_at(s, 88)
    &&& h.pixel_format.red_bit_mask == le32_at(s, 92)
    &&& h.pixel_format.green_bit_mask == le32_at(s, 96)
    &&& h.pixel_format.blue_bit_mask == le32_at(s, 100)
    &&& h.pixel_format.alpha_bit_mask == le32_at(s, 104)
    &&& h.caps == le32_at(s, 108)
    &&& h.caps2 == le32_at(s, 112)
    &&& h.caps3 == le32_at(s, 116)
    &&& h.caps4 == le32_at(s, 120)
    &&& h.reserved2 == le32_at(s, 124)
    &&& h.dxt10.dxgi_format == le32_at(s, 128)
    &&& h.dxt10.resource_dimension == le32_at(s, 132)
    &&& h.dxt10.misc_flag == le32_at(s, 136)
    &&& h.dxt10.array_size == le32_at(s, 140)
    &&& h.dxt10.misc_flags2 == le32_at(s, 144)
}

/// Reading word `k` back out of the encoding gives the header's word `k`.
pub proof fn lemma_le32_at_encode(h: DirectDrawHeader, k: int)
    requires
        0 <= k < HEADER_WORDS,
    ensures
        le32_at(spec_encode_header(h), 4 * k) == spec_header_word(h, k),
{
    lemma_auto_spec_u32_to_from_le_bytes();
    let enc = spec_encode_header(h);
    let word_bytes = spec_u32_to_le_bytes(spec_header_word(h, k));
    assert forall|j: int| 0 <= j < 4 implies enc.subrange(4 * k, 4 * k + 4)[j] == word_bytes[j] by {
        assert((4 * k + j) / 4 == k && (4 * k + j) % 4 == j) by (nonlinear_arith)
            requires
                0 <= j < 4,
                0 <= k,
        ;
        assert(enc[4 * k + j] == spec_header_byte(h, 4 * k + j));
    }
    assert(enc.subrange(4 * k, 4 * k + 4) =~= word_bytes);
}

/// The encoding of a header decodes back to that header, field for field.
pub proof fn lemma_encode_matches(h: DirectDrawHeader)
    ensures
        spec_encode_header(h).len() == HEADER_BYTES,
        header_matches_bytes(h, spec_encode_header(h)),
{
    let enc = spec_encode_header(h);
    lemma_le32_at_encode(h, 0);
    lemma_le32_at_encode(h, 1);
    lemma_le32_at_encode(h, 2);
    lemma_le32_at_encode(h, 3);
    lemma_le32_at_encode(h, 4);
    lemma_le32_at_encode(h, 5);
    lemma_le32_at_encode(h, 6);
    lemma_le32_at_encode(h, 7);
    assert forall|i: int| 0 <= i < 11 implies #[trigger] h.reserved@[i] == le32_at(
        enc,
        32 + 4 * i,
    ) by {
        lemma_le32_at_encode(h, 8 + i);
        assert(4 * (8 + i) == 32 + 4 * i);
    }
    lemma_le32_at_encode(h, 19);
    lemma_le32_at_encode(h, 20);
    lemma_le32_at_encode(h, 21);
    lemma_le32_at_encode(h, 22);
    lemma_le32_at_encode(h, 23);
    lemma_le32_at_encode(h, 24);
    lemma_le32_at_encode(h, 25);
    lemma_le32_at_encode(h, 26);
    lemma_le32_at_encode(h, 27);
    lemma_le32_at_encode(h, 28);
    lemma_le32_at_encode(h, 29);
    lemma_le32_at_encode(h, 30);
    lemma_le32_at_encode(h, 31);
    lemma_le32_at_encode(h, 32);
    lemma_le32_at_encode(h, 33);
    lemma_le32_at_encode(h, 34);
    lemma_le32_at_encode(h, 35);
    lemma_le32_at_encode(h, 36);
}

/// The encoded window of word `k` equals the matching window of any byte
/// sequence the header matches.
proof fn lemma_word_window(h: DirectDrawHeader, s: Seq<u8>, k: int)
    requires
        s.len() >= HEADER_BYTES,
        header_matches_bytes(h, s),
        0 <= k < HEADER_WORDS,
    ensures
        spec_encode_header(h).subrange(4 * k, 4 * k + 4) == s.subrange(4 * k, 4 * k + 4),
{
    lemma_auto_spec_u32_to_from_le_bytes();
    let enc = spec_encode_header(h);
    let word_bytes = spec_u32_to_le_bytes(spec_header_word(h, k));
    assert forall|j: int| 0 <= j < 4 implies enc.subrange(4 * k, 4 * k + 4)[j]
        == word_bytes[j] by {
        assert((4 * k + j) / 4 == k && (4 * k + j) % 4 == j) by (nonlinear_arith)
            requires
                0 <= j < 4,
                0 <= k,
        ;
        assert(enc[4 * k + j] == spec_header_byte(h, 4 * k + j));
    }
    assert(enc.subrange(4 * k, 4 * k + 4) =~= word_bytes);
    if 8 <= k && k < 19 {
        let i = k - 8;
        assert(h.reserved@[i] == le32_at(s, 32 + 4 * i));
        assert(4 * k == 32 + 4 * i);
    }
    assert(spec_header_word(h, k) == le32_at(s, 4 * k));
    assert(spec_u32_to_le_bytes(spec_u32_from_le_bytes(s.subrange(4 * k, 4 * k + 4)))
        == s.subrange(4 * k, 4 * k + 4));
}

/// Encoding is the exact inverse of decoding: a header that matches byte
/// sequence `s` encodes back to the first 148 bytes of `s`, bit for bit.
pub proof fn lemma_matches_encode_exact(h: DirectDrawHeader, s: Seq<u8>)
    requires
        s.len() >= HEADER_BYTES,
        header_matches_bytes(h, s),
    ensures
        spec_encode_header(h) == s.subrange(0, HEADER_BYTES as int),
{
    let enc = spec_encode_header(h);
    assert forall|i: int| 0 <= i < HEADER_BYTES implies enc[i] == s.subrange(
        0,
        HEADER_BYTES as int,
    )[i] by {
        let k = i / 4;
        assert(4 * k <= i < 4 * k + 4 && 0 <= k < HEADER_WORDS) by (nonlinear_arith)
            requires
                0 <= i < 148,
                k == i / 4,
        ;
        lemma_word_window(h, s, k);
        assert(enc[i] == enc.subrange(4 * k, 4 * k + 4)[i - 4 * k]);
        assert(s[i] == s.subrange(4 * k, 4 * k + 4)[i - 4 * k]);
    }
    assert(enc =~= s.subrange(0, HEADER_BYTES as int));
}

/// A 32-bit window wholly inside `a` reads the same out of `a + t`.
pub proof fn lemma_le32_at_prefix(a: Seq<u8>, t: Seq<u8>, off: int)
    requires
        0 <= off,
        off + 4 <= a.len(),
    ensures
        le32_at(a + t, off) == le32_at(a, off),
{
    assert((a + t).subrange(off, off + 4) =~= a.subrange(off, off + 4));
}

/// Appending a payload after an encoded header leaves every header field
/// readable unchanged.
pub proof fn lemma_matches_append(h: DirectDrawHeader, a: Seq<u8>, t: Seq<u8>)
    requires
        a.len() >= HEADER_BYTES,
        header_matches_bytes(h, a),
    ensures
        header_matches_bytes(h, a + t),
{
    lemma_le32_at_prefix(a, t, 0);
    lemma_le32_at_prefix(a, t, 4);
    lemma_le32_at_prefix(a, t, 8);
    lemma_le32_at_prefix(a, t, 12);
    lemma_le32_at_prefix(a, t, 16);
    lemma_le32_at_prefix(a, t, 20);
    lemma_le32_at_prefix(a, t, 24);
    lemma_le32_at_prefix(a, t, 28);
    assert forall|i: int| 0 <= i < 11 implies #[trigger] h.reserved@[i] == le32_at(
        a + t,
        32 + 4 * i,
    ) by {
        lemma_le32_at_prefix(a, t, 32 + 4 * i);
    }
    lemma_le32_at_prefix(a, t, 76);
    lemma_le32_at_prefix(a, t, 80);
    lemma_le32_at_prefix(a, t, 84);
    lemma_le32_at_prefix(a, t, 88);
    lemma_le32_at_prefix(a, t, 92);
    lemma_le32_at_prefix(a, t, 96);
    lemma_le32_at_prefix(a, t, 100);
    lemma_le32_at_prefix(a, t, 104);
    lemma_le32_at_prefix(a, t, 108);
    lemma_le32_at_prefix(a, t, 112);
    lemma_le32_at_prefix(a, t, 116);
    lemma_le32_at_prefix(a, t, 120);
    lemma_le32_at_prefix(a, t, 124);
    lemma_le32_at_prefix(a, t, 128);
    lemma_le32_at_prefix(a, t, 132);
    lemma_le32_at_prefix(a, t, 136);
    lemma_le32_at_prefix(a, t, 140);
    lemma_le32_at_prefix(a, t, 144);
}

/// Two headers that match the same byte sequence are the same header.
pub proof fn lemma_matches_unique(h1: DirectDrawHeader, h2: DirectDrawHeader, s: Seq<u8>)
    requires
        header_matches_bytes(h1, s),
        header_matches_bytes(h2, s),
    ensures
        h1 == h2,
{
    assert(h1.reserved@ =~= h2.reserved@);
    assert(h1.reserved == h2.reserved);
    assert(h1.pixel_format == h2.pixel_format);
    assert(h1.dxt10 == h2.dxt10);
}

/// The little-endian 32-bit word beginning at byte offset `off` of `s`.
fn read_le32(s: &[u8], off: usize) -> (r: u32)
    requires
        off + 4 <= s@.len(),
    ensures
        r == le32_at(s@, off as int),
{
    let n: usize = s.len();
    u32_from_le_bytes(slice_subrange(s, off, off + 4))
}

/// The header's `k`-th 32-bit word, in on-disk order.
fn header_word(h: &DirectDrawHeader, k: usize) -> (r: u32)
    requires
        k < HEADER_WORDS,
    ensures
        r == spec_header_word(*h, k as int),
{
    if k == 0 {
        h.magic
    } else if k == 1 {
        h.size
    } else if k == 2 {
        h.flags
    } else if k == 3 {
        h.height
    } else if k == 4 {
        h.width
    } else if k == 5 {
        h.pitch_or_linear_size
    } else if k == 6 {
        h.depth
    } else if k == 7 {
        h.mipmap_count
    } else if k < 19 {
        h.reserved[k - 8]
    } else if k == 19 {
        h.pixel_format.size
    } else if k == 20 {
        h.pixel_format.flags
    } else if k == 21 {
        h.pixel_format.four_cc
    } else if k == 22 {
        h.pixel_format.rgb_bit_count
    } else if k == 23 {
        h.pixel_format.red_bit_mask
    } else if k == 24 {
        h.pixel_format.green_bit_mask
    } else if k == 25 {
        h.pixel_format.blue_bit_mask
    } else if k == 26 {
        h.pixel_format.alpha_bit_mask
    } else if k == 27 {
        h.caps
    } else if k == 28 {
        h.caps2
    } else if k == 29 {
        h.caps3
    } else if k == 30 {
        h.caps4
    } else if k == 31 {
        h.reserved2
    } else if k == 32 {
        h.dxt10.dxgi_format
    } else if k == 33 {
        h.dxt10.resource_dimension
    } else if k == 34 {
        h.dxt10.misc_flag
    } else if k == 35 {
        h.dxt10.array_size
    } else {
        h.dxt10.misc_flags2
    }
}

/// Encodes a header as its exact 148-byte little-endian layout.
pub fn encode_header(h: &DirectDrawHeader) -> (out: Vec<u8>)
    ensures
        out@ == spec_encode_header(*h),
        out@.len() == HEADER_BYTES,
{
    let mut out: Vec<u8> = Vec::new();
    let mut k: usize = 0;
    while k < HEADER_WORDS
        invariant
            k <= HEADER_WORDS,
            out@.len() == 4 * k,
            forall|i: int| 0 <= i < 4 * k ==> out@[i] == spec_header_byte(*h, i),
        decreases HEADER_WORDS - k,
    {
        let w = header_word(h, k);
        let mut word_bytes = u32_to_le_bytes(w);
        let ghost prefix = out@;
        out.append(&mut word_bytes);
        proof {
            assert forall|i: int| 0 <= i < 4 * (k + 1) implies out@[i] == spec_header_byte(
                *h,
                i,
            ) by {
                if i >= 4 * k {
                    assert(i / 4 == k && i % 4 == i - 4 * k) by (nonlinear_arith)
                        requires
                            4 * k <= i < 4 * k + 4,
                            0 <= k,
                    ;
                    assert(out@[i] == spec_u32_to_le_bytes(spec_header_word(*h, k as int))[i - 4
                        * k]);
                }
            }
        }
        k += 1;
    }
    proof {
        assert(out@ =~= spec_encode_header(*h));
    }
    out
}

/// Decodes the first 148 bytes of `s` as a header.  A pure
/// reinterpretation: every field is read from its fixed offset and no
/// byte is transformed beyond endianness normalization.
pub fn decode_header(s: &[u8]) -> (h: DirectDrawHeader)
    requires
        s@.len() >= HEADER_BYTES,
    ensures
        header_matches_bytes(h, s@),
{
    let reserved: [u32; 11] = [
        read_le32(s, 32),
        read_le32(s, 36),
        read_le32(s, 40),
        read_le32(s, 44),
        read_le32(s, 48),
        read_le32(s, 52),
        read_le32(s, 56),
        read_le32(s, 60),
        read_le32(s, 64),
        read_le32(s, 68),
        read_le32(s, 72),
    ];
    let h = DirectDrawHeader {
        magic: read_le32(s, 0),
        size: read_le32(s, 4),
        flags: read_le32(s, 8),
        height: read_le32(s, 12),
        width: read_le32(s, 16),
        pitch_or_linear_size: read_le32(s, 20),
        depth: read_le32(s, 24),
        mipmap_count: read_le32(s, 28),
        reserved,
        pixel_format: DirectDrawPixelFormat {
            size: read_le32(s, 76),
            flags: read_le32(s, 80),
            four_cc: read_le32(s, 84),
            rgb_bit_count: read_le32(s, 88),
            red_bit_mask: read_le32(s, 92),
            green_bit_mask: read_le32(s, 96),
            blue_bit_mask: read_le32(s, 100),
            alpha_bit_mask: read_le32(s, 104),
        },
        caps: read_le32(s, 108),
        caps2: read_le32(s, 112),
        caps3: read_le32(s, 116),
        caps4: read_le32(s, 120),
        reserved2: read_le32(s, 124),
        dxt10: DirectDrawHeader10 {
            dxgi_format: read_le32(s, 128),
            resource_dimension: read_le32(s, 132),
            misc_flag: read_le32(s, 136),
            array_size: read_le32(s, 140),
            misc_flags2: read_le32(s, 144),
        },
    };
    h
}

} // verus!
