//! The fixed-size headers of the two texture containers.  A League
//! extended texture starts with a four-byte magic, little-endian
//! width and height, depth, a format byte, a resource type byte and
//! a flags byte; a DirectDraw surface starts with its own magic and
//! a 124-byte header whose display metadata sits at fixed offsets.
//! The metadata verb reads these bytes; the pixel payloads stay with
//! the decoders.

use vstd::prelude::*;

verus! {

/// The storage formats a texture header can name.
#[derive(Clone, Copy, Debug, PartialEq, Eq, Structural)]
pub enum TexFormat {
    Etc1,
    Etc2Eac,
    Bc1,
    Bc3,
    Bc7,
    Bc5Snorm,
    Bgra8,
    Rgba16Float,
    Rgba32Float,
}

/// The GPU resource type stored in a texture header.
#[derive(Clone, Copy, Debug, PartialEq, Eq, Structural)]
pub enum TexResourceType {
    /// A regular two-dimensional texture.
    Texture,
    /// Six two-dimensional faces.
    Cubemap,
    /// A bare two-dimensional image.
    Surface,
    /// A three-dimensional texture of `depth` z-slices per mip level.
    VolumeTexture,
}

/// Why a byte stream has no readable texture header.
#[derive(Clone, Copy, Debug, PartialEq, Eq, Structural)]
pub enum TexHeaderError {
    /// Fewer bytes than the fixed-size header.
    TooShort,
    /// The stream does not start with the texture magic.
    BadMagic,
    /// The format byte names no known format.
    UnknownFormat,
    /// The resource type byte names no known resource type.
    UnknownResourceType,
    /// The flags byte has bits outside the defined set.
    InvalidFlags,
}

/// The parsed header metadata.
#[derive(Clone, Copy, Debug, PartialEq, Eq, Structural)]
pub struct TexHeader {
    pub width: u16,
    pub height: u16,
    pub depth: u8,
    pub format: TexFormat,
    pub resource_type: TexResourceType,
    pub has_mipmaps: bool,
    pub mip_count: u32,
}

/// The format a format byte names, with the two legacy alternative
/// codes folded onto their formats.
pub open spec fn spec_format_of(b: u8) -> Option<TexFormat> {
    if b == 1 {
        Some(TexFormat::Etc1)
    } else if b == 2 || b == 3 {
        Some(TexFormat::Etc2Eac)
    } else if b == 10 || b == 11 {
        Some(TexFormat::Bc1)
    } else if b == 12 {
        Some(TexFormat::Bc3)
    } else if b == 13 {
        Some(TexFormat::Bc7)
    } else if b == 14 {
        Some(TexFormat::Bc5Snorm)
    } else if b == 20 {
        Some(TexFormat::Bgra8)
    } else if b == 21 {
        Some(TexFormat::Rgba16Float)
    } else if b == 22 {
        Some(TexFormat::Rgba32Float)
    } else {
        None
    }
}

/// The resource type a resource byte names.
pub open spec fn spec_resource_of(b: u8) -> Option<TexResourceType> {
    if b == 0 {
        Some(TexResourceType::Texture)
    } else if b == 1 {
        Some(TexResourceType::Cubemap)
    } else if b == 2 {
        Some(TexResourceType::Surface)
    } else if b == 3 {
        Some(TexResourceType::VolumeTexture)
    } else {
        None
    }
}

/// The floor of the base-two logarithm, with `floor_log2(n) == 0` for
/// `n <= 1`.
pub open spec fn floor_log2(n: int) -> int
    decreases n,
{
    if n <= 1 {
        0
    } else {
        1 + floor_log2(n / 2)
    }
}

proof fn lemma_floor_log2_nonneg(n: int)
    ensures
        floor_log2(n) >= 0,
    decreases n,
{
    if n > 1 {
        lemma_floor_log2_nonneg(n / 2);
    }
}

proof fn lemma_floor_log2_monotone(a: int, b: int)
    requires
        a <= b,
    ensures
        floor_log2(a) <= floor_log2(b),
    decreases b,
{
    if a <= 1 {
        lemma_floor_log2_nonneg(b);
    } else {
        lemma_floor_log2_monotone(a / 2, b / 2);
    }
}

/// The mip count the header implies: one when the mipmap flag is off,
/// else one more than the floor logarithm of the largest dimension.
pub open spec fn spec_mip_count(width: u16, height: u16, depth: u8, flags: u8) -> int {
    if flags & 1 == 1 {
        let m1 = if height >= width {
            height as int
        } else {
            width as int
        };
        let m2 = if m1 >= depth as int {
            m1
        } else {
            depth as int
        };
        let m3 = if m2 >= 1 {
            m2
        } else {
            1
        };
        floor_log2(m3) + 1
    } else {
        1
    }
}

/// What the twelve header bytes of a texture stream say, or why they
/// say nothing: too few bytes, a wrong magic, an unknown format or
/// resource type byte, or undefined flag bits, checked in that order.
pub open spec fn spec_parse_tex_header(b: Seq<u8>) -> Result<TexHeader, TexHeaderError> {
    if b.len() < 4 {
        Err(TexHeaderError::TooShort)
    } else if !(b[0] == 0x54 && b[1] == 0x45 && b[2] == 0x58 && b[3] == 0x00) {
        Err(TexHeaderError::BadMagic)
    } else if b.len() < 12 {
        Err(TexHeaderError::TooShort)
    } else if spec_format_of(b[9]) is None {
        Err(TexHeaderError::UnknownFormat)
    } else if spec_resource_of(b[10]) is None {
        Err(TexHeaderError::UnknownResourceType)
    } else if b[11] & 0xfc != 0 {
        Err(TexHeaderError::InvalidFlags)
    } else {
        Ok(
            TexHeader {
                width: (b[4] + 256 * b[5]) as u16,
                height: (b[6] + 256 * b[7]) as u16,
                depth: b[8],
                format: spec_format_of(b[9]).unwrap(),
                resource_type: spec_resource_of(b[10]).unwrap(),
                has_mipmaps: b[11] & 1 == 1,
                mip_count: spec_mip_count(
                    (b[4] + 256 * b[5]) as u16,
                    (b[6] + 256 * b[7]) as u16,
                    b[8],
                    b[11],
                ) as u32,
            },
        )
    }
}

/// Computes the floor of the base-two logarithm by halving.
fn floor_log2_exec(n: u16) -> (r: u32)
    ensures
        r == floor_log2(n as int),
        r <= 15,
{
    proof {
        lemma_floor_log2_monotone(n as int, 0xffff);
        reveal_with_fuel(floor_log2, 18);
        assert(floor_log2(0xffff) == 15);
    }
    let mut v: u16 = n;
    let mut r: u32 = 0;
    while v > 1
        invariant
            floor_log2(n as int) == r + floor_log2(v as int),
            r + floor_log2(v as int) <= 15,
        decreases v,
    {
        proof {
            lemma_floor_log2_nonneg(v as int / 2);
        }
        v = v / 2;
        r = r + 1;
    }
    r
}

/// Reads the texture header from the front of a byte stream, exactly
/// as `spec_parse_tex_header` says.
pub fn parse_tex_header(bytes: &Vec<u8>) -> (r: Result<TexHeader, TexHeaderError>)
    ensures
        r == spec_parse_tex_header(bytes@),
{
    if bytes.len() < 4 {
        return Err(TexHeaderError::TooShort);
    }
    if !(bytes[0] == 0x54 && bytes[1] == 0x45 && bytes[2] == 0x58 && bytes[3] == 0x00) {
        return Err(TexHeaderError::BadMagic);
    }
    if bytes.len() < 12 {
        return Err(TexHeaderError::TooShort);
    }
    let format = match format_of_exec(bytes[9]) {
        Some(f) => f,
        None => {
            return Err(TexHeaderError::UnknownFormat);
        },
    };
    let resource_type = match resource_of_exec(bytes[10]) {
        Some(t) => t,
        None => {
            return Err(TexHeaderError::UnknownResourceType);
        },
    };
    let flags = bytes[11];
    if flags & 0xfc != 0 {
        return Err(TexHeaderError::InvalidFlags);
    }
    let width: u16 = bytes[4] as u16 + 256 * (bytes[5] as u16);
    let height: u16 = bytes[6] as u16 + 256 * (bytes[7] as u16);
    let depth: u8 = bytes[8];
    let has_mipmaps = flags & 1 == 1;
    let mip_count: u32 = if has_mipmaps {
        let m1: u16 = if height >= width {
            height
        } else {
            width
        };
        let m2: u16 = if m1 >= depth as u16 {
            m1
        } else {
            depth as u16
        };
        let m3: u16 = if m2 >= 1 {
            m2
        } else {
            1
        };
        floor_log2_exec(m3) + 1
    } else {
        1
    };
    Ok(TexHeader { width, height, depth, format, resource_type, has_mipmaps, mip_count })
}

/// The executable counterpart of `spec_format_of`.
fn format_of_exec(b: u8) -> (r: Option<TexFormat>)
    ensures
        r == spec_format_of(b),
{
    if b == 1 {
        Some(TexFormat::Etc1)
    } else if b == 2 || b == 3 {
        Some(TexFormat::Etc2Eac)
    } else if b == 10 || b == 11 {
        Some(TexFormat::Bc1)
    } else if b == 12 {
        Some(TexFormat::Bc3)
    } else if b == 13 {
        Some(TexFormat::Bc7)
    } else if b == 14 {
        Some(TexFormat::Bc5Snorm)
    } else if b == 20 {
        Some(TexFormat::Bgra8)
    } else if b == 21 {
        Some(TexFormat::Rgba16Float)
    } else if b == 22 {
        Some(TexFormat::Rgba32Float)
    } else {
        None
    }
}

/// The executable counterpart of `spec_resource_of`.
fn resource_of_exec(b: u8) -> (r: Option<TexResourceType>)
    ensures
        r == spec_resource_of(b),
{
    if b == 0 {
        Some(TexResourceType::Texture)
    } else if b == 1 {
        Some(TexResourceType::Cubemap)
    } else if b == 2 {
        Some(TexResourceType::Surface)
    } else if b == 3 {
        Some(TexResourceType::VolumeTexture)
    } else {
        None
    }
}

/// The display metadata of a DirectDraw surface header.
#[derive(Clone, Copy, Debug, PartialEq, Eq, Structural)]
pub struct DdsHeader {
    pub width: u32,
    pub height: u32,
    pub mip_count: u32,
}

/// Why a byte stream has no readable DirectDraw surface header.
#[derive(Clone, Copy, Debug, PartialEq, Eq, Structural)]
pub enum DdsHeaderError {
    /// Fewer bytes than the magic and the fixed-size header.
    TooShort,
    /// The stream does not start with the surface magic.
    BadMagic,
    /// The header size field does not hold the fixed size of 124.
    BadHeaderSize,
    /// The pixel format size field does not hold the fixed size of 32.
    BadPixelFormatSize,
}

/// The little-endian 32-bit value stored at byte offset `i`.
pub open spec fn spec_u32_le(b: Seq<u8>, i: int) -> int {
    b[i] + 0x100 * b[i + 1] + 0x10000 * b[i + 2] + 0x1000000 * b[i + 3]
}

/// What the header of a DirectDraw surface stream says, or why it
/// says nothing, validated as the surface reader validates it: the
/// magic, then the header size field (always 124, at bytes 4 to 7),
/// then the pixel format size field (always 32, at bytes 76 to 79).
/// Height and width sit at bytes 12 to 19.  The stored mipmap count
/// (bytes 28 to 31) is meaningful only when bit 17 of the flags word
/// (bytes 8 to 11) is set; otherwise the surface has one level.
pub open spec fn spec_parse_dds_header(b: Seq<u8>) -> Result<DdsHeader, DdsHeaderError> {
    if b.len() < 4 {
        Err(DdsHeaderError::TooShort)
    } else if !(b[0] == 0x44 && b[1] == 0x44 && b[2] == 0x53 && b[3] == 0x20) {
        Err(DdsHeaderError::BadMagic)
    } else if b.len() < 128 {
        Err(DdsHeaderError::TooShort)
    } else if spec_u32_le(b, 4) != 124 {
        Err(DdsHeaderError::BadHeaderSize)
    } else if spec_u32_le(b, 76) != 32 {
        Err(DdsHeaderError::BadPixelFormatSize)
    } else {
        Ok(
            DdsHeader {
                width: spec_u32_le(b, 16) as u32,
                height: spec_u32_le(b, 12) as u32,
                mip_count: if b[10] & 0x02 != 0 {
                    spec_u32_le(b, 28) as u32
                } else {
                    1
                },
            },
        )
    }
}

/// Reads the little-endian 32-bit value at byte offset `i`.
fn read_u32_le(bytes: &Vec<u8>, i: usize) -> (r: u32)
    requires
        i + 4 <= bytes@.len(),
    ensures
        r == spec_u32_le(bytes@, i as int),
{
    let n = bytes.len();
    assert(i + 4 <= n);
    bytes[i] as u32 + 0x100 * (bytes[i + 1] as u32) + 0x10000 * (bytes[i + 2] as u32) + 0x1000000
        * (bytes[i + 3] as u32)
}

/// Reads the display metadata from the front of a DirectDraw surface
/// stream, exactly as `spec_parse_dds_header` says.
pub fn parse_dds_header(bytes: &Vec<u8>) -> (r: Result<DdsHeader, DdsHeaderError>)
    ensures
        r == spec_parse_dds_header(bytes@),
{
    if bytes.len() < 4 {
        return Err(DdsHeaderError::TooShort);
    }
    if !(bytes[0] == 0x44 && bytes[1] == 0x44 && bytes[2] == 0x53 && bytes[3] == 0x20) {
        return Err(DdsHeaderError::BadMagic);
    }
    if bytes.len() < 128 {
        return Err(DdsHeaderError::TooShort);
    }
    if read_u32_le(bytes, 4) != 124 {
        return Err(DdsHeaderError::BadHeaderSize);
    }
    if read_u32_le(bytes, 76) != 32 {
        return Err(DdsHeaderError::BadPixelFormatSize);
    }
    let width = read_u32_le(bytes, 16);
    let height = read_u32_le(bytes, 12);
    let mip_count: u32 = if bytes[10] & 0x02 != 0 {
        read_u32_le(bytes, 28)
    } else {
        1
    };
    Ok(DdsHeader { width, height, mip_count })
}

} // verus!
