//! Encoding and decoding texture containers, the header reader, and
//! the end-to-end thumbnail path.

use ltk_tex::{
    decode_tex_file, decode_texture_file, encode_texture, parse_dds_header, parse_tex_header,
    AlphaMode, CTexThumbProvider, DdsHeaderError, MipmapFilter, ModuleRefs, TexFormat,
    TexHeaderError, TexResourceType, TextureKind, ValidFormat,
};

fn patterned_rgba(width: u32, height: u32) -> Vec<u8> {
    let mut rgba = Vec::new();
    for y in 0..height {
        for x in 0..width {
            rgba.extend_from_slice(&[(x * 7) as u8, (y * 13) as u8, (x ^ y) as u8, 255]);
        }
    }
    rgba
}

#[test]
fn uncompressed_encode_then_decode_round_trips() {
    let rgba = patterned_rgba(4, 4);
    let bytes = encode_texture(&rgba, 4, 4, ValidFormat::Bgra8, false, MipmapFilter::Triangle)
        .expect("encoding succeeds");
    // The container is not the raw pixels: it carries a header.
    assert_ne!(bytes, rgba);
    let img = decode_tex_file(&bytes).expect("decoding what was just encoded");
    assert_eq!((img.width, img.height), (4, 4));
    assert_eq!(img.rgba, rgba);
}

fn push_u32(out: &mut Vec<u8>, v: u32) {
    out.extend_from_slice(&v.to_le_bytes());
}

/// A minimal uncompressed 2x2 DirectDraw surface: classic header,
/// 32-bit pixels with the byte order blue-green-red-alpha.
fn small_dds(pixels_bgra: &[u8]) -> Vec<u8> {
    let mut out = Vec::new();
    out.extend_from_slice(b"DDS ");
    push_u32(&mut out, 124); // header size
    push_u32(&mut out, 0x1007); // caps | height | width | pixelformat
    push_u32(&mut out, 2); // height
    push_u32(&mut out, 2); // width
    push_u32(&mut out, 0); // pitch
    push_u32(&mut out, 0); // depth
    push_u32(&mut out, 0); // mipmap count
    for _ in 0..11 {
        push_u32(&mut out, 0); // reserved
    }
    push_u32(&mut out, 32); // pixel format size
    push_u32(&mut out, 0x41); // alpha pixels | rgb
    push_u32(&mut out, 0); // fourcc
    push_u32(&mut out, 32); // bits per pixel
    push_u32(&mut out, 0x00ff_0000); // red mask
    push_u32(&mut out, 0x0000_ff00); // green mask
    push_u32(&mut out, 0x0000_00ff); // blue mask
    push_u32(&mut out, 0xff00_0000); // alpha mask
    push_u32(&mut out, 0x1000); // caps: texture
    push_u32(&mut out, 0); // caps2
    push_u32(&mut out, 0); // caps3
    push_u32(&mut out, 0); // caps4
    push_u32(&mut out, 0); // reserved
    out.extend_from_slice(pixels_bgra);
    out
}

#[test]
fn dds_decode_reorders_the_stored_channels() {
    let bgra = vec![
        3, 2, 1, 4, 7, 6, 5, 8, // top row
        11, 10, 9, 12, 15, 14, 13, 16, // bottom row
    ];
    let bytes = small_dds(&bgra);
    let img = decode_texture_file(TextureKind::Dds, &bytes, 0).expect("a plain surface decodes");
    assert_eq!((img.width, img.height), (2, 2));
    assert_eq!(
        img.rgba,
        vec![1, 2, 3, 4, 5, 6, 7, 8, 9, 10, 11, 12, 13, 14, 15, 16]
    );
}

#[test]
fn dds_with_a_declared_mip_count_decodes() {
    // The same surface with the mipmap-count flag set and a count of
    // one, as ordinary mipmapped files declare it.
    let bgra = vec![
        3, 2, 1, 4, 7, 6, 5, 8, // top row
        11, 10, 9, 12, 15, 14, 13, 16, // bottom row
    ];
    let mut bytes = small_dds(&bgra);
    let flags = u32::from_le_bytes([bytes[8], bytes[9], bytes[10], bytes[11]]) | 0x20000;
    bytes[8..12].copy_from_slice(&flags.to_le_bytes());
    bytes[28..32].copy_from_slice(&1u32.to_le_bytes());
    let img = decode_texture_file(TextureKind::Dds, &bytes, 0)
        .expect("a surface with a declared mip count decodes");
    assert_eq!((img.width, img.height), (2, 2));
    assert_eq!(
        img.rgba,
        vec![1, 2, 3, 4, 5, 6, 7, 8, 9, 10, 11, 12, 13, 14, 15, 16]
    );
}

#[test]
fn dds_header_reports_the_display_metadata() {
    let plain = small_dds(&[0u8; 16]);
    let header = parse_dds_header(&plain).unwrap();
    assert_eq!((header.width, header.height), (2, 2));
    // Without the count flag the surface has one level.
    assert_eq!(header.mip_count, 1);

    let mut with_mips = small_dds(&[0u8; 16]);
    let flags = u32::from_le_bytes([with_mips[8], with_mips[9], with_mips[10], with_mips[11]])
        | 0x20000;
    with_mips[8..12].copy_from_slice(&flags.to_le_bytes());
    with_mips[28..32].copy_from_slice(&2u32.to_le_bytes());
    let header = parse_dds_header(&with_mips).unwrap();
    assert_eq!(header.mip_count, 2);
}

#[test]
fn dds_header_rejects_each_malformed_header() {
    assert_eq!(parse_dds_header(&vec![b'D', b'D']), Err(DdsHeaderError::TooShort));
    let mut wrong_magic = small_dds(&[]);
    wrong_magic[0] = b'X';
    assert_eq!(parse_dds_header(&wrong_magic), Err(DdsHeaderError::BadMagic));
    let truncated = small_dds(&[])[..100].to_vec();
    assert_eq!(parse_dds_header(&truncated), Err(DdsHeaderError::TooShort));
    let mut bad_size = small_dds(&[]);
    bad_size[4..8].copy_from_slice(&100u32.to_le_bytes());
    assert_eq!(parse_dds_header(&bad_size), Err(DdsHeaderError::BadHeaderSize));
    let mut bad_spf = small_dds(&[]);
    bad_spf[76..80].copy_from_slice(&8u32.to_le_bytes());
    assert_eq!(parse_dds_header(&bad_spf), Err(DdsHeaderError::BadPixelFormatSize));
}

#[test]
fn dds_with_a_zero_mip_count_is_rejected() {
    // Same surface, but the mipmap-count flag set with a count of
    // zero: the decoder cannot clamp a level against zero levels.
    let bgra = vec![0u8; 16];
    let mut bytes = small_dds(&bgra);
    let flags = u32::from_le_bytes([bytes[8], bytes[9], bytes[10], bytes[11]]) | 0x20000;
    bytes[8..12].copy_from_slice(&flags.to_le_bytes());
    assert!(decode_texture_file(TextureKind::Dds, &bytes, 0).is_err());
}

#[test]
fn decode_of_garbage_fails() {
    assert!(decode_tex_file(&vec![0, 1, 2, 3, 4, 5, 6, 7]).is_err());
    assert!(decode_texture_file(TextureKind::Tex, &vec![b'T', b'E'], 0).is_err());
    assert!(decode_texture_file(TextureKind::Dds, &vec![1, 2, 3], 0).is_err());
}

#[test]
fn mipmap_levels_halve_the_dimensions() {
    let rgba = vec![200u8; (8 * 8 * 4) as usize];
    let bytes = encode_texture(&rgba, 8, 8, ValidFormat::Bgra8, true, MipmapFilter::Nearest)
        .expect("encoding with mipmaps succeeds");
    let full = decode_texture_file(TextureKind::Tex, &bytes, 0).unwrap();
    assert_eq!((full.width, full.height), (8, 8));
    let half = decode_texture_file(TextureKind::Tex, &bytes, 1).unwrap();
    assert_eq!((half.width, half.height), (4, 4));
    let quarter = decode_texture_file(TextureKind::Tex, &bytes, 2).unwrap();
    assert_eq!((quarter.width, quarter.height), (2, 2));
    // A solid image stays solid at every level.
    assert!(quarter.rgba.chunks(4).all(|p| p == [200, 200, 200, 200]));
}

#[test]
fn block_compressed_encode_decodes_to_the_same_solid_colour() {
    // A solid colour that is exact in the compressed palette space.
    let rgba = vec![255, 0, 0, 255].repeat(8 * 8);
    let bytes = encode_texture(&rgba, 8, 8, ValidFormat::Bc1, false, MipmapFilter::Triangle)
        .expect("block-compressed encoding succeeds");
    let img = decode_tex_file(&bytes).unwrap();
    assert_eq!((img.width, img.height), (8, 8));
    assert!(img.rgba.chunks(4).all(|p| p == [255, 0, 0, 255]));
}

#[test]
fn header_reader_reports_the_encoded_metadata() {
    let rgba = patterned_rgba(8, 4);
    let bytes = encode_texture(&rgba, 8, 4, ValidFormat::Bgra8, true, MipmapFilter::Triangle)
        .expect("encoding succeeds");
    let header = parse_tex_header(&bytes).expect("the encoder writes a readable header");
    assert_eq!(header.width, 8);
    assert_eq!(header.height, 4);
    assert_eq!(header.depth, 1);
    assert_eq!(header.format, TexFormat::Bgra8);
    assert_eq!(header.resource_type, TexResourceType::Texture);
    assert!(header.has_mipmaps);
    // 8x4 with mipmaps: 8x4, 4x2, 2x1, 1x1.
    assert_eq!(header.mip_count, 4);
}

#[test]
fn header_reader_reads_the_fixed_fields() {
    // Handwritten header: magic, 260x2, depth 1, BC3, texture, no mips.
    let bytes = vec![0x54, 0x45, 0x58, 0x00, 4, 1, 2, 0, 1, 12, 0, 0];
    let header = parse_tex_header(&bytes).unwrap();
    assert_eq!(header.width, 260);
    assert_eq!(header.height, 2);
    assert_eq!(header.format, TexFormat::Bc3);
    assert!(!header.has_mipmaps);
    assert_eq!(header.mip_count, 1);
}

#[test]
fn header_reader_rejects_each_malformed_header() {
    assert_eq!(parse_tex_header(&vec![0x54, 0x45]), Err(TexHeaderError::TooShort));
    assert_eq!(
        parse_tex_header(&vec![1, 2, 3, 4, 0, 0, 0, 0, 0, 0, 0, 0]),
        Err(TexHeaderError::BadMagic)
    );
    assert_eq!(
        parse_tex_header(&vec![0x54, 0x45, 0x58, 0x00, 1, 0, 1, 0]),
        Err(TexHeaderError::TooShort)
    );
    assert_eq!(
        parse_tex_header(&vec![0x54, 0x45, 0x58, 0x00, 1, 0, 1, 0, 1, 99, 0, 0]),
        Err(TexHeaderError::UnknownFormat)
    );
    assert_eq!(
        parse_tex_header(&vec![0x54, 0x45, 0x58, 0x00, 1, 0, 1, 0, 1, 20, 9, 0]),
        Err(TexHeaderError::UnknownResourceType)
    );
    assert_eq!(
        parse_tex_header(&vec![0x54, 0x45, 0x58, 0x00, 1, 0, 1, 0, 1, 20, 0, 8]),
        Err(TexHeaderError::InvalidFlags)
    );
}

#[test]
fn end_to_end_landscape_thumbnail() {
    // A valid small encoded image, landscape 256x128, rendered with a
    // bounding edge of 64: the bitmap is 64x32, top-down BGRA, with
    // straight alpha.
    let rgba = vec![10, 20, 30, 255].repeat(256 * 128);
    let bytes = encode_texture(&rgba, 256, 128, ValidFormat::Bgra8, false, MipmapFilter::Triangle)
        .expect("encoding succeeds");

    let mut module = ModuleRefs::new();
    let mut provider = CTexThumbProvider::new(&mut module);
    provider.bind(Some(bytes)).expect("first bind succeeds");
    let (bitmap, alpha) = provider.render(64).expect("rendering succeeds");

    assert_eq!((bitmap.width, bitmap.height), (64, 32));
    assert_eq!(alpha, AlphaMode::Straight);
    assert_eq!(bitmap.data.len(), 64 * 32 * 4);
    // Every pixel is the channel-swapped source pixel.
    assert!(bitmap.data.chunks(4).all(|p| p == [30, 20, 10, 255]));
}
