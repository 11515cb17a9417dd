//! The pixel pipeline: decoding a texture byte stream into an RGBA
//! buffer, box-fit resizing with nearest-neighbour sampling, and
//! materializing the host-native blue-green-red-alpha bitmap.
//!
//! All sizing arithmetic is integer arithmetic; the resize rounds the
//! short edge half-up and samples source pixels by truncating division.

use vstd::arithmetic::div_mod::{
    lemma_div_by_multiple, lemma_div_is_ordered, lemma_div_multiples_vanish_fancy,
    lemma_fundamental_div_mod, lemma_mod_division_less_than_divisor, lemma_mod_multiples_vanish,
    lemma_multiply_divide_lt, lemma_small_mod,
};
use vstd::arithmetic::mul::lemma_mul_inequality;
use vstd::prelude::*;

use league_toolkit::texture::tex::{EncodeFormat, EncodeOptions, MipmapFilter};
use league_toolkit::texture::Tex;

verus! {

/// A decoded texture: tightly packed 4-byte red-green-blue-alpha
/// pixels in row-major order, top row first.
pub struct DecodedImage {
    pub width: u32,
    pub height: u32,
    pub rgba: Vec<u8>,
}

impl DecodedImage {
    /// A decoded image always has positive dimensions and exactly
    /// four bytes per pixel.
    pub open spec fn wf(&self) -> bool {
        &&& self.width > 0
        &&& self.height > 0
        &&& self.rgba@.len() == 4 * self.width * self.height
    }
}

/// Rounds `a / b` half-up, in integers: `(a + b/2) / b`.
pub open spec fn round_div(a: int, b: int) -> int {
    (a + b / 2) / b
}

/// Width of the box-fit resize of a `w` by `h` image to bounding edge `cx`:
/// the long edge becomes `cx`, the short edge is scaled and rounded.
pub open spec fn scaled_width(w: int, h: int, cx: int) -> int {
    if w >= h {
        cx
    } else {
        round_div(w * cx, h)
    }
}

/// Height of the box-fit resize of a `w` by `h` image to bounding edge `cx`.
pub open spec fn scaled_height(w: int, h: int, cx: int) -> int {
    if w >= h {
        round_div(h * cx, w)
    } else {
        cx
    }
}

/// The source coordinate sampled for destination coordinate `d`, with
/// source dimension `s` and destination dimension `dim`:
/// `d * s / dim`, clamped to the valid range `0 ..= s - 1`.
pub open spec fn sample_coord(d: int, s: int, dim: int) -> int {
    let t = d * s / dim;
    if t > s - 1 {
        s - 1
    } else {
        t
    }
}

/// The byte sequence of the box-fit resize of `src` (a `w` by `h`
/// RGBA image) to bounding edge `cx`: destination pixel `(x, y)` is a
/// copy of source pixel `(sample_coord(x, w, dw), sample_coord(y, h, dh))`.
pub open spec fn scale_spec(src: Seq<u8>, w: int, h: int, cx: int) -> Seq<u8> {
    let dw = scaled_width(w, h, cx);
    let dh = scaled_height(w, h, cx);
    Seq::new(
        (4 * dw * dh) as nat,
        |i: int|
            {
                let p = i / 4;
                let c = i % 4;
                let y = p / dw;
                let x = p % dw;
                src[4 * (sample_coord(y, h, dh) * w + sample_coord(x, w, dw)) + c]
            },
    )
}

/// Index arithmetic for a row-major pixel layout: the byte index
/// `4 * (y * dw + x) + c` decomposes back into `y`, `x` and `c`.
proof fn lemma_pixel_index(dw: int, x: int, y: int, c: int)
    requires
        0 <= x < dw,
        0 <= y,
        0 <= c < 4,
    ensures
        (4 * (y * dw + x) + c) / 4 == y * dw + x,
        (4 * (y * dw + x) + c) % 4 == c,
        (y * dw + x) / dw == y,
        (y * dw + x) % dw == x,
{
    lemma_div_multiples_vanish_fancy(y * dw + x, c, 4);
    lemma_mod_multiples_vanish(y * dw + x, c, 4);
    lemma_small_mod(c as nat, 4);
    assert(y * dw + x == dw * y + x) by (nonlinear_arith);
    lemma_div_multiples_vanish_fancy(y, x, dw);
    lemma_mod_multiples_vanish(y, x, dw);
    lemma_small_mod(x as nat, dw as nat);
}

/// The scaled dimensions never exceed the bounding edge.
proof fn lemma_scaled_dims_bounded(w: int, h: int, cx: int)
    requires
        0 < w,
        0 < h,
        0 <= cx,
    ensures
        0 <= scaled_width(w, h, cx) <= cx,
        0 <= scaled_height(w, h, cx) <= cx,
{
    if w >= h {
        assert(h * cx <= w * cx) by {
            lemma_mul_inequality(h, w, cx);
        }
        lemma_div_is_ordered(0, h * cx + w / 2, w);
        lemma_div_is_ordered(h * cx + w / 2, w * cx + w / 2, w);
        assert((w * cx + w / 2) / w == cx) by {
            lemma_div_multiples_vanish_fancy(cx, w / 2, w);
        }
    } else {
        assert(w * cx <= h * cx) by {
            lemma_mul_inequality(w, h, cx);
        }
        lemma_div_is_ordered(0, w * cx + h / 2, h);
        lemma_div_is_ordered(w * cx + h / 2, h * cx + h / 2, h);
        assert((h * cx + h / 2) / h == cx) by {
            lemma_div_multiples_vanish_fancy(cx, h / 2, h);
        }
    }
}

/// Box-fit resize with nearest-neighbour sampling, exactly as
/// `scale_spec` describes: the long edge of the result is `cx`, the
/// short edge is rounded half-up, and every destination pixel is a
/// copy of one source pixel.
#[verifier::loop_isolation(false)]
pub fn scale_image(src: &Vec<u8>, src_w: u32, src_h: u32, cx: u32) -> (r: (Vec<u8>, u32, u32))
    requires
        src@.len() == 4 * src_w * src_h,
        src_w > 0,
        src_h > 0,
    ensures
        r.1 == scaled_width(src_w as int, src_h as int, cx as int),
        r.2 == scaled_height(src_w as int, src_h as int, cx as int),
        r.0@ == scale_spec(src@, src_w as int, src_h as int, cx as int),
{
    proof {
        lemma_scaled_dims_bounded(src_w as int, src_h as int, cx as int);
    }
    let src_len = src.len();
    let w64 = src_w as u64;
    let h64 = src_h as u64;
    let cx64 = cx as u64;
    proof {
        assert(h64 * cx64 + w64 / 2 <= u64::MAX && w64 * cx64 + h64 / 2 <= u64::MAX)
            by (nonlinear_arith)
            requires
                h64 <= u32::MAX,
                cx64 <= u32::MAX,
                w64 <= u32::MAX,
        ;
    }
    let (dst_w, dst_h): (u32, u32) = if src_w >= src_h {
        ((cx, ((h64 * cx64 + w64 / 2) / w64) as u32))
    } else {
        ((((w64 * cx64 + h64 / 2) / h64) as u32, cx))
    };
    assert(dst_w == scaled_width(src_w as int, src_h as int, cx as int));
    assert(dst_h == scaled_height(src_w as int, src_h as int, cx as int));
    let ghost target = scale_spec(src@, src_w as int, src_h as int, cx as int);
    let dw64 = dst_w as u64;
    let dh64 = dst_h as u64;
    let mut out: Vec<u8> = Vec::new();
    let mut y: u32 = 0;
    while y < dst_h
        invariant
            y <= dst_h,
            out@.len() == 4 * ((y as int) * (dst_w as int)),
            forall|i: int| 0 <= i < out@.len() ==> out@[i] == target[i],
        decreases dst_h - y,
    {
        proof {
            assert((y as u64) * h64 <= u64::MAX) by (nonlinear_arith)
                requires
                    y <= u32::MAX,
                    h64 <= u32::MAX,
            ;
        }
        let t = (y as u64) * h64 / dh64;
        let sy: u32 = if t > (src_h - 1) as u64 {
            src_h - 1
        } else {
            t as u32
        };
        assert(sy == sample_coord(y as int, src_h as int, dst_h as int));
        let mut x: u32 = 0;
        while x < dst_w
            invariant
                x <= dst_w,
                y < dst_h,
                sy < src_h,
                sy == sample_coord(y as int, src_h as int, dst_h as int),
                out@.len() == 4 * ((y as int) * (dst_w as int) + (x as int)),
                forall|i: int| 0 <= i < out@.len() ==> out@[i] == target[i],
            decreases dst_w - x,
        {
            proof {
                assert((x as u64) * w64 <= u64::MAX) by (nonlinear_arith)
                    requires
                        x <= u32::MAX,
                        w64 <= u32::MAX,
                ;
            }
            let t2 = (x as u64) * w64 / dw64;
            let sx: u32 = if t2 > (src_w - 1) as u64 {
                src_w - 1
            } else {
                t2 as u32
            };
            assert(sx == sample_coord(x as int, src_w as int, dst_w as int));
            proof {
                assert((sy as u64) * w64 + (sx as u64) <= u64::MAX) by (nonlinear_arith)
                    requires
                        sy <= u32::MAX,
                        sx <= u32::MAX,
                        w64 <= u32::MAX,
                ;
                assert(4 * ((sy as int) * (src_w as int) + (sx as int)) + 3 < 4 * (src_w as int)
                    * (src_h as int)) by (nonlinear_arith)
                    requires
                        sy < src_h,
                        sx < src_w,
                ;
            }
            let p64 = (sy as u64) * w64 + (sx as u64);
            assert(p64 == (sy as int) * (src_w as int) + (sx as int));
            assert(4 * p64 + 3 < src_len);
            let si = (4 * p64) as usize;
            assert(si == 4 * ((sy as int) * (src_w as int) + (sx as int)));
            let ghost base = 4 * ((y as int) * (dst_w as int) + (x as int));
            proof {
                assert forall|i: int| base <= i < base + 4 implies #[trigger] target[i] == src@[
                    si + (i - base)] by {
                    lemma_pixel_index(dst_w as int, x as int, y as int, i - base);
                    assert(i < target.len()) by (nonlinear_arith)
                        requires
                            base <= i < base + 4,
                            x < dst_w,
                            y < dst_h,
                            base == 4 * ((y as int) * (dst_w as int) + (x as int)),
                            target.len() == 4 * (dst_w as int) * (dst_h as int),
                    ;
                }
            }
            out.push(src[si]);
            out.push(src[si + 1]);
            out.push(src[si + 2]);
            out.push(src[si + 3]);
            x = x + 1;
        }
        proof {
            assert((y as int + 1) * (dst_w as int) == (y as int) * (dst_w as int) + (dst_w as int))
                by (nonlinear_arith);
        }
        y = y + 1;
    }
    proof {
        assert(out@.len() == target.len()) by (nonlinear_arith)
            requires
                out@.len() == 4 * ((dst_h as int) * (dst_w as int)),
                target.len() == 4 * (dst_w as int) * (dst_h as int),
        ;
        assert(out@ =~= target);
    }
    ((out, dst_w, dst_h))
}

/// A host-native bitmap surface: top-down rows of 32-bit
/// blue-green-red-alpha pixels, with straight (non-premultiplied) alpha.
#[derive(Debug, PartialEq, Eq)]
pub struct Bitmap {
    pub width: u32,
    pub height: u32,
    pub data: Vec<u8>,
}

impl Bitmap {
    /// A bitmap holds exactly four bytes per pixel.
    pub open spec fn wf(&self) -> bool {
        self.data@.len() == 4 * self.width * self.height
    }
}

/// The blue-green-red-alpha reordering of a red-green-blue-alpha byte
/// sequence: the first and third channel of every pixel change places,
/// the second and fourth are untouched.  No alpha premultiplication.
pub open spec fn bgra_of(s: Seq<u8>) -> Seq<u8> {
    Seq::new(
        s.len(),
        |i: int|
            if i % 4 == 0 {
                s[i + 2]
            } else if i % 4 == 2 {
                s[i - 2]
            } else {
                s[i]
            },
    )
}

/// Builds the host-native surface for an RGBA buffer: same dimensions,
/// every pixel channel-swapped to BGRA, alpha bytes copied unchanged.
#[verifier::loop_isolation(false)]
pub fn materialize_bitmap(rgba: &Vec<u8>, width: u32, height: u32) -> (r: Bitmap)
    requires
        rgba@.len() == 4 * width * height,
    ensures
        r.width == width,
        r.height == height,
        r.data@ == bgra_of(rgba@),
{
    let n = rgba.len();
    proof {
        let wh = (width as int) * (height as int);
        assert(n == 4 * wh) by (nonlinear_arith)
            requires
                n == 4 * (width as int) * (height as int),
                wh == (width as int) * (height as int),
        ;
        lemma_mod_multiples_vanish(wh, 0, 4);
        lemma_small_mod(0, 4);
    }
    let mut data: Vec<u8> = Vec::new();
    let mut i: usize = 0;
    while i < n
        invariant
            i <= n,
            i % 4 == 0,
            data@.len() == i,
            forall|k: int| 0 <= k < i ==> data@[k] == bgra_of(rgba@)[k],
        decreases n - i,
    {
        assert(i + 4 <= n);
        data.push(rgba[i + 2]);
        data.push(rgba[i + 1]);
        data.push(rgba[i]);
        data.push(rgba[i + 3]);
        i = i + 4;
    }
    proof {
        assert(data@ =~= bgra_of(rgba@));
    }
    Bitmap { width, height, data }
}

/// What the texture decoder returns for a given byte stream and
/// mipmap level: `None` when the stream is not a decodable texture,
/// otherwise the RGBA bytes, width and height of that surface.  The
/// decoder is a pure function of its arguments, so the result has a
/// name that contracts can share; nothing else is assumed about it.
pub uninterp spec fn tex_decode_mip(bytes: Seq<u8>, level: u32) -> Option<(Seq<u8>, u32, u32)>;

/// What the texture decoder returns for the full-resolution surface
/// of a byte stream.
pub open spec fn tex_decode(bytes: Seq<u8>) -> Option<(Seq<u8>, u32, u32)> {
    tex_decode_mip(bytes, 0)
}

/// Decodes one mipmap of a texture byte stream to RGBA pixels.
///
/// Relies on league_toolkit's texture pipeline: `Tex::from_reader`,
/// `Tex::decode_mipmap`, and `TexSurface::into_rgba_image`.  The
/// result depends on the bytes and the level alone.  On success the
/// dimensions are positive (the decoder floors mip dimensions at one)
/// and the buffer is tightly packed at four bytes per pixel, which is
/// how the decoder's conversion to an RGBA image lays it out.
#[verifier::external_body]
pub(crate) fn decode_tex_mipmap(bytes: &Vec<u8>, level: u32) -> (r: Result<DecodedImage, ()>)
    ensures
        match r {
            Ok(img) => {
                &&& tex_decode_mip(bytes@, level) == Some((img.rgba@, img.width, img.height))
                &&& img.wf()
            },
            Err(()) => tex_decode_mip(bytes@, level) is None,
        },
{
    let mut reader: &[u8] = bytes.as_slice();
    let tex = league_toolkit::texture::Tex::from_reader(&mut reader).map_err(|_| ())?;
    let surface = tex.decode_mipmap(level).map_err(|_| ())?;
    let img = surface.into_rgba_image().map_err(|_| ())?;
    let (width, height) = (img.width(), img.height());
    Ok(DecodedImage { width, height, rgba: img.into_raw() })
}

/// Decodes the full-resolution surface of a texture byte stream.
pub fn decode_tex_file(bytes: &Vec<u8>) -> (r: Result<DecodedImage, ()>)
    ensures
        match r {
            Ok(img) => {
                &&& tex_decode(bytes@) == Some((img.rgba@, img.width, img.height))
                &&& img.wf()
            },
            Err(()) => tex_decode(bytes@) is None,
        },
{
    decode_tex_mipmap(bytes, 0)
}

/// What the DirectDraw-surface decoder returns for a given byte
/// stream: `None` when the stream is not a decodable surface,
/// otherwise the RGBA bytes, width and height of its full-resolution
/// surface.  The decoder is a pure function of the bytes.
pub uninterp spec fn dds_decode(bytes: Seq<u8>) -> Option<(Seq<u8>, u32, u32)>;

/// True when the stream carries a DirectDraw-surface header whose
/// mipmap-count flag is set with a count of zero.  Such a header
/// makes the decoder's level clamp subtract below zero, so callers
/// reject it first.  After the four magic bytes the header holds
/// size, flags, height, width, pitch and depth, so the flags word is
/// at bytes 8 to 11 (the count flag is its bit 17) and the count at
/// bytes 28 to 31, both little-endian.
pub open spec fn dds_declares_zero_mips(b: Seq<u8>) -> bool {
    &&& b.len() >= 32
    &&& b[10] & 0x02 != 0
    &&& b[28] == 0
    &&& b[29] == 0
    &&& b[30] == 0
    &&& b[31] == 0
}

/// Checks a stream for the zero-mipmap-count header that
/// `dds_declares_zero_mips` describes.
pub fn dds_zero_mip_guard(bytes: &Vec<u8>) -> (r: bool)
    ensures
        r == dds_declares_zero_mips(bytes@),
{
    bytes.len() >= 32 && bytes[10] & 0x02 != 0 && bytes[28] == 0 && bytes[29] == 0 && bytes[30]
        == 0 && bytes[31] == 0
}

/// Decodes the full-resolution surface of a DirectDraw surface file.
///
/// Relies on league_toolkit's DDS pipeline: `Dds::from_reader`,
/// `Dds::decode_mipmap` at level zero, and the conversion of the
/// decoded surface to an RGBA image, which emits a tightly packed
/// buffer of four bytes per pixel.  A header that declares zero
/// mipmap levels is excluded: on such a stream the decoder's level
/// clamp would subtract below zero.
#[verifier::external_body]
pub(crate) fn decode_dds_file(bytes: &Vec<u8>) -> (r: Result<DecodedImage, ()>)
    requires
        !dds_declares_zero_mips(bytes@),
    ensures
        match r {
            Ok(img) => {
                &&& dds_decode(bytes@) == Some((img.rgba@, img.width, img.height))
                &&& img.rgba@.len() == 4 * img.width * img.height
            },
            Err(()) => dds_decode(bytes@) is None,
        },
{
    let mut reader: &[u8] = bytes.as_slice();
    let dds = league_toolkit::texture::Dds::from_reader(&mut reader).map_err(|_| ())?;
    let surface = dds.decode_mipmap(0).map_err(|_| ())?;
    let img = surface.into_image().map_err(|_| ())?;
    let (width, height) = (img.width(), img.height());
    Ok(DecodedImage { width, height, rgba: img.into_raw() })
}

/// Box-fit resize to the image's own long edge is the identity: the
/// dimensions are unchanged and every destination pixel is a copy of
/// the source pixel at the same position.
pub proof fn lemma_box_fit_identity(src: Seq<u8>, w: int, h: int, cx: int)
    requires
        0 < w,
        0 < h,
        src.len() == 4 * w * h,
        cx == if w >= h {
            w
        } else {
            h
        },
    ensures
        scaled_width(w, h, cx) == w,
        scaled_height(w, h, cx) == h,
        scale_spec(src, w, h, cx) == src,
{
    if w >= h {
        assert(h * cx + w / 2 == w * h + w / 2) by (nonlinear_arith)
            requires
                cx == w,
        ;
        assert((w * h + w / 2) / w == h) by {
            lemma_div_multiples_vanish_fancy(h, w / 2, w);
        }
    } else {
        assert(w * cx + h / 2 == h * w + h / 2) by (nonlinear_arith)
            requires
                cx == h,
        ;
        assert((h * w + h / 2) / h == w) by {
            lemma_div_multiples_vanish_fancy(w, h / 2, h);
        }
    }
    let dst = scale_spec(src, w, h, cx);
    assert(dst.len() == src.len()) by (nonlinear_arith)
        requires
            dst.len() == 4 * w * h,
            src.len() == 4 * w * h,
    ;
    assert forall|i: int| 0 <= i < dst.len() implies #[trigger] dst[i] == src[i] by {
        let p = i / 4;
        let c = i % 4;
        lemma_mod_division_less_than_divisor(i, 4);
        lemma_fundamental_div_mod(i, 4);
        assert(p < w * h) by {
            assert(i < 4 * (w * h)) by (nonlinear_arith)
                requires
                    i < 4 * w * h,
            ;
            lemma_multiply_divide_lt(i, 4, w * h);
        }
        let y = p / w;
        let x = p % w;
        lemma_mod_division_less_than_divisor(p, w);
        lemma_fundamental_div_mod(p, w);
        assert(y < h) by {
            assert(p < w * h) by (nonlinear_arith)
                requires
                    p < w * h,
            ;
            lemma_multiply_divide_lt(p, w, h);
        }
        assert(sample_coord(y, h, h) == y) by {
            lemma_div_by_multiple(y, h);
            assert(y * h == h * y) by (nonlinear_arith);
            lemma_div_multiples_vanish_fancy(y, 0, h);
        }
        assert(sample_coord(x, w, w) == x) by {
            assert(x * w == w * x) by (nonlinear_arith);
            lemma_div_multiples_vanish_fancy(x, 0, w);
        }
        assert(4 * (y * w + x) + c == i) by (nonlinear_arith)
            requires
                p == w * y + x,
                i == 4 * p + c,
        ;
    }
    assert(dst =~= src);
}

/// A stable code for each encodable format, used to index the named
/// encoder result.
pub open spec fn format_code(f: crate::utils::ValidFormat) -> int {
    match f {
        crate::utils::ValidFormat::Bc1 => 0,
        crate::utils::ValidFormat::Bc3 => 1,
        crate::utils::ValidFormat::Bgra8 => 2,
    }
}

/// A stable code for each mipmap filter, used to index the named
/// encoder result.
pub open spec fn filter_code(f: crate::utils::MipmapFilter) -> int {
    match f {
        crate::utils::MipmapFilter::Nearest => 0,
        crate::utils::MipmapFilter::Triangle => 1,
        crate::utils::MipmapFilter::CatmullRom => 2,
        crate::utils::MipmapFilter::Lanczos3 => 3,
    }
}

/// What the texture encoder returns for an RGBA image, a format code
/// and a filter code: `None` when the image cannot be encoded (a zero
/// dimension), otherwise the bytes of the texture container.  The
/// encoders behind the three supported formats are deterministic, so
/// the result is a function of the arguments alone.
pub uninterp spec fn tex_encode(
    rgba: Seq<u8>,
    width: u32,
    height: u32,
    fmt: int,
    mipmaps: bool,
    filt: int,
) -> Option<Seq<u8>>;

/// Encodes an RGBA image as a texture container.
///
/// Relies on league_toolkit's `Tex::encode_rgba_image` and
/// `Tex::write`: the image is encoded to the requested format, with a
/// mip chain when asked for, and written with its header to an
/// in-memory byte buffer.  The format and filter come in as the codes
/// of `format_code` and `filter_code`.
#[verifier::external_body]
fn encode_tex_bytes(
    rgba: &Vec<u8>,
    width: u32,
    height: u32,
    fmt: u8,
    generate_mipmaps: bool,
    filt: u8,
) -> (r: Result<Vec<u8>, ()>)
    requires
        rgba@.len() == 4 * width * height,
        fmt < 3,
        filt < 4,
    ensures
        match r {
            Ok(out) => tex_encode(rgba@, width, height, fmt as int, generate_mipmaps, filt as int)
                == Some(out@),
            Err(()) => tex_encode(rgba@, width, height, fmt as int, generate_mipmaps, filt as int)
                is None,
        },
{
    let img = image::RgbaImage::from_raw(width, height, rgba.clone()).ok_or(())?;
    let format = match fmt {
        0 => EncodeFormat::Bc1 { weigh_colour_by_alpha: false },
        1 => EncodeFormat::Bc3 { weigh_colour_by_alpha: false },
        _ => EncodeFormat::Bgra8,
    };
    let mipmap_filter = match filt {
        0 => MipmapFilter::Nearest, 1 => MipmapFilter::Triangle,
        2 => MipmapFilter::CatmullRom, _ => MipmapFilter::Lanczos3,
    };
    let opts = EncodeOptions { format, generate_mipmaps, mipmap_filter };
    let tex = Tex::encode_rgba_image(&img, opts).map_err(|_| ())?;
    let mut out = Vec::new();
    tex.write(&mut out).map_err(|_| ())?;
    Ok(out)
}

/// Encodes an RGBA image as a texture container, in memory.
pub fn encode_texture(
    rgba: &Vec<u8>,
    width: u32,
    height: u32,
    format: crate::utils::ValidFormat,
    generate_mipmaps: bool,
    mipmap_filter: crate::utils::MipmapFilter,
) -> (r: Result<Vec<u8>, ()>)
    requires
        rgba@.len() == 4 * width * height,
    ensures
        match r {
            Ok(out) => tex_encode(
                rgba@,
                width,
                height,
                format_code(format),
                generate_mipmaps,
                filter_code(mipmap_filter),
            ) == Some(out@),
            Err(()) => tex_encode(
                rgba@,
                width,
                height,
                format_code(format),
                generate_mipmaps,
                filter_code(mipmap_filter),
            ) is None,
        },
{
    let fmt: u8 = match format {
        crate::utils::ValidFormat::Bc1 => 0,
        crate::utils::ValidFormat::Bc3 => 1,
        crate::utils::ValidFormat::Bgra8 => 2,
    };
    let filt: u8 = match mipmap_filter {
        crate::utils::MipmapFilter::Nearest => 0,
        crate::utils::MipmapFilter::Triangle => 1,
        crate::utils::MipmapFilter::CatmullRom => 2,
        crate::utils::MipmapFilter::Lanczos3 => 3,
    };
    encode_tex_bytes(rgba, width, height, fmt, generate_mipmaps, filt)
}

} // verus!
