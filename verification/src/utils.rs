//! Option-value parsing for the conversion tool: texture formats and
//! mipmap filters, matched case-insensitively over ASCII.

use vstd::prelude::*;

verus! {

/// The texture formats the conversion tool can encode to.
#[derive(Clone, Copy, Debug, PartialEq, Eq, Structural)]
pub enum ValidFormat {
    Bc1,
    Bc3,
    Bgra8,
}

/// The filters available for mipmap generation.
#[derive(Clone, Copy, Debug, PartialEq, Eq, Structural)]
pub enum MipmapFilter {
    /// Nearest neighbour: fastest, lowest quality.
    Nearest,
    /// Triangle, also called bilinear.
    Triangle,
    /// Catmull-Rom, a bicubic filter.
    CatmullRom,
    /// Lanczos with a window of three: slowest, highest quality.
    Lanczos3,
}

/// The character code of `c` with an ASCII capital letter folded to
/// its small counterpart; every other character is left as it is.
pub open spec fn lower_char_val(c: char) -> int {
    if 65 <= c as int && c as int <= 90 {
        c as int + 32
    } else {
        c as int
    }
}

/// Character-wise ASCII-case-insensitive equality of two strings.
pub open spec fn matches_ignore_ascii_case(s: Seq<char>, t: Seq<char>) -> bool {
    s.len() == t.len() && forall|i: int|
        0 <= i < s.len() ==> lower_char_val(#[trigger] s[i]) == lower_char_val(t[i])
}

/// Compares two strings character by character, folding ASCII
/// capital letters; no other characters are folded.
pub fn eq_ignore_ascii_case(s: &str, t: &str) -> (r: bool)
    ensures
        r == matches_ignore_ascii_case(s@, t@),
{
    let sn = s.unicode_len();
    let tn = t.unicode_len();
    if sn != tn {
        return false;
    }
    let mut i: usize = 0;
    while i < sn
        invariant
            i <= sn,
            sn == s@.len(),
            sn == t@.len(),
            forall|j: int| 0 <= j < i ==> lower_char_val(#[trigger] s@[j]) == lower_char_val(t@[j]),
        decreases sn - i,
    {
        let a = s.get_char(i) as u32;
        let b = t.get_char(i) as u32;
        let la = if 65 <= a && a <= 90 {
            a + 32
        } else {
            a
        };
        let lb = if 65 <= b && b <= 90 {
            b + 32
        } else {
            b
        };
        if la != lb {
            return false;
        }
        i = i + 1;
    }
    true
}

/// Parses a texture format name, ignoring ASCII case: `bc1`, `bc3`
/// or `bgra8`.  Anything else is rejected with a message naming the
/// input and the accepted options.
pub fn parse_format(s: &str) -> (r: Result<ValidFormat, String>)
    ensures
        matches_ignore_ascii_case(s@, "bc1"@) ==> r == Ok::<ValidFormat, String>(ValidFormat::Bc1),
        matches_ignore_ascii_case(s@, "bc3"@) ==> r == Ok::<ValidFormat, String>(ValidFormat::Bc3),
        matches_ignore_ascii_case(s@, "bgra8"@) ==> r == Ok::<ValidFormat, String>(
            ValidFormat::Bgra8,
        ),
        !matches_ignore_ascii_case(s@, "bc1"@) && !matches_ignore_ascii_case(s@, "bc3"@)
            && !matches_ignore_ascii_case(s@, "bgra8"@) ==> r is Err && r.unwrap_err()@
            == "Invalid format: "@ + s@
            + ". Valid options: bc1, bc3, bgra8 (ETC1 and ETC2 are not supported)"@,
{
    proof {
        reveal_strlit("bc1");
        reveal_strlit("bc3");
        reveal_strlit("bgra8");
        assert(!(matches_ignore_ascii_case(s@, "bc1"@) && matches_ignore_ascii_case(
            s@,
            "bc3"@,
        ))) by {
            if matches_ignore_ascii_case(s@, "bc1"@) && matches_ignore_ascii_case(s@, "bc3"@) {
                assert(lower_char_val(s@[2]) == lower_char_val("bc1"@[2]));
                assert(lower_char_val(s@[2]) == lower_char_val("bc3"@[2]));
            }
        }
    }
    if eq_ignore_ascii_case(s, "bc1") {
        Ok(ValidFormat::Bc1)
    } else if eq_ignore_ascii_case(s, "bc3") {
        Ok(ValidFormat::Bc3)
    } else if eq_ignore_ascii_case(s, "bgra8") {
        Ok(ValidFormat::Bgra8)
    } else {
        Err(
            String::from_str("Invalid format: ").concat(s).concat(
                ". Valid options: bc1, bc3, bgra8 (ETC1 and ETC2 are not supported)",
            ),
        )
    }
}

/// Parses a mipmap filter name, ignoring ASCII case: `nearest`,
/// `triangle`, `catmullrom` or `lanczos3`.  Anything else is rejected
/// with a message naming the input and the accepted options.
pub fn parse_mipmap_filter(s: &str) -> (r: Result<MipmapFilter, String>)
    ensures
        matches_ignore_ascii_case(s@, "nearest"@) ==> r == Ok::<MipmapFilter, String>(
            MipmapFilter::Nearest,
        ),
        matches_ignore_ascii_case(s@, "triangle"@) ==> r == Ok::<MipmapFilter, String>(
            MipmapFilter::Triangle,
        ),
        matches_ignore_ascii_case(s@, "catmullrom"@) ==> r == Ok::<MipmapFilter, String>(
            MipmapFilter::CatmullRom,
        ),
        matches_ignore_ascii_case(s@, "lanczos3"@) ==> r == Ok::<MipmapFilter, String>(
            MipmapFilter::Lanczos3,
        ),
        !matches_ignore_ascii_case(s@, "nearest"@) && !matches_ignore_ascii_case(s@, "triangle"@)
            && !matches_ignore_ascii_case(s@, "catmullrom"@) && !matches_ignore_ascii_case(
            s@,
            "lanczos3"@,
        ) ==> r is Err && r.unwrap_err()@ == "Invalid mipmap filter: "@ + s@
            + ". Valid options: nearest, triangle, catmullrom, lanczos3"@,
{
    proof {
        reveal_strlit("nearest");
        reveal_strlit("triangle");
        reveal_strlit("catmullrom");
        reveal_strlit("lanczos3");
        assert(!(matches_ignore_ascii_case(s@, "triangle"@) && matches_ignore_ascii_case(
            s@,
            "lanczos3"@,
        ))) by {
            if matches_ignore_ascii_case(s@, "triangle"@) && matches_ignore_ascii_case(
                s@,
                "lanczos3"@,
            ) {
                assert(lower_char_val(s@[0]) == lower_char_val("triangle"@[0]));
                assert(lower_char_val(s@[0]) == lower_char_val("lanczos3"@[0]));
            }
        }
    }
    if eq_ignore_ascii_case(s, "nearest") {
        Ok(MipmapFilter::Nearest)
    } else if eq_ignore_ascii_case(s, "triangle") {
        Ok(MipmapFilter::Triangle)
    } else if eq_ignore_ascii_case(s, "catmullrom") {
        Ok(MipmapFilter::CatmullRom)
    } else if eq_ignore_ascii_case(s, "lanczos3") {
        Ok(MipmapFilter::Lanczos3)
    } else {
        Err(
            String::from_str("Invalid mipmap filter: ").concat(s).concat(
                ". Valid options: nearest, triangle, catmullrom, lanczos3",
            ),
        )
    }
}

} // verus!
