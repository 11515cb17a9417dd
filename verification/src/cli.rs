//! Routing logic of the conversion tool: the options of its three
//! verbs, input/output resolution, and the single-argument
//! convenience mode that infers decode-versus-encode from the input
//! path's extension.
//!
//! Paths are handled as plain strings.  Both `/` and `\` separate
//! components; the extension is what follows the last `.` of the
//! final component, unless that dot starts the component.  Special
//! components such as `..` are not treated specially.

use crate::image_processing::{
    dds_declares_zero_mips, dds_decode, dds_zero_mip_guard, decode_dds_file, decode_tex_mipmap,
    tex_decode_mip, DecodedImage,
};
use crate::utils::{eq_ignore_ascii_case, matches_ignore_ascii_case, MipmapFilter, ValidFormat};
use vstd::prelude::*;

verus! {

/// Options of the verb that prints texture metadata.
pub struct InfoCommandOptions {
    pub input: String,
}

/// Options of the verb that decodes a texture container to a common
/// image file.
pub struct DecodeCommandOptions {
    pub input: String,
    pub output: String,
    pub mipmap: u32,
}

/// Options of the verb that encodes a common image file to a texture
/// container.
pub struct EncodeCommandOptions {
    pub input: String,
    pub output: String,
    pub format: ValidFormat,
    pub generate_mipmaps: bool,
    pub mipmap_filter: MipmapFilter,
}

/// True for the two path separators.
pub open spec fn is_sep(c: char) -> bool {
    c == '/' || c == '\\'
}

/// The index where the final path component starts: one past the
/// last separator, or zero when there is none.
pub open spec fn file_name_start(s: Seq<char>) -> int
    decreases s.len(),
{
    if s.len() == 0 {
        0
    } else if is_sep(s[s.len() - 1]) {
        s.len() as int
    } else {
        file_name_start(s.drop_last())
    }
}

/// The index of the dot that starts the extension: the last `.` of
/// the final component, unless it is the component's first character.
pub open spec fn ext_dot(s: Seq<char>) -> Option<int>
    decreases s.len(),
{
    if s.len() == 0 {
        None
    } else if is_sep(s[s.len() - 1]) {
        None
    } else if s[s.len() - 1] == '.' && s.len() - 1 > file_name_start(s) {
        Some(s.len() - 1)
    } else {
        ext_dot(s.drop_last())
    }
}

/// The final component never starts before the string does nor after
/// it ends.
pub proof fn lemma_file_name_start_range(s: Seq<char>)
    ensures
        0 <= file_name_start(s) <= s.len(),
    decreases s.len(),
{
    if s.len() > 0 && !is_sep(s[s.len() - 1]) {
        lemma_file_name_start_range(s.drop_last());
    }
}

/// The extension dot, when there is one, lies inside the final
/// component: after its start and before the end of the string.
pub proof fn lemma_ext_dot_range(s: Seq<char>)
    ensures
        ext_dot(s) is Some ==> file_name_start(s) < ext_dot(s).unwrap() < s.len(),
    decreases s.len(),
{
    if s.len() == 0 || is_sep(s[s.len() - 1]) {
    } else if s[s.len() - 1] == '.' && s.len() - 1 > file_name_start(s) {
    } else {
        lemma_ext_dot_range(s.drop_last());
        assert(file_name_start(s) == file_name_start(s.drop_last()));
    }
}

/// Computes `file_name_start` by scanning backward for a separator.
pub fn file_name_start_exec(s: &str) -> (r: usize)
    ensures
        r == file_name_start(s@),
{
    let n = s.unicode_len();
    proof {
        assert(s@.subrange(0, n as int) =~= s@);
    }
    let mut i: usize = n;
    while i > 0
        invariant
            i <= n,
            n == s@.len(),
            file_name_start(s@) == file_name_start(s@.subrange(0, i as int)),
        decreases i,
    {
        let c = s.get_char(i - 1);
        if c == '/' || c == '\\' {
            return i;
        }
        proof {
            assert(s@.subrange(0, i as int).drop_last() =~= s@.subrange(0, i as int - 1));
        }
        i = i - 1;
    }
    0
}

/// Computes `ext_dot` by scanning the final component backward for a
/// dot.
pub fn ext_dot_exec(s: &str) -> (r: Option<usize>)
    ensures
        match r {
            Some(i) => ext_dot(s@) == Some(i as int),
            None => ext_dot(s@) is None,
        },
{
    let n = s.unicode_len();
    let start = file_name_start_exec(s);
    proof {
        assert(s@.subrange(0, n as int) =~= s@);
    }
    let mut i: usize = n;
    while i > 0
        invariant
            i <= n,
            n == s@.len(),
            ext_dot(s@) == ext_dot(s@.subrange(0, i as int)),
            file_name_start(s@) == file_name_start(s@.subrange(0, i as int)),
            start == file_name_start(s@),
        decreases i,
    {
        let c = s.get_char(i - 1);
        if c == '/' || c == '\\' {
            return None;
        }
        if c == '.' && i - 1 > start {
            return Some(i - 1);
        }
        proof {
            assert(s@.subrange(0, i as int).drop_last() =~= s@.subrange(0, i as int - 1));
        }
        i = i - 1;
    }
    None
}

/// The path with its extension replaced by `e` (or `.e` appended when
/// it has none).
pub open spec fn with_ext_spec(s: Seq<char>, e: Seq<char>) -> Seq<char> {
    (match ext_dot(s) {
        Some(i) => s.subrange(0, i),
        None => s,
    }) + seq!['.'] + e
}

/// Replaces the extension of a path string: everything from the
/// extension dot on is dropped, then a dot and `ext` are appended.
pub fn with_extension(s: &str, ext: &str) -> (r: String)
    ensures
        r@ == with_ext_spec(s@, ext@),
{
    let n = s.unicode_len();
    let cut: usize = match ext_dot_exec(s) {
        Some(i) => {
            proof {
                lemma_ext_dot_range(s@);
            }
            i
        },
        None => n,
    };
    let base = s.substring_char(0, cut);
    proof {
        assert(s@.subrange(0, n as int) =~= s@);
        reveal_strlit(".");
        assert("."@ =~= seq!['.']);
    }
    String::from_str(base).concat(".").concat(ext)
}

/// The stem of the final component: the component without its
/// extension and without the dot.
pub open spec fn output_stem(s: Seq<char>) -> Seq<char> {
    s.subrange(
        file_name_start(s),
        match ext_dot(s) {
            Some(i) => i,
            None => s.len() as int,
        },
    )
}

/// True when the extension of `s` equals `t`, ignoring ASCII case.
pub open spec fn ext_matches(s: Seq<char>, t: Seq<char>) -> bool {
    match ext_dot(s) {
        Some(i) => matches_ignore_ascii_case(s.subrange(i + 1, s.len() as int), t),
        None => false,
    }
}

/// Compares the extension of a path with `t`, ignoring ASCII case; a
/// path without an extension matches nothing.
pub fn extension_matches(s: &str, t: &str) -> (r: bool)
    ensures
        r == ext_matches(s@, t@),
{
    let n = s.unicode_len();
    match ext_dot_exec(s) {
        None => false,
        Some(i) => {
            proof {
                lemma_ext_dot_range(s@);
            }
            let ext = s.substring_char(i + 1, n);
            eq_ignore_ascii_case(ext, t)
        },
    }
}

/// Picks the input path from the flag and the positional argument:
/// exactly one of the two must be present.
pub fn resolve_input(flag: Option<String>, positional: Option<String>) -> (r: Result<
    String,
    String,
>)
    ensures
        flag is Some && positional is None ==> r is Ok && r.unwrap() == flag.unwrap(),
        flag is None && positional is Some ==> r is Ok && r.unwrap() == positional.unwrap(),
        flag is None && positional is None ==> r is Err && r.unwrap_err()@
            == "missing input; pass -i/--input or provide INPUT positionally"@,
        flag is Some && positional is Some ==> r is Err && r.unwrap_err()@
            == "provide input either via -i/--input or positionally, not both"@,
{
    match (flag, positional) {
        (Some(v), None) => Ok(v),
        (None, Some(v)) => Ok(v),
        (None, None) => Err(
            String::from_str("missing input; pass -i/--input or provide INPUT positionally"),
        ),
        (Some(_), Some(_)) => Err(
            String::from_str("provide input either via -i/--input or positionally, not both"),
        ),
    }
}

/// Picks the output path: the explicit one when given, else the input
/// path with its extension swapped for `default_ext`, written beside
/// the input.  An input whose final component has an empty stem gives
/// no output path to derive.
pub fn resolve_output(output: Option<String>, input: &str, default_ext: &str) -> (r: Result<
    String,
    String,
>)
    ensures
        output is Some ==> r is Ok && r.unwrap() == output.unwrap(),
        output is None && output_stem(input@).len() == 0 ==> r is Err && r.unwrap_err()@
            == "failed to derive output path from INPUT"@,
        output is None && output_stem(input@).len() > 0 ==> r is Ok && r.unwrap()@ == with_ext_spec(
            input@,
            default_ext@,
        ),
{
    match output {
        Some(o) => Ok(o),
        None => {
            let n = input.unicode_len();
            let start = file_name_start_exec(input);
            let cut: usize = match ext_dot_exec(input) {
                Some(i) => {
                    proof {
                        lemma_ext_dot_range(input@);
                    }
                    i
                },
                None => {
                    proof {
                        lemma_file_name_start_range(input@);
                    }
                    n
                },
            };
            if start == cut {
                Err(String::from_str("failed to derive output path from INPUT"))
            } else {
                Ok(with_extension(input, default_ext))
            }
        },
    }
}

/// What the single-argument convenience invocation decides to do.
pub enum AutoModePlan {
    /// Not a single-path invocation: hand the arguments to the normal
    /// command-line parser.
    Continue,
    /// The path names a file kind the convenience mode refuses.
    Reject { message: String },
    /// Decode the texture to an image written beside it.
    Decode { options: DecodeCommandOptions },
    /// Encode the image to a texture written beside it.
    Encode { options: EncodeCommandOptions },
}

/// True when the argument looks like a flag rather than a path.
pub open spec fn flag_like(s: Seq<char>) -> bool {
    s.len() > 0 && (s[0] == '-' || s[0] == '/')
}

/// Decides the single-argument convenience mode from the raw
/// arguments (program name included) and whether the candidate path
/// names an existing file.
///
/// The mode engages only for exactly one argument that does not look
/// like a flag and that names an existing file.  A `.dds` input is
/// refused; a `.tex` input is decoded to a `.png` beside it; any
/// other input is encoded to a `.tex` beside it with the default
/// format, mipmaps on, and the highest-quality filter.  Extensions
/// compare ignoring ASCII case.
pub fn auto_mode_plan(args: &Vec<String>, input_exists: bool) -> (r: AutoModePlan)
    ensures
        args@.len() != 2 ==> r is Continue,
        args@.len() == 2 && flag_like(args@[1]@) ==> r is Continue,
        args@.len() == 2 && !flag_like(args@[1]@) && !input_exists ==> r is Continue,
        args@.len() == 2 && !flag_like(args@[1]@) && input_exists && ext_matches(
            args@[1]@,
            "dds"@,
        ) ==> (r matches AutoModePlan::Reject { message } && message@
            == ".dds files are not supported for decoding"@),
        args@.len() == 2 && !flag_like(args@[1]@) && input_exists && ext_matches(
            args@[1]@,
            "tex"@,
        ) ==> (r matches AutoModePlan::Decode { options } && {
            &&& options.input@ == args@[1]@
            &&& options.output@ == with_ext_spec(args@[1]@, "png"@)
            &&& options.mipmap == 0
        }),
        args@.len() == 2 && !flag_like(args@[1]@) && input_exists && !ext_matches(
            args@[1]@,
            "dds"@,
        ) && !ext_matches(args@[1]@, "tex"@) ==> (r matches AutoModePlan::Encode { options } && {
            &&& options.input@ == args@[1]@
            &&& options.output@ == with_ext_spec(args@[1]@, "tex"@)
            &&& options.format == ValidFormat::Bc3
            &&& options.generate_mipmaps
            &&& options.mipmap_filter == MipmapFilter::Lanczos3
        }),
{
    if args.len() != 2 {
        return AutoModePlan::Continue;
    }
    let first = &args[1];
    let fs = first.as_str();
    let n = fs.unicode_len();
    if n > 0 {
        let c = fs.get_char(0);
        if c == '-' || c == '/' {
            return AutoModePlan::Continue;
        }
    }
    if !input_exists {
        return AutoModePlan::Continue;
    }
    proof {
        reveal_strlit("dds");
        reveal_strlit("tex");
        assert(!(ext_matches(fs@, "dds"@) && ext_matches(fs@, "tex"@))) by {
            if ext_matches(fs@, "dds"@) && ext_matches(fs@, "tex"@) {
                let i = ext_dot(fs@).unwrap();
                let e = fs@.subrange(i + 1, fs@.len() as int);
                assert(crate::utils::lower_char_val(e[0]) == crate::utils::lower_char_val(
                    "dds"@[0],
                ));
                assert(crate::utils::lower_char_val(e[0]) == crate::utils::lower_char_val(
                    "tex"@[0],
                ));
            }
        }
    }
    if extension_matches(fs, "dds") {
        AutoModePlan::Reject {
            message: String::from_str(".dds files are not supported for decoding"),
        }
    } else if extension_matches(fs, "tex") {
        let output = with_extension(fs, "png");
        AutoModePlan::Decode {
            options: DecodeCommandOptions { input: first.clone(), output, mipmap: 0 },
        }
    } else {
        let output = with_extension(fs, "tex");
        AutoModePlan::Encode {
            options: EncodeCommandOptions {
                input: first.clone(),
                output,
                format: ValidFormat::Bc3,
                generate_mipmaps: true,
                mipmap_filter: MipmapFilter::Lanczos3,
            },
        }
    }
}

/// The two texture container kinds the tool reads.
#[derive(Clone, Copy, Debug, PartialEq, Eq, Structural)]
pub enum TextureKind {
    /// A DirectDraw surface.
    Dds,
    /// A League extended texture.
    Tex,
}

/// Classifies an input path by its extension: `.dds` (ignoring ASCII
/// case) is a DirectDraw surface, everything else is treated as a
/// League texture.
pub fn input_kind(path: &str) -> (r: TextureKind)
    ensures
        ext_matches(path@, "dds"@) ==> r == TextureKind::Dds,
        !ext_matches(path@, "dds"@) ==> r == TextureKind::Tex,
{
    if extension_matches(path, "dds") {
        TextureKind::Dds
    } else {
        TextureKind::Tex
    }
}

/// Decodes the requested surface of a texture input: the given
/// mipmap of a League texture, or the full-resolution surface of a
/// DirectDraw surface.
pub fn decode_texture_file(kind: TextureKind, bytes: &Vec<u8>, mipmap: u32) -> (r: Result<
    DecodedImage,
    (),
>)
    ensures
        kind == TextureKind::Tex ==> match r {
            Ok(img) => {
                &&& tex_decode_mip(bytes@, mipmap) == Some((img.rgba@, img.width, img.height))
                &&& img.wf()
            },
            Err(()) => tex_decode_mip(bytes@, mipmap) is None,
        },
        kind == TextureKind::Dds && dds_declares_zero_mips(bytes@) ==> r is Err,
        kind == TextureKind::Dds && !dds_declares_zero_mips(bytes@) ==> match r {
            Ok(img) => {
                &&& dds_decode(bytes@) == Some((img.rgba@, img.width, img.height))
                &&& img.rgba@.len() == 4 * img.width * img.height
            },
            Err(()) => dds_decode(bytes@) is None,
        },
{
    match kind {
        TextureKind::Tex => decode_tex_mipmap(bytes, mipmap),
        TextureKind::Dds => {
            if dds_zero_mip_guard(bytes) {
                Err(())
            } else {
                decode_dds_file(bytes)
            }
        },
    }
}

} // verus!
