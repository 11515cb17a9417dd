//! In-process thumbnail component for League of Legends texture files,
//! together with the routing logic of the companion conversion tool.
//!
//! The crate is organised around the four parts of the component model:
//! the module lifetime counter, the class factory, the per-request
//! thumbnail provider, and the pixel pipeline that turns a decoded
//! texture into a host-native bitmap.

mod class_factory;
mod cli;
mod image_processing;
mod lifetime;
mod headers;
mod registration;
mod thumbnail_provider;
mod utils;

pub use class_factory::{
    class_object_table, factory_supports, spec_class_table, table_lookup, table_lookup_from,
    CClassFactory, ClassConstructor, ClassObjectInit, ComError, DllCanUnloadNow, DllGetClassObject,
    OuterUnknown, CLSID_TEX_THUMB_HANDLER, IID_ICLASSFACTORY, IID_IINITIALIZE_WITH_STREAM,
    IID_ITHUMBNAIL_PROVIDER, IID_IUNKNOWN,
};
pub use image_processing::{
    bgra_of, dds_declares_zero_mips, dds_decode, dds_zero_mip_guard, decode_tex_file,
    encode_texture, filter_code, format_code, lemma_box_fit_identity, materialize_bitmap,
    round_div, sample_coord, scale_image, scale_spec, scaled_height, scaled_width, tex_decode,
    tex_decode_mip, tex_encode, Bitmap, DecodedImage,
};
pub use cli::{
    auto_mode_plan, decode_texture_file, ext_dot, ext_dot_exec, ext_matches, extension_matches,
    file_name_start, file_name_start_exec, flag_like, input_kind, is_sep, lemma_ext_dot_range,
    lemma_file_name_start_range, output_stem, resolve_input, resolve_output, with_ext_spec,
    with_extension, AutoModePlan, DecodeCommandOptions, EncodeCommandOptions, InfoCommandOptions,
    TextureKind,
};
pub use lifetime::{count_after, lemma_count_is_net, lemma_unload_iff_net_zero, net_of, ModuleRefs};
pub use registration::{
    first_blocking_failure, first_blocking_failure_from,
    lemma_verdict_success_iff_mandatory_applied, register_entries, registration_verdict,
    unregister_entries, RegistryEntry, RegistryRemoval, RootScope, SZ_CLSID_TEXTHUMBHANDLER,
    SZ_TEXTHUMBHANDLER,
};
pub use headers::{
    floor_log2, parse_dds_header, parse_tex_header, spec_format_of, spec_mip_count,
    spec_parse_dds_header, spec_parse_tex_header, spec_resource_of, spec_u32_le, DdsHeader,
    DdsHeaderError, TexFormat, TexHeader, TexHeaderError, TexResourceType,
};
pub use thumbnail_provider::{
    provider_supports, AlphaMode, BindError, CTexThumbProvider, CTexThumbProvider_CreateInstance,
    RenderError,
};
pub use utils::{
    eq_ignore_ascii_case, lower_char_val, matches_ignore_ascii_case, parse_format,
    parse_mipmap_filter, MipmapFilter, ValidFormat,
};
