//! The component lifecycle: module reference counting, activation
//! through the class factory, the bind-then-render contract of the
//! thumbnail provider, and aggregation refusal.

use ltk_tex::{
    AlphaMode, BindError, CClassFactory, CTexThumbProvider, ComError, DllCanUnloadNow,
    DllGetClassObject, ModuleRefs, OuterUnknown, RenderError, ValidFormat,
    CLSID_TEX_THUMB_HANDLER, IID_ICLASSFACTORY, IID_IINITIALIZE_WITH_STREAM,
    IID_ITHUMBNAIL_PROVIDER, IID_IUNKNOWN,
};

fn solid_rgba(width: u32, height: u32, pixel: [u8; 4]) -> Vec<u8> {
    let mut rgba = Vec::new();
    for _ in 0..(width * height) {
        rgba.extend_from_slice(&pixel);
    }
    rgba
}

fn encoded_texture(width: u32, height: u32, pixel: [u8; 4]) -> Vec<u8> {
    let rgba = solid_rgba(width, height, pixel);
    ltk_tex::encode_texture(
        &rgba,
        width,
        height,
        ValidFormat::Bgra8,
        false,
        ltk_tex::MipmapFilter::Triangle,
    )
    .expect("encoding a small solid image succeeds")
}

#[test]
fn module_count_tracks_constructions_and_destructions() {
    let mut module = ModuleRefs::new();
    assert!(module.can_unload());
    assert!(DllCanUnloadNow(&module));

    // Three constructions, then three destructions: the count after
    // every prefix equals its net.
    module.add_reference();
    module.add_reference();
    module.add_reference();
    assert!(!module.can_unload());
    module.release_reference();
    assert!(!module.can_unload());
    module.release_reference();
    module.release_reference();
    assert!(module.can_unload());
    assert!(DllCanUnloadNow(&module));
}

#[test]
fn instance_lifetime_holds_a_module_reference() {
    let mut module = ModuleRefs::new();
    let mut provider = CTexThumbProvider::new(&mut module);
    assert!(!DllCanUnloadNow(&module));
    // Interface references come and go without touching the module
    // count; only the last release frees the module reference.
    assert_eq!(provider.add_ref(), 2);
    assert_eq!(provider.release(&mut module), 1);
    assert!(!DllCanUnloadNow(&module));
    assert_eq!(provider.release(&mut module), 0);
    assert!(DllCanUnloadNow(&module));
}

#[test]
fn release_to_zero_frees_the_module_reference() {
    let mut module = ModuleRefs::new();
    let mut provider = CTexThumbProvider::new(&mut module);
    assert!(!module.can_unload());
    let remaining = provider.release(&mut module);
    assert_eq!(remaining, 0);
    assert!(module.can_unload());
}

#[test]
fn bind_twice_returns_already_bound_and_keeps_the_first_stream() {
    let mut module = ModuleRefs::new();
    let mut provider = CTexThumbProvider::new(&mut module);

    // First bind: an 8x4 solid texture.
    let first = encoded_texture(8, 4, [10, 20, 30, 255]);
    assert!(provider.bind(Some(first)).is_ok());

    // Second bind: a different 2x2 texture; it must be refused.
    let second = encoded_texture(2, 2, [1, 2, 3, 4]);
    assert_eq!(provider.bind(Some(second)), Err(BindError::AlreadyBound));

    // Rendering still sees the first stream: 8x4 scaled to edge 8.
    let (bitmap, _) = provider.render(8).expect("render of the first stream");
    assert_eq!((bitmap.width, bitmap.height), (8, 4));
}

#[test]
fn bind_without_a_source_is_invalid() {
    let mut module = ModuleRefs::new();
    let mut provider = CTexThumbProvider::new(&mut module);
    assert_eq!(provider.bind(None), Err(BindError::InvalidSource));
    // The failed bind did not bind: render still reports NotBound.
    assert_eq!(provider.render(32), Err(RenderError::NotBound));
}

#[test]
fn render_before_bind_returns_not_bound_and_no_bitmap() {
    let mut module = ModuleRefs::new();
    let provider = CTexThumbProvider::new(&mut module);
    let r = provider.render(64);
    assert_eq!(r, Err(RenderError::NotBound));
}

#[test]
fn render_of_an_empty_stream_is_empty_source() {
    let mut module = ModuleRefs::new();
    let mut provider = CTexThumbProvider::new(&mut module);
    assert!(provider.bind(Some(Vec::new())).is_ok());
    assert_eq!(provider.render(64), Err(RenderError::EmptySource));
}

#[test]
fn render_of_undecodable_bytes_is_decode_failed() {
    let mut module = ModuleRefs::new();
    let mut provider = CTexThumbProvider::new(&mut module);
    assert!(provider.bind(Some(vec![1, 2, 3, 4, 5])).is_ok());
    assert_eq!(provider.render(64), Err(RenderError::DecodeFailed));
}

#[test]
fn render_can_be_repeated_on_the_same_instance() {
    let mut module = ModuleRefs::new();
    let mut provider = CTexThumbProvider::new(&mut module);
    provider
        .bind(Some(encoded_texture(16, 8, [40, 50, 60, 255])))
        .unwrap();
    let (first, alpha1) = provider.render(8).unwrap();
    let (second, alpha2) = provider.render(8).unwrap();
    assert_eq!((first.width, first.height), (8, 4));
    assert_eq!((second.width, second.height), (8, 4));
    assert_eq!(first.data, second.data);
    assert_eq!(alpha1, AlphaMode::Straight);
    assert_eq!(alpha2, AlphaMode::Straight);
}

#[test]
fn class_lookup_miss_returns_class_not_available_and_no_handle() {
    let mut module = ModuleRefs::new();
    let r = DllGetClassObject(Some(0x0123_4567_89ab_cdef), IID_IUNKNOWN, &mut module);
    assert_eq!(r.err(), Some(ComError::ClassNotAvailable));
    // No object was produced, so the module is still unloadable.
    assert!(module.can_unload());
}

#[test]
fn null_class_identifier_is_an_argument_error() {
    let mut module = ModuleRefs::new();
    let r = DllGetClassObject(None, IID_IUNKNOWN, &mut module);
    assert_eq!(r.err(), Some(ComError::InvalidArgument));
    assert!(module.can_unload());
}

#[test]
fn factory_answers_only_its_own_interfaces() {
    let mut module = ModuleRefs::new();
    let r = DllGetClassObject(
        Some(CLSID_TEX_THUMB_HANDLER),
        IID_ITHUMBNAIL_PROVIDER,
        &mut module,
    );
    assert_eq!(r.err(), Some(ComError::NoInterface));
    // The factory built for the query was released again.
    assert!(module.can_unload());

    let ok = DllGetClassObject(Some(CLSID_TEX_THUMB_HANDLER), IID_ICLASSFACTORY, &mut module);
    assert!(ok.is_ok());
    assert!(!module.can_unload());
}

#[test]
fn aggregation_is_always_refused() {
    let mut module = ModuleRefs::new();
    let factory = DllGetClassObject(Some(CLSID_TEX_THUMB_HANDLER), IID_IUNKNOWN, &mut module)
        .expect("factory for the registered class");
    let before_unloadable = module.can_unload();

    // A non-null outer fails for every requested interface.
    let r = factory.CreateInstance(Some(OuterUnknown {}), IID_ITHUMBNAIL_PROVIDER, &mut module);
    assert_eq!(r.err(), Some(ComError::NoAggregation));
    let r = factory.CreateInstance(Some(OuterUnknown {}), 0xdead_beef, &mut module);
    assert_eq!(r.err(), Some(ComError::NoAggregation));
    assert_eq!(module.can_unload(), before_unloadable);
}

#[test]
fn factory_constructs_an_unbound_provider() {
    let mut module = ModuleRefs::new();
    let factory: CClassFactory =
        DllGetClassObject(Some(CLSID_TEX_THUMB_HANDLER), IID_ICLASSFACTORY, &mut module).unwrap();
    let provider = factory
        .CreateInstance(None, IID_IINITIALIZE_WITH_STREAM, &mut module)
        .expect("construction under a supported interface");
    assert_eq!(provider.render(64), Err(RenderError::NotBound));
}

#[test]
fn failed_construction_leaks_no_module_reference() {
    let mut module = ModuleRefs::new();
    let mut factory =
        DllGetClassObject(Some(CLSID_TEX_THUMB_HANDLER), IID_ICLASSFACTORY, &mut module).unwrap();
    let r = factory.CreateInstance(None, 0xdead_beef, &mut module);
    assert_eq!(r.err(), Some(ComError::NoInterface));
    // Only the factory's own reference is outstanding.
    assert_eq!(factory.release(&mut module), 0);
    assert!(module.can_unload());
}

#[test]
fn lock_server_pins_and_unpins_the_module() {
    let mut module = ModuleRefs::new();
    let mut factory =
        DllGetClassObject(Some(CLSID_TEX_THUMB_HANDLER), IID_ICLASSFACTORY, &mut module).unwrap();
    factory.LockServer(true, &mut module);
    assert_eq!(factory.release(&mut module), 0);
    // The lock keeps the module resident with zero live objects.
    assert!(!module.can_unload());
    let factory2 =
        DllGetClassObject(Some(CLSID_TEX_THUMB_HANDLER), IID_ICLASSFACTORY, &mut module).unwrap();
    factory2.LockServer(false, &mut module);
    let mut factory2 = factory2;
    assert_eq!(factory2.release(&mut module), 0);
    assert!(module.can_unload());
}
