//! The per-request thumbnail component: a two-phase object that is
//! bound to a source byte stream exactly once and then renders
//! thumbnails from it on demand.

use crate::class_factory::{ComError, IID_IINITIALIZE_WITH_STREAM, IID_ITHUMBNAIL_PROVIDER,
    IID_IUNKNOWN};
use crate::image_processing::{bgra_of, decode_tex_file, materialize_bitmap, scale_image,
    scale_spec, scaled_height, scaled_width, tex_decode, Bitmap};
use crate::lifetime::ModuleRefs;
use vstd::prelude::*;

verus! {

/// How the colour channels of a bitmap relate to its alpha channel.
/// This pipeline never premultiplies, so every rendered bitmap is
/// reported as `Straight`.
#[derive(Clone, Copy, Debug, PartialEq, Eq, Structural)]
pub enum AlphaMode {
    /// Colour channels are independent of alpha.
    Straight,
    /// Colour channels are pre-scaled by alpha.  Never produced here.
    Premultiplied,
}

/// Why a bind request was refused.
#[derive(Clone, Copy, Debug, PartialEq, Eq, Structural)]
pub enum BindError {
    /// The instance is already bound; the first binding stays.
    AlreadyBound,
    /// No source was supplied.
    InvalidSource,
}

/// Why a render request produced no bitmap.
#[derive(Clone, Copy, Debug, PartialEq, Eq, Structural)]
pub enum RenderError {
    /// `bind` has not succeeded on this instance yet.
    NotBound,
    /// The bound source held no bytes at all.
    EmptySource,
    /// The decoder rejected the bytes; sub-causes are not distinguished.
    DecodeFailed,
}

/// True for the interface identifiers the thumbnail provider answers
/// to: the root interface, stream initialization, and thumbnail
/// rendering.
pub open spec fn provider_supports(iid: u128) -> bool {
    ||| iid == IID_IUNKNOWN
    ||| iid == IID_IINITIALIZE_WITH_STREAM
    ||| iid == IID_ITHUMBNAIL_PROVIDER
}

/// One thumbnail request object.
///
/// It starts unbound, accepts one source byte stream through `bind`,
/// and renders thumbnails from that stream through `render`.  It
/// carries its own interface reference count and holds one module
/// reference from construction until its count reaches zero.
///
/// `bind` takes the instance exclusively, so the establish-before-use
/// ordering between `bind` and `render` that the component contract
/// asks for is enforced by the borrow rules; the host-facing boundary
/// wraps the instance in its own lock when it shares it across
/// threads.
pub struct CTexThumbProvider {
    refs: u32,
    source: Option<Vec<u8>>,
}

impl CTexThumbProvider {
    /// Outstanding interface references.  The object is alive while
    /// this is positive and is destroyed when it reaches zero.
    pub closed spec fn refs(&self) -> nat {
        self.refs as nat
    }

    /// Whether a source stream has been bound.
    pub closed spec fn bound(&self) -> bool {
        self.source is Some
    }

    /// The bytes of the bound source stream.
    pub closed spec fn source_bytes(&self) -> Seq<u8> {
        self.source.unwrap()@
    }

    /// Builds a fresh, unbound instance with one interface reference,
    /// taking one module reference for the instance's lifetime.
    pub fn new(module: &mut ModuleRefs) -> (p: CTexThumbProvider)
        requires
            old(module).count() < u32::MAX,
        ensures
            p.refs() == 1,
            !p.bound(),
            final(module).count() == old(module).count() + 1,
    {
        module.add_reference();
        CTexThumbProvider { refs: 1, source: None }
    }

    /// Takes one more interface reference and returns the new count.
    pub fn add_ref(&mut self) -> (r: u32)
        requires
            old(self).refs() > 0,
            old(self).refs() < u32::MAX,
        ensures
            r == final(self).refs(),
            final(self).refs() == old(self).refs() + 1,
            final(self).bound() == old(self).bound(),
            old(self).bound() ==> final(self).source_bytes() == old(self).source_bytes(),
    {
        self.refs = self.refs + 1;
        self.refs
    }

    /// Releases one interface reference and returns the new count.
    /// When the count reaches zero the object is dead and its module
    /// reference is given back; the owner must not use it afterwards.
    pub fn release(&mut self, module: &mut ModuleRefs) -> (r: u32)
        requires
            old(self).refs() > 0,
            old(module).count() > 0,
        ensures
            r == old(self).refs() - 1,
            final(self).refs() == r,
            r > 0 ==> final(module).count() == old(module).count(),
            r == 0 ==> final(module).count() == old(module).count() - 1,
            final(self).bound() == old(self).bound(),
            old(self).bound() ==> final(self).source_bytes() == old(self).source_bytes(),
    {
        self.refs = self.refs - 1;
        if self.refs == 0 {
            module.release_reference();
        }
        self.refs
    }

    /// Binds the source byte stream, exactly once.
    ///
    /// A second bind fails with `AlreadyBound` and leaves the first
    /// binding in place; an absent source fails with `InvalidSource`
    /// and binds nothing.
    pub fn bind(&mut self, source: Option<Vec<u8>>) -> (r: Result<(), BindError>)
        requires
            old(self).refs() > 0,
        ensures
            final(self).refs() == old(self).refs(),
            old(self).bound() ==> {
                &&& r == Err::<(), BindError>(BindError::AlreadyBound)
                &&& final(self).bound()
                &&& final(self).source_bytes() == old(self).source_bytes()
            },
            !old(self).bound() && source is None ==> {
                &&& r == Err::<(), BindError>(BindError::InvalidSource)
                &&& !final(self).bound()
            },
            !old(self).bound() && source is Some ==> {
                &&& r == Ok::<(), BindError>(())
                &&& final(self).bound()
                &&& final(self).source_bytes() == source.unwrap()@
            },
    {
        if self.source.is_some() {
            Err(BindError::AlreadyBound)
        } else {
            match source {
                None => Err(BindError::InvalidSource),
                Some(bytes) => {
                    self.source = Some(bytes);
                    Ok(())
                },
            }
        }
    }

    /// Renders a thumbnail bitmap from the bound source.
    ///
    /// The source bytes are decoded, box-fit resized to `cx`, and
    /// materialized as a top-down BGRA surface; the alpha mode is
    /// always reported as straight.  Each call redoes the whole chain
    /// and the instance is left unchanged.
    pub fn render(&self, cx: u32) -> (r: Result<(Bitmap, AlphaMode), RenderError>)
        requires
            self.refs() > 0,
        ensures
            !self.bound() ==> r == Err::<(Bitmap, AlphaMode), RenderError>(RenderError::NotBound),
            self.bound() && self.source_bytes().len() == 0 ==> r == Err::<
                (Bitmap, AlphaMode),
                RenderError,
            >(RenderError::EmptySource),
            self.bound() && self.source_bytes().len() > 0 && tex_decode(self.source_bytes())
                is None ==> r == Err::<(Bitmap, AlphaMode), RenderError>(RenderError::DecodeFailed),
            self.bound() && self.source_bytes().len() > 0 && tex_decode(self.source_bytes())
                is Some ==> {
                let d = tex_decode(self.source_bytes()).unwrap();
                &&& r is Ok
                &&& r.unwrap().1 == AlphaMode::Straight
                &&& r.unwrap().0.width == scaled_width(d.1 as int, d.2 as int, cx as int)
                &&& r.unwrap().0.height == scaled_height(d.1 as int, d.2 as int, cx as int)
                &&& r.unwrap().0.data@ == bgra_of(scale_spec(d.0, d.1 as int, d.2 as int, cx as int))
                &&& r.unwrap().0.wf()
            },
    {
        match &self.source {
            None => Err(RenderError::NotBound),
            Some(bytes) => {
                if bytes.len() == 0 {
                    Err(RenderError::EmptySource)
                } else {
                    match decode_tex_file(bytes) {
                        Err(()) => Err(RenderError::DecodeFailed),
                        Ok(img) => {
                            let (scaled, dst_w, dst_h) = scale_image(
                                &img.rgba,
                                img.width,
                                img.height,
                                cx,
                            );
                            let bmp = materialize_bitmap(&scaled, dst_w, dst_h);
                            Ok((bmp, AlphaMode::Straight))
                        },
                    }
                }
            },
        }
    }
}

/// Constructs a thumbnail provider and hands it back under the
/// requested interface view, as the class factory's registered
/// constructor.  When the requested interface is not one the provider
/// implements, the fresh instance is released again — a failed
/// construction leaves no module reference behind — and the same
/// not-available signal is reported.
#[allow(non_snake_case)]
pub fn CTexThumbProvider_CreateInstance(iid: u128, module: &mut ModuleRefs) -> (r: Result<
    CTexThumbProvider,
    ComError,
>)
    requires
        old(module).count() < u32::MAX,
    ensures
        provider_supports(iid) ==> {
            &&& r is Ok
            &&& r.unwrap().refs() == 1
            &&& !r.unwrap().bound()
            &&& final(module).count() == old(module).count() + 1
        },
        !provider_supports(iid) ==> {
            &&& r == Err::<CTexThumbProvider, ComError>(ComError::NoInterface)
            &&& final(module).count() == old(module).count()
        },
{
    let mut provider = CTexThumbProvider::new(module);
    if iid == IID_IUNKNOWN || iid == IID_IINITIALIZE_WITH_STREAM || iid == IID_ITHUMBNAIL_PROVIDER {
        Ok(provider)
    } else {
        provider.release(module);
        Err(ComError::NoInterface)
    }
}

} // verus!
