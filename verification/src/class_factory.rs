//! The class factory and the module-level activation entry points:
//! resolving a class identifier against the table of registered
//! classes, constructing component instances, refusing aggregation,
//! and pinning the module resident through server locks.

use crate::lifetime::ModuleRefs;
use crate::thumbnail_provider::{provider_supports, CTexThumbProvider,
    CTexThumbProvider_CreateInstance};
use vstd::prelude::*;

verus! {

/// Class identifier of the texture thumbnail handler.
pub const CLSID_TEX_THUMB_HANDLER: u128 = 0x2f7e3e47_3b6b_4d59_9d42_4f4b0a5ba1b9;

/// Interface identifier of the root interface every component implements.
pub const IID_IUNKNOWN: u128 = 0x00000000_0000_0000_c000_000000000046;

/// Interface identifier of the class-factory interface.
pub const IID_ICLASSFACTORY: u128 = 0x00000001_0000_0000_c000_000000000046;

/// Interface identifier of the stream-initialization interface.
pub const IID_IINITIALIZE_WITH_STREAM: u128 = 0xb824b49d_22ac_4161_ac8a_9916e8fa3f7f;

/// Interface identifier of the thumbnail-rendering interface.
pub const IID_ITHUMBNAIL_PROVIDER: u128 = 0xe357fccd_a995_4576_b01f_234630154e96;

/// Status values reported to the activating host.
#[derive(Clone, Copy, Debug, PartialEq, Eq, Structural)]
pub enum ComError {
    /// A required argument was absent.
    InvalidArgument,
    /// No registered class matches the requested class identifier.
    ClassNotAvailable,
    /// The object does not implement the requested interface view.
    NoInterface,
    /// Aggregation was requested; this library never supports it.
    NoAggregation,
}

/// Tag naming a registered constructor.  The registration table maps
/// class identifiers to these; dispatch on the tag replaces the raw
/// function pointer of the activation protocol.
#[derive(Clone, Copy, Debug, PartialEq, Eq, Structural)]
pub enum ClassConstructor {
    /// Builds a `CTexThumbProvider`.
    TexThumbProvider,
}

/// One entry of the registration table: an immutable pairing of a
/// class identifier with the constructor for that class.
#[derive(Clone, Copy, Debug, PartialEq, Eq, Structural)]
pub struct ClassObjectInit {
    pub clsid: u128,
    pub ctor: ClassConstructor,
}

/// The registration table: the single source of truth for what this
/// library can construct.  One class is registered.
pub open spec fn spec_class_table() -> Seq<ClassObjectInit> {
    seq![
        ClassObjectInit {
            clsid: CLSID_TEX_THUMB_HANDLER,
            ctor: ClassConstructor::TexThumbProvider,
        },
    ]
}

/// Builds the registration table.
pub fn class_object_table() -> (r: Vec<ClassObjectInit>)
    ensures
        r@ == spec_class_table(),
{
    let mut table: Vec<ClassObjectInit> = Vec::new();
    table.push(
        ClassObjectInit { clsid: CLSID_TEX_THUMB_HANDLER, ctor: ClassConstructor::TexThumbProvider },
    );
    proof {
        assert(table@ =~= spec_class_table());
    }
    table
}

/// The first table entry matching `clsid`, scanning from index `i`.
pub open spec fn table_lookup_from(t: Seq<ClassObjectInit>, clsid: u128, i: int) -> Option<
    ClassConstructor,
>
    decreases t.len() - i,
{
    if i < 0 || i >= t.len() {
        None
    } else if t[i].clsid == clsid {
        Some(t[i].ctor)
    } else {
        table_lookup_from(t, clsid, i + 1)
    }
}

/// The constructor registered for `clsid`, if any: the first match of
/// a linear scan of the table.
pub open spec fn table_lookup(t: Seq<ClassObjectInit>, clsid: u128) -> Option<ClassConstructor> {
    table_lookup_from(t, clsid, 0)
}

/// True for the interface identifiers a class factory answers to.
pub open spec fn factory_supports(iid: u128) -> bool {
    iid == IID_IUNKNOWN || iid == IID_ICLASSFACTORY
}

/// A stand-in for a non-null outer object supplied by a host that
/// requests aggregation.  The library never looks inside one: its
/// presence alone makes construction fail.
#[derive(Clone, Copy, Debug, PartialEq, Eq, Structural)]
pub struct OuterUnknown {}

/// The class factory for one registered class.  It holds its own
/// interface reference count and one module reference for its
/// lifetime, and constructs component instances on request.
pub struct CClassFactory {
    refs: u32,
    ctor: ClassConstructor,
}

impl CClassFactory {
    /// Outstanding interface references.
    pub closed spec fn refs(&self) -> nat {
        self.refs as nat
    }

    /// The registered constructor this factory dispatches to.
    pub closed spec fn ctor(&self) -> ClassConstructor {
        self.ctor
    }

    /// Builds a factory with one reference, taking a module reference.
    fn new(ctor: ClassConstructor, module: &mut ModuleRefs) -> (f: CClassFactory)
        requires
            old(module).count() < u32::MAX,
        ensures
            f.refs() == 1,
            f.ctor() == ctor,
            final(module).count() == old(module).count() + 1,
    {
        module.add_reference();
        CClassFactory { refs: 1, ctor }
    }

    /// Resolves `clsid` against the registration table and hands back
    /// a factory for the matching class under the requested interface
    /// view.
    ///
    /// A class identifier with no table entry fails with
    /// `ClassNotAvailable` and yields no object.  A matched class with
    /// an interface the factory does not implement fails with
    /// `NoInterface`, and the module count is left unchanged either
    /// way: a failed activation leaks no module reference.
    pub fn create_instance(
        clsid: u128,
        class_inits: &Vec<ClassObjectInit>,
        iid: u128,
        module: &mut ModuleRefs,
    ) -> (r: Result<CClassFactory, ComError>)
        requires
            table_lookup(class_inits@, clsid) is Some ==> old(module).count() < u32::MAX,
        ensures
            table_lookup(class_inits@, clsid) is None ==> {
                &&& r == Err::<CClassFactory, ComError>(ComError::ClassNotAvailable)
                &&& final(module).count() == old(module).count()
            },
            table_lookup(class_inits@, clsid) is Some && !factory_supports(iid) ==> {
                &&& r == Err::<CClassFactory, ComError>(ComError::NoInterface)
                &&& final(module).count() == old(module).count()
            },
            table_lookup(class_inits@, clsid) is Some && factory_supports(iid) ==> {
                &&& r is Ok
                &&& r.unwrap().refs() == 1
                &&& r.unwrap().ctor() == table_lookup(class_inits@, clsid).unwrap()
                &&& final(module).count() == old(module).count() + 1
            },
    {
        let n = class_inits.len();
        let mut i: usize = 0;
        while i < n
            invariant
                i <= n,
                n == class_inits@.len(),
                table_lookup(class_inits@, clsid) is Some ==> old(module).count() < u32::MAX,
                module.count() == old(module).count(),
                table_lookup(class_inits@, clsid) == table_lookup_from(class_inits@, clsid, i as int),
            decreases n - i,
        {
            if class_inits[i].clsid == clsid {
                let factory = CClassFactory::new(class_inits[i].ctor, module);
                if iid == IID_IUNKNOWN || iid == IID_ICLASSFACTORY {
                    return Ok(factory);
                } else {
                    let mut factory = factory;
                    factory.release(module);
                    return Err(ComError::NoInterface);
                }
            }
            i = i + 1;
        }
        Err(ComError::ClassNotAvailable)
    }

    /// Constructs one component instance of the factory's class.
    ///
    /// A request that supplies a non-null outer aggregator fails with
    /// `NoAggregation`, whatever else the request says.  Otherwise the
    /// registered constructor runs and the instance is handed back
    /// under the requested interface view; when it does not implement
    /// that view the instance is released again and `NoInterface` is
    /// reported, with no module reference left behind.
    #[allow(non_snake_case)]
    pub fn CreateInstance(
        &self,
        outer: Option<OuterUnknown>,
        iid: u128,
        module: &mut ModuleRefs,
    ) -> (r: Result<CTexThumbProvider, ComError>)
        requires
            outer is None ==> old(module).count() < u32::MAX,
        ensures
            outer is Some ==> {
                &&& r == Err::<CTexThumbProvider, ComError>(ComError::NoAggregation)
                &&& final(module).count() == old(module).count()
            },
            outer is None && provider_supports(iid) ==> {
                &&& r is Ok
                &&& r.unwrap().refs() == 1
                &&& !r.unwrap().bound()
                &&& final(module).count() == old(module).count() + 1
            },
            outer is None && !provider_supports(iid) ==> {
                &&& r == Err::<CTexThumbProvider, ComError>(ComError::NoInterface)
                &&& final(module).count() == old(module).count()
            },
    {
        if outer.is_some() {
            Err(ComError::NoAggregation)
        } else {
            match self.ctor {
                ClassConstructor::TexThumbProvider => CTexThumbProvider_CreateInstance(iid, module),
            }
        }
    }

    /// Pins or unpins the module: an engaged lock takes a module
    /// reference so the host can keep the library resident with no
    /// live instances; a disengaged lock gives one back.
    #[allow(non_snake_case)]
    pub fn LockServer(&self, lock: bool, module: &mut ModuleRefs)
        requires
            lock ==> old(module).count() < u32::MAX,
            !lock ==> old(module).count() > 0,
        ensures
            lock ==> final(module).count() == old(module).count() + 1,
            !lock ==> final(module).count() == old(module).count() - 1,
    {
        if lock {
            module.add_reference();
        } else {
            module.release_reference();
        }
    }

    /// Releases one interface reference and returns the new count.
    /// When it reaches zero the factory is dead and its module
    /// reference is given back.
    pub fn release(&mut self, module: &mut ModuleRefs) -> (r: u32)
        requires
            old(self).refs() > 0,
            old(module).count() > 0,
        ensures
            r == old(self).refs() - 1,
            final(self).refs() == r,
            final(self).ctor() == old(self).ctor(),
            r > 0 ==> final(module).count() == old(module).count(),
            r == 0 ==> final(module).count() == old(module).count() - 1,
    {
        self.refs = self.refs - 1;
        if self.refs == 0 {
            module.release_reference();
        }
        self.refs
    }
}

/// Whether the host may unload the library: true exactly when no
/// module reference is outstanding.
#[allow(non_snake_case)]
pub fn DllCanUnloadNow(module: &ModuleRefs) -> (r: bool)
    ensures
        r <==> module.count() == 0,
{
    module.can_unload()
}

/// The module's activation entry point: resolves a class identifier
/// to a class factory.  An absent class identifier is an argument
/// error; the rest is the table lookup of
/// `CClassFactory::create_instance` against the registered classes.
#[allow(non_snake_case)]
pub fn DllGetClassObject(clsid: Option<u128>, iid: u128, module: &mut ModuleRefs) -> (r: Result<
    CClassFactory,
    ComError,
>)
    requires
        clsid == Some(CLSID_TEX_THUMB_HANDLER) ==> old(module).count() < u32::MAX,
    ensures
        clsid is None ==> {
            &&& r == Err::<CClassFactory, ComError>(ComError::InvalidArgument)
            &&& final(module).count() == old(module).count()
        },
        clsid is Some && clsid.unwrap() != CLSID_TEX_THUMB_HANDLER ==> {
            &&& r == Err::<CClassFactory, ComError>(ComError::ClassNotAvailable)
            &&& final(module).count() == old(module).count()
        },
        clsid == Some(CLSID_TEX_THUMB_HANDLER) && !factory_supports(iid) ==> {
            &&& r == Err::<CClassFactory, ComError>(ComError::NoInterface)
            &&& final(module).count() == old(module).count()
        },
        clsid == Some(CLSID_TEX_THUMB_HANDLER) && factory_supports(iid) ==> {
            &&& r is Ok
            &&& r.unwrap().refs() == 1
            &&& r.unwrap().ctor() == ClassConstructor::TexThumbProvider
            &&& final(module).count() == old(module).count() + 1
        },
{
    match clsid {
        None => Err(ComError::InvalidArgument),
        Some(c) => {
            let table = class_object_table();
            proof {
                reveal_with_fuel(table_lookup_from, 3);
                if c == CLSID_TEX_THUMB_HANDLER {
                    assert(table_lookup(table@, c) == Some(ClassConstructor::TexThumbProvider));
                } else {
                    assert(table_lookup(table@, c) is None);
                }
            }
            CClassFactory::create_instance(c, &table, iid, module)
        },
    }
}

} // verus!
