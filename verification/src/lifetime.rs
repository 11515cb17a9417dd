//! Module lifetime bookkeeping: a process-wide count of outstanding
//! component objects and explicit server locks.  The hosting shell may
//! unload the library only while this count is zero.

use vstd::prelude::*;

verus! {

/// The process-wide reference count of the module.
///
/// Every live component object (class factory or thumbnail provider)
/// holds one reference for its whole lifetime, and the host may take
/// further references through the factory's lock operation.  The count
/// is never negative; `can_unload` reports whether it is exactly zero.
pub struct ModuleRefs {
    count: u32,
}

impl ModuleRefs {
    /// The number of outstanding references.
    pub closed spec fn count(&self) -> nat {
        self.count as nat
    }

    /// A freshly loaded module has no outstanding references.
    pub fn new() -> (m: ModuleRefs)
        ensures
            m.count() == 0,
    {
        ModuleRefs { count: 0 }
    }

    /// Takes one module reference.
    pub fn add_reference(&mut self)
        requires
            old(self).count() < u32::MAX,
        ensures
            final(self).count() == old(self).count() + 1,
    {
        self.count = self.count + 1;
    }

    /// Gives one module reference back.  References are released only
    /// by holders, so the count is positive when this is called.
    pub fn release_reference(&mut self)
        requires
            old(self).count() > 0,
        ensures
            final(self).count() == old(self).count() - 1,
    {
        self.count = self.count - 1;
    }

    /// True exactly when no reference is outstanding, so that the host
    /// may unload the module.
    pub fn can_unload(&self) -> (r: bool)
        ensures
            r <==> self.count() == 0,
    {
        self.count == 0
    }
}

/// The count after a sequence of lifecycle events is applied to a
/// starting count: `true` is a construction or lock (`add_reference`,
/// count goes up by one), `false` a destruction or unlock
/// (`release_reference`, count goes down by one).
pub open spec fn count_after(start: int, events: Seq<bool>) -> int
    decreases events.len(),
{
    if events.len() == 0 {
        start
    } else {
        count_after(
            if events[0] {
                start + 1
            } else {
                start - 1
            },
            events.drop_first(),
        )
    }
}

/// The net of a sequence of lifecycle events: constructions minus
/// destructions.
pub open spec fn net_of(events: Seq<bool>) -> int
    decreases events.len(),
{
    if events.len() == 0 {
        0
    } else {
        (if events[0] {
            1int
        } else {
            -1int
        }) + net_of(events.drop_first())
    }
}

/// After any sequence of constructions and destructions completes,
/// the module count moved by exactly their net.  Each step of
/// `count_after` is what `add_reference` and `release_reference`
/// promise, so this is the counting law for any interleaving of
/// instance lifetimes and server locks.
pub proof fn lemma_count_is_net(start: int, events: Seq<bool>)
    ensures
        count_after(start, events) == start + net_of(events),
    decreases events.len(),
{
    if events.len() > 0 {
        lemma_count_is_net(
            if events[0] {
                start + 1
            } else {
                start - 1
            },
            events.drop_first(),
        );
    }
}

/// A module starts with a zero count, so after a sequence of events
/// completes the count equals their net, and the module reports
/// itself unloadable exactly when that net is zero.
pub proof fn lemma_unload_iff_net_zero(events: Seq<bool>)
    ensures
        count_after(0, events) == net_of(events),
        count_after(0, events) == 0 <==> net_of(events) == 0,
{
    lemma_count_is_net(0, events);
}

} // verus!
