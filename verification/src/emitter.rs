//! The listener registry: subscribers with per-subscriber event-type
//! filters.
//!
//! The registry decides which listeners an event of a given type reaches;
//! actually enqueueing on their mailboxes is the runtime's work.

use vstd::prelude::*;
use crate::event::{EventType, EventTypeFlags};

verus! {

/// One registered listener.
#[derive(Clone, Copy, Debug, PartialEq, Eq, Structural)]
pub struct Listener {
    pub id: u64,
    pub events: EventTypeFlags,
}

/// The ids of the listeners in `s` whose mask holds `kind`, in registry
/// order.
pub open spec fn spec_recipients(s: Seq<Listener>, kind: EventType) -> Seq<u64>
    decreases s.len(),
{
    if s.len() == 0 {
        Seq::<u64>::empty()
    } else if s.last().events.spec_contains(kind) {
        spec_recipients(s.drop_last(), kind).push(s.last().id)
    } else {
        spec_recipients(s.drop_last(), kind)
    }
}

/// The listeners of `s` except those registered under `id`, in order.
pub open spec fn spec_without(s: Seq<Listener>, id: u64) -> Seq<Listener>
    decreases s.len(),
{
    if s.len() == 0 {
        Seq::<Listener>::empty()
    } else if s.last().id == id {
        spec_without(s.drop_last(), id)
    } else {
        spec_without(s.drop_last(), id).push(s.last())
    }
}

/// A process-wide registry of listeners, keyed by id.
#[derive(Clone, Debug, PartialEq, Eq)]
pub struct Listeners {
    listeners: Vec<Listener>,
    next_id: u64,
}

impl Listeners {
    /// The registered listeners, in registration order.
    pub closed spec fn spec_listeners(&self) -> Seq<Listener> {
        self.listeners@
    }

    /// An empty registry.
    pub fn new() -> (r: Listeners)
        ensures
            r.spec_listeners().len() == 0,
    {
        Listeners { listeners: Vec::new(), next_id: 0 }
    }

    /// How many listeners are registered.
    pub fn len(&self) -> (r: usize)
        ensures
            r == self.spec_listeners().len(),
    {
        self.listeners.len()
    }

    /// Register a listener with the given event mask; its fresh id is
    /// returned.
    pub fn add(&mut self, events: EventTypeFlags) -> (id: u64)
        ensures
            final(self).spec_listeners() == old(self).spec_listeners().push(
                Listener { id, events },
            ),
    {
        let id = self.next_id;
        if self.next_id < u64::MAX {
            self.next_id = self.next_id + 1;
        }
        self.listeners.push(Listener { id, events });
        id
    }

    /// Remove the listener registered under `id`; the others keep their
    /// order.
    pub fn remove(&mut self, id: u64)
        ensures
            final(self).spec_listeners() == spec_without(old(self).spec_listeners(), id),
    {
        let mut kept: Vec<Listener> = Vec::new();
        let mut k: usize = 0;
        proof {
            assert(self.listeners@.subrange(0, 0) =~= Seq::<Listener>::empty());
        }
        while k < self.listeners.len()
            invariant
                k <= self.listeners@.len(),
                kept@ == spec_without(self.listeners@.subrange(0, k as int), id),
            decreases self.listeners@.len() - k,
        {
            let l = self.listeners[k];
            proof {
                let pre = self.listeners@.subrange(0, (k + 1) as int);
                assert(pre.drop_last() =~= self.listeners@.subrange(0, k as int));
                assert(pre.last() == self.listeners@[k as int]);
            }
            if l.id != id {
                kept.push(l);
            }
            k += 1;
        }
        proof {
            assert(self.listeners@.subrange(0, self.listeners@.len() as int) =~= self.listeners@);
        }
        self.listeners = kept;
    }

    /// Remove every listener: the registry is being torn down.
    pub fn remove_all(&mut self)
        ensures
            final(self).spec_listeners().len() == 0,
    {
        self.listeners = Vec::new();
    }

    /// The ids an event of type `kind` must reach: exactly the listeners
    /// whose mask holds `kind`, in registration order.
    pub fn recipients(&self, kind: EventType) -> (r: Vec<u64>)
        ensures
            r@ == spec_recipients(self.spec_listeners(), kind),
    {
        let mut out: Vec<u64> = Vec::new();
        let mut k: usize = 0;
        proof {
            assert(self.listeners@.subrange(0, 0) =~= Seq::<Listener>::empty());
        }
        while k < self.listeners.len()
            invariant
                k <= self.listeners@.len(),
                out@ == spec_recipients(self.listeners@.subrange(0, k as int), kind),
            decreases self.listeners@.len() - k,
        {
            let l = self.listeners[k];
            proof {
                let pre = self.listeners@.subrange(0, (k + 1) as int);
                assert(pre.drop_last() =~= self.listeners@.subrange(0, k as int));
                assert(pre.last() == self.listeners@[k as int]);
            }
            if l.events.contains(kind) {
                out.push(l.id);
            }
            k += 1;
        }
        proof {
            assert(self.listeners@.subrange(0, self.listeners@.len() as int) =~= self.listeners@);
        }
        out
    }
}

} // verus!
