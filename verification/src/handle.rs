//! Opaque handles to firmware objects and events.

use vstd::prelude::*;

verus! {

/// An opaque token that names a firmware object on which protocols are
/// installed. It carries no data and is never null; two handles name the
/// same object exactly when they are equal.
#[derive(Clone, Copy, Debug, PartialEq, Eq, Structural)]
pub struct Handle {
    raw: u64,
}

impl Handle {
    #[verifier::type_invariant]
    spec fn non_null(self) -> bool {
        self.raw != 0
    }

    /// The address that the firmware uses for this handle.
    pub closed spec fn addr(self) -> u64 {
        self.raw
    }

    /// The handle whose address is `raw`.
    pub closed spec fn at(raw: u64) -> Handle {
        Handle { raw }
    }

    /// The typed form of a raw handle: absent when the raw handle is null.
    pub open spec fn of_raw(raw: u64) -> Option<Handle> {
        if raw == 0 {
            None
        } else {
            Some(Handle::at(raw))
        }
    }

    /// A handle is determined by its address.
    pub proof fn lemma_identity(self, raw: u64)
        ensures
            Handle::at(raw).addr() == raw,
            Handle::at(self.addr()) == self,
    {
    }

    /// Turns a raw handle into a typed one; the null address is no handle.
    pub fn from_raw(raw: u64) -> (handle: Option<Handle>)
        ensures
            handle == Handle::of_raw(raw),
    {
        if raw == 0 {
            None
        } else {
            Some(Handle { raw })
        }
    }

    /// The raw handle to pass to the firmware.
    pub fn as_raw(self) -> (raw: u64)
        ensures
            raw == self.addr(),
            raw != 0,
    {
        proof {
            use_type_invariant(self);
        }
        self.raw
    }
}

/// An opaque token that names a firmware event. It is never null.
#[derive(Clone, Copy, Debug, PartialEq, Eq, Structural)]
pub struct Event {
    raw: u64,
}

impl Event {
    #[verifier::type_invariant]
    spec fn non_null(self) -> bool {
        self.raw != 0
    }

    /// The address that the firmware uses for this event.
    pub closed spec fn addr(self) -> u64 {
        self.raw
    }

    /// The event whose address is `raw`.
    pub closed spec fn at(raw: u64) -> Event {
        Event { raw }
    }

    /// The typed form of a raw event: absent when the raw event is null.
    pub open spec fn of_raw(raw: u64) -> Option<Event> {
        if raw == 0 {
            None
        } else {
            Some(Event::at(raw))
        }
    }

    /// An event is determined by its address.
    pub proof fn lemma_identity(self, raw: u64)
        ensures
            Event::at(raw).addr() == raw,
            Event::at(self.addr()) == self,
    {
    }

    /// Turns a raw event into a typed one; the null address is no event.
    pub fn from_raw(raw: u64) -> (event: Option<Event>)
        ensures
            event == Event::of_raw(raw),
    {
        if raw == 0 {
            None
        } else {
            Some(Event { raw })
        }
    }

    /// The raw event to pass to the firmware.
    pub fn as_raw(self) -> (raw: u64)
        ensures
            raw == self.addr(),
            raw != 0,
    {
        proof {
            use_type_invariant(self);
        }
        self.raw
    }
}

} // verus!
