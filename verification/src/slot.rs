//! Storage for the output parameters of a firmware call.
//!
//! The caller sets a slot aside, hands it to the firmware, and may read it
//! only once the firmware has reported success. A slot that was never
//! written holds nothing that could be read.

use vstd::prelude::*;

verus! {

/// Storage for one output value, written by the callee.
#[derive(Debug)]
pub struct OutSlot<T> {
    contents: Option<T>,
}

impl<T> View for OutSlot<T> {
    type V = Option<T>;

    /// What the slot holds: nothing until it is written.
    closed spec fn view(&self) -> Option<T> {
        self.contents
    }
}

/// What a slot holds after a call that wrote `written` to it, or wrote
/// nothing: the written value, else what it held before.
pub open spec fn written_over<T>(before: Option<T>, written: Option<T>) -> Option<T> {
    if written is Some {
        written
    } else {
        before
    }
}

impl<T> OutSlot<T> {
    /// Whether the slot holds a value.
    pub open spec fn is_init(&self) -> bool {
        self@ is Some
    }

    /// A slot that holds nothing yet.
    pub fn uninit() -> (slot: Self)
        ensures
            slot@ is None,
    {
        OutSlot { contents: None }
    }

    /// A slot that already holds `value`.
    pub fn new(value: T) -> (slot: Self)
        ensures
            slot@ == Some(value),
    {
        OutSlot { contents: Some(value) }
    }

    /// Stores `value` in the slot. This is the callee's side of a call.
    pub fn write(&mut self, value: T)
        ensures
            final(self)@ == Some(value),
    {
        self.contents = Some(value);
    }

    /// Takes the value out of a slot that holds one. A slot that was never
    /// written cannot be read: the precondition rules it out.
    pub fn assume_init(self) -> (value: T)
        requires
            self.is_init(),
        ensures
            self@ == Some(value),
    {
        match self.contents {
            Some(value) => value,
            None => vstd::pervasive::unreached(),
        }
    }
}

impl OutSlot<u64> {
    /// A slot filled with zero bytes.
    pub fn zeroed() -> (slot: Self)
        ensures
            slot@ == Some(0u64),
    {
        OutSlot { contents: Some(0) }
    }
}

} // verus!
