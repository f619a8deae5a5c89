//! Strings of 16-bit units with a terminating zero, as the firmware takes
//! them.

use vstd::prelude::*;

verus! {

/// Whether `units` is a string with its terminator: the last unit is zero
/// and no other unit is.
pub open spec fn is_terminated(units: Seq<u16>) -> bool {
    &&& units.len() > 0
    &&& units.last() == 0
    &&& forall|i: int| 0 <= i < units.len() - 1 ==> #[trigger] units[i] != 0
}

/// Tells whether `units` ends in the only zero it holds.
pub fn ends_in_terminator(units: &[u16]) -> (terminated: bool)
    ensures
        terminated == is_terminated(units@),
{
    let len: usize = units.len();
    if len == 0 {
        return false;
    }
    if units[len - 1] != 0 {
        return false;
    }
    let mut i: usize = 0;
    while i < len - 1
        invariant
            len == units@.len(),
            len > 0,
            i <= len - 1,
            forall|j: int| 0 <= j < i ==> #[trigger] units@[j] != 0,
        decreases len - i,
    {
        if units[i] == 0 {
            return false;
        }
        i = i + 1;
    }
    true
}

/// A string of 16-bit units that ends in a terminating zero and holds no
/// other zero.
#[derive(Debug)]
pub struct CStr16 {
    units: Vec<u16>,
}

impl View for CStr16 {
    type V = Seq<u16>;

    /// The units of the string, without the terminator.
    closed spec fn view(&self) -> Seq<u16> {
        self.units@.drop_last()
    }
}

impl CStr16 {
    #[verifier::type_invariant]
    spec fn terminated(&self) -> bool {
        is_terminated(self.units@)
    }

    /// Makes a string of `units`, which must end in the only zero.
    pub fn from_u16_with_nul(units: Vec<u16>) -> (string: Option<CStr16>)
        ensures
            string is Some <==> is_terminated(units@),
            string matches Some(s) ==> s@.push(0) == units@,
    {
        if !ends_in_terminator(units.as_slice()) {
            return None;
        }
        let string = CStr16 { units };
        assert(string@.push(0) =~= units@);
        Some(string)
    }

    /// The units of the string, without the terminator.
    pub fn to_u16_slice(&self) -> (units: &[u16])
        ensures
            units@ == self@,
    {
        proof {
            use_type_invariant(self);
        }
        let len: usize = self.units.len();
        let units: &[u16] = vstd::slice::slice_subrange(self.units.as_slice(), 0, len - 1);
        assert(units@ =~= self@);
        units
    }

    /// The units of the string with the terminator, as the firmware
    /// expects to find them behind a string pointer.
    pub fn to_u16_slice_with_nul(&self) -> (units: &[u16])
        ensures
            units@ == self@.push(0),
            is_terminated(units@),
    {
        proof {
            use_type_invariant(self);
            assert(self.units@ =~= self@.push(0));
        }
        self.units.as_slice()
    }
}

} // verus!
