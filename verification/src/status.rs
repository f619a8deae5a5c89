//! Firmware status codes and their unification with `Result`.
//!
//! Every firmware call reports its outcome as one machine word. This module
//! classifies that word and provides the two combinators through which every
//! marshalled call turns it into a `Result`.

use vstd::prelude::*;

verus! {

/// Raw code of a call that succeeded.
pub const RAW_SUCCESS: u64 = 0;

/// Raw code: a parameter was incorrect.
pub const RAW_INVALID_PARAMETER: u64 = 0x8000_0000_0000_0002;

/// Raw code: the operation is not supported.
pub const RAW_UNSUPPORTED: u64 = 0x8000_0000_0000_0003;

/// Raw code: the buffer is too small to hold the requested data.
pub const RAW_BUFFER_TOO_SMALL: u64 = 0x8000_0000_0000_0005;

/// Raw code: the physical device reported an error.
pub const RAW_DEVICE_ERROR: u64 = 0x8000_0000_0000_0007;

/// Raw code: a resource has run out.
pub const RAW_OUT_OF_RESOURCES: u64 = 0x8000_0000_0000_0009;

/// Raw code: the item was not found.
pub const RAW_NOT_FOUND: u64 = 0x8000_0000_0000_000e;

/// Raw code: access was denied.
pub const RAW_ACCESS_DENIED: u64 = 0x8000_0000_0000_000f;

/// The outcome of a firmware call.
#[derive(Clone, Copy, Debug, PartialEq, Eq, Structural)]
pub enum Status {
    /// The call completed without error.
    Success,
    /// The item was not found.
    NotFound,
    /// The buffer is too small to hold the requested data.
    BufferTooSmall,
    /// A parameter was incorrect.
    InvalidParameter,
    /// Access was denied.
    AccessDenied,
    /// The physical device reported an error.
    DeviceError,
    /// The operation is not supported.
    Unsupported,
    /// A resource has run out.
    OutOfResources,
    /// Any other firmware error; the raw code is kept for diagnostics.
    Other(u64),
}

/// The result of a marshalled firmware call: a value on success, the
/// firmware's status on failure.
pub type Result<T> = core::result::Result<T, Status>;

/// Whether `raw` is the code of one of the named statuses.
pub open spec fn is_named_code(raw: u64) -> bool {
    ||| raw == RAW_SUCCESS
    ||| raw == RAW_NOT_FOUND
    ||| raw == RAW_BUFFER_TOO_SMALL
    ||| raw == RAW_INVALID_PARAMETER
    ||| raw == RAW_ACCESS_DENIED
    ||| raw == RAW_DEVICE_ERROR
    ||| raw == RAW_UNSUPPORTED
    ||| raw == RAW_OUT_OF_RESOURCES
}

/// The status that a raw code stands for.
pub open spec fn status_of_raw(raw: u64) -> Status {
    if raw == RAW_SUCCESS {
        Status::Success
    } else if raw == RAW_NOT_FOUND {
        Status::NotFound
    } else if raw == RAW_BUFFER_TOO_SMALL {
        Status::BufferTooSmall
    } else if raw == RAW_INVALID_PARAMETER {
        Status::InvalidParameter
    } else if raw == RAW_ACCESS_DENIED {
        Status::AccessDenied
    } else if raw == RAW_DEVICE_ERROR {
        Status::DeviceError
    } else if raw == RAW_UNSUPPORTED {
        Status::Unsupported
    } else if raw == RAW_OUT_OF_RESOURCES {
        Status::OutOfResources
    } else {
        Status::Other(raw)
    }
}

impl Status {
    /// The raw code of this status.
    pub open spec fn raw(self) -> u64 {
        match self {
            Status::Success => RAW_SUCCESS,
            Status::NotFound => RAW_NOT_FOUND,
            Status::BufferTooSmall => RAW_BUFFER_TOO_SMALL,
            Status::InvalidParameter => RAW_INVALID_PARAMETER,
            Status::AccessDenied => RAW_ACCESS_DENIED,
            Status::DeviceError => RAW_DEVICE_ERROR,
            Status::Unsupported => RAW_UNSUPPORTED,
            Status::OutOfResources => RAW_OUT_OF_RESOURCES,
            Status::Other(raw) => raw,
        }
    }

    /// A status is canonical when it is the one that classification gives to
    /// its own raw code: the catch-all never carries a named code.
    pub open spec fn is_canonical(self) -> bool {
        self matches Status::Other(raw) ==> !is_named_code(raw)
    }

    /// Whether this status reports success.
    pub open spec fn succeeded(self) -> bool {
        self is Success
    }

    /// What a call that produces no value returns for this status.
    pub open spec fn unit_result(self) -> Result<()> {
        if self.succeeded() {
            Ok(())
        } else {
            Err(self)
        }
    }

    /// Classifies a raw code: zero is success, each named code is its
    /// category, and every other code is kept whole in the catch-all.
    pub fn from_raw(raw: u64) -> (status: Status)
        ensures
            status == status_of_raw(raw),
            status.is_canonical(),
            status.raw() == raw,
            status.succeeded() <==> raw == 0,
    {
        if raw == RAW_SUCCESS {
            Status::Success
        } else if raw == RAW_NOT_FOUND {
            Status::NotFound
        } else if raw == RAW_BUFFER_TOO_SMALL {
            Status::BufferTooSmall
        } else if raw == RAW_INVALID_PARAMETER {
            Status::InvalidParameter
        } else if raw == RAW_ACCESS_DENIED {
            Status::AccessDenied
        } else if raw == RAW_DEVICE_ERROR {
            Status::DeviceError
        } else if raw == RAW_UNSUPPORTED {
            Status::Unsupported
        } else if raw == RAW_OUT_OF_RESOURCES {
            Status::OutOfResources
        } else {
            Status::Other(raw)
        }
    }

    /// The raw code that the firmware uses for this status.
    pub fn to_raw(self) -> (raw: u64)
        ensures
            raw == self.raw(),
    {
        match self {
            Status::Success => RAW_SUCCESS,
            Status::NotFound => RAW_NOT_FOUND,
            Status::BufferTooSmall => RAW_BUFFER_TOO_SMALL,
            Status::InvalidParameter => RAW_INVALID_PARAMETER,
            Status::AccessDenied => RAW_ACCESS_DENIED,
            Status::DeviceError => RAW_DEVICE_ERROR,
            Status::Unsupported => RAW_UNSUPPORTED,
            Status::OutOfResources => RAW_OUT_OF_RESOURCES,
            Status::Other(raw) => raw,
        }
    }

    /// Whether this status reports success.
    pub fn is_success(self) -> (ok: bool)
        ensures
            ok == self.succeeded(),
    {
        match self {
            Status::Success => true,
            _ => false,
        }
    }

    /// Whether this status reports a failure.
    pub fn is_error(self) -> (failed: bool)
        ensures
            failed == !self.succeeded(),
    {
        !self.is_success()
    }

    /// Converts the status of a call that produces no value: success becomes
    /// `Ok(())`, every failure becomes `Err` of that same status.
    pub fn into_result(self) -> (r: Result<()>)
        ensures
            r == self.unit_result(),
    {
        if self.is_success() {
            Ok(())
        } else {
            Err(self)
        }
    }

    /// Converts the status of a call that produces a value.
    ///
    /// `val` reads the call's output, which the firmware has filled in only
    /// if it reported success. It is therefore run on success alone: its
    /// precondition is owed only then, and on failure the status is returned
    /// without `val` being evaluated.
    pub fn into_with_val<T, F: FnOnce() -> T>(self, val: F) -> (r: Result<T>)
        requires
            self.succeeded() ==> val.requires(()),
        ensures
            self.succeeded() ==> (r matches Ok(v) && val.ensures((), v)),
            !self.succeeded() ==> r == Err::<T, Status>(self),
    {
        if self.is_success() {
            Ok(val())
        } else {
            Err(self)
        }
    }
}

/// Classifying the raw code of a canonical status gives that status back.
pub proof fn lemma_status_round_trip(status: Status)
    requires
        status.is_canonical(),
    ensures
        status_of_raw(status.raw()) == status,
{
}

/// A raw code survives classification: the status it is classified as
/// carries exactly that code, named or not.
pub proof fn lemma_raw_round_trip(raw: u64)
    ensures
        status_of_raw(raw).raw() == raw,
        status_of_raw(raw).is_canonical(),
        !is_named_code(raw) ==> status_of_raw(raw) == Status::Other(raw),
{
}

} // verus!
