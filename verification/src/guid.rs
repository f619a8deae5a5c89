//! Protocol identifiers.

use vstd::prelude::*;
use crate::shell::SHELL_GUID;
use crate::shell_params::SHELL_PARAMETERS_GUID;

verus! {

/// A 128-bit identifier that names one protocol's binary contract.
#[derive(Clone, Copy, Debug, PartialEq, Eq, Structural)]
pub struct Guid {
    /// The identifier, its text form read as one hexadecimal number.
    pub value: u128,
}

/// A type that is bound to one protocol identifier. The identifier is fixed
/// per type and never derived at run time.
pub trait Identify {
    /// The identifier of the protocol.
    spec fn spec_guid() -> Guid;

    /// The identifier of the protocol.
    fn guid() -> (guid: Guid)
        ensures
            guid == Self::spec_guid(),
    ;
}

/// Identifier of the loaded image protocol.
pub const LOADED_IMAGE_GUID: u128 = 0x5b1b31a1_9562_11d2_8e3f_00a0c969723b;

/// Identifier of the simple text output protocol.
pub const TEXT_OUTPUT_GUID: u128 = 0x387477c2_69c7_11d2_8e39_00a0c969723b;

/// The loaded image protocol, as an identifier only.
#[derive(Debug)]
pub struct LoadedImage {}

/// The simple text output protocol, as an identifier only.
#[derive(Debug)]
pub struct Output {}

impl Identify for LoadedImage {
    open spec fn spec_guid() -> Guid {
        Guid { value: LOADED_IMAGE_GUID }
    }

    fn guid() -> (guid: Guid) {
        Guid { value: LOADED_IMAGE_GUID }
    }
}

impl Identify for Output {
    open spec fn spec_guid() -> Guid {
        Guid { value: TEXT_OUTPUT_GUID }
    }

    fn guid() -> (guid: Guid) {
        Guid { value: TEXT_OUTPUT_GUID }
    }
}

/// No two of the protocols known here share an identifier, so a table
/// that was resolved for one is never read under the layout of another.
pub proof fn lemma_identifiers_are_distinct()
    ensures
        LOADED_IMAGE_GUID != TEXT_OUTPUT_GUID,
        LOADED_IMAGE_GUID != SHELL_GUID,
        LOADED_IMAGE_GUID != SHELL_PARAMETERS_GUID,
        TEXT_OUTPUT_GUID != SHELL_GUID,
        TEXT_OUTPUT_GUID != SHELL_PARAMETERS_GUID,
        SHELL_GUID != SHELL_PARAMETERS_GUID,
{
}

} // verus!
