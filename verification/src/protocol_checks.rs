//! Self-checks of protocol resolution on a running system: that a console
//! is present, and that the running image is known as a loaded image.

use vstd::prelude::*;
use crate::boot::{find_entry, BootServices, ProtocolInterface, SystemTable};
use crate::guid::{Guid, Identify, LoadedImage, Output};
use crate::handle::Handle;
use crate::status::Status;

verus! {

/// Why a self-check did not pass.
#[derive(Clone, Copy, Debug, PartialEq, Eq, Structural)]
pub enum TestFailure {
    /// The list of handles could not be retrieved.
    HandlesUnavailable(Status),
    /// No handle implements simple text output.
    NoTextOutput,
    /// The protocols of the image handle could not be listed.
    ProtocolsUnavailable(Status),
    /// The image handle does not carry the loaded image protocol.
    NoLoadedImage,
}

/// The identifiers of the protocols in `protocols`, in order.
pub open spec fn guids_of(protocols: Seq<ProtocolInterface>) -> Seq<Guid> {
    protocols.map_values(|protocol: ProtocolInterface| protocol.guid)
}

/// What the console check finds on a handle database.
pub open spec fn text_output_outcome(bt: &BootServices) -> Result<(), TestFailure> {
    if bt.handles_exposing(Output::spec_guid()).len() > 0 {
        Ok(())
    } else {
        Err(TestFailure::NoTextOutput)
    }
}

/// What the loaded image check finds for `image` on a handle database.
pub open spec fn loaded_image_outcome(image: Handle, bt: &BootServices) -> Result<
    (),
    TestFailure,
> {
    match find_entry(bt.handles@, image) {
        None => Err(TestFailure::ProtocolsUnavailable(Status::InvalidParameter)),
        Some(entry) => if guids_of(entry.protocols@).contains(LoadedImage::spec_guid()) {
            Ok(())
        } else {
            Err(TestFailure::NoLoadedImage)
        },
    }
}

/// Checks that at least one handle implements simple text output.
pub fn find_protocol(bt: &BootServices) -> (outcome: Result<(), TestFailure>)
    ensures
        outcome == text_output_outcome(bt),
{
    match bt.find_handles::<Output>() {
        Err(status) => Err(TestFailure::HandlesUnavailable(status)),
        Ok(handles) => if handles.len() > 0 {
            Ok(())
        } else {
            Err(TestFailure::NoTextOutput)
        },
    }
}

/// Checks that one of the protocols of the image handle is the loaded
/// image protocol.
pub fn test_protocols_per_handle(image: Handle, bt: &BootServices) -> (outcome: Result<
    (),
    TestFailure,
>)
    ensures
        outcome == loaded_image_outcome(image, bt),
{
    match bt.protocols_per_handle(image) {
        Err(status) => Err(TestFailure::ProtocolsUnavailable(status)),
        Ok(pph) => {
            let wanted: Guid = LoadedImage::guid();
            let ghost listed = guids_of(find_entry(bt.handles@, image).unwrap().protocols@);
            let mut i: usize = 0;
            while i < pph.len()
                invariant
                    i <= pph@.len(),
                    pph@ == listed,
                    wanted == LoadedImage::spec_guid(),
                    find_entry(bt.handles@, image) is Some,
                    listed == guids_of(find_entry(bt.handles@, image).unwrap().protocols@),
                    forall|j: int| 0 <= j < i ==> pph@[j] != wanted,
                decreases pph@.len() - i,
            {
                if pph[i] == wanted {
                    assert(listed[i as int] == wanted);
                    return Ok(());
                }
                i = i + 1;
            }
            Err(TestFailure::NoLoadedImage)
        },
    }
}

/// Runs the protocol self-checks for the image `image`: first the console
/// check, then the loaded image check. The first failure is returned, and
/// the system table is left as it was.
pub fn test(image: Handle, st: &mut SystemTable) -> (outcome: Result<(), TestFailure>)
    ensures
        *final(st) == *old(st),
        outcome == match text_output_outcome(&old(st).boot) {
            Err(failure) => Err(failure),
            Ok(_) => loaded_image_outcome(image, &old(st).boot),
        },
{
    let bt: &BootServices = st.boot_services();
    match find_protocol(bt) {
        Err(failure) => Err(failure),
        Ok(_) => test_protocols_per_handle(image, bt),
    }
}

} // verus!
