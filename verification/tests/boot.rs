use uefi::boot::{BootServices, HandleEntry, ProtocolInterface, SystemTable};
use uefi::guid::{Guid, Identify, LoadedImage, Output, LOADED_IMAGE_GUID, TEXT_OUTPUT_GUID};
use uefi::handle::{Event, Handle};
use uefi::protocol_checks::{find_protocol, test_protocols_per_handle, TestFailure};
use uefi::status::Status;

fn handle(raw: u64) -> Handle {
    Handle::from_raw(raw).unwrap()
}

fn entry(raw: u64, protocols: &[(u128, u64)]) -> HandleEntry {
    HandleEntry {
        handle: handle(raw),
        protocols: protocols
            .iter()
            .map(|(value, interface)| ProtocolInterface {
                guid: Guid { value: *value },
                interface: *interface,
            })
            .collect(),
    }
}

const OTHER: u128 = 0x1234;

fn database() -> BootServices {
    BootServices::new(vec![
        entry(0x10, &[(TEXT_OUTPUT_GUID, 0x5000)]),
        entry(0x20, &[(OTHER, 0x6000), (LOADED_IMAGE_GUID, 0x6100)]),
        entry(0x30, &[]),
        entry(0x40, &[(OTHER, 0x7000), (TEXT_OUTPUT_GUID, 0x7100)]),
    ])
}

#[test]
fn handle_from_raw_rejects_null_only() {
    assert_eq!(Handle::from_raw(0), None);
    assert_eq!(Handle::from_raw(7).unwrap().as_raw(), 7);
    assert_eq!(Event::from_raw(0), None);
    assert_eq!(Event::from_raw(9).unwrap().as_raw(), 9);
    assert_eq!(handle(5), handle(5));
    assert_ne!(handle(5), handle(6));
}

#[test]
fn protocol_identifiers() {
    assert_eq!(LoadedImage::guid().value, 0x5b1b31a1_9562_11d2_8e3f_00a0c969723b);
    assert_eq!(Output::guid().value, 0x387477c2_69c7_11d2_8e39_00a0c969723b);
}

#[test]
fn interface_is_that_of_the_first_matching_protocol() {
    let e = entry(1, &[(OTHER, 1), (TEXT_OUTPUT_GUID, 2), (TEXT_OUTPUT_GUID, 3)]);
    assert_eq!(e.interface(&Guid { value: TEXT_OUTPUT_GUID }), Some(2));
    assert_eq!(e.interface(&Guid { value: LOADED_IMAGE_GUID }), None);
}

#[test]
fn locate_handles_keeps_database_order() {
    let bt = database();
    assert_eq!(bt.locate_handles(&Guid { value: TEXT_OUTPUT_GUID }), vec![handle(0x10), handle(0x40)]);
    assert_eq!(bt.locate_handles(&Guid { value: OTHER }), vec![handle(0x20), handle(0x40)]);
    assert_eq!(bt.locate_handles(&Guid { value: LOADED_IMAGE_GUID }), vec![handle(0x20)]);
}

#[test]
fn locate_handles_may_find_none() {
    let bt = database();
    assert_eq!(bt.locate_handles(&Guid { value: 0x9999 }), vec![]);
    assert_eq!(BootServices::new(vec![]).find_handles::<Output>(), Ok(vec![]));
}

#[test]
fn find_handles_uses_the_identifier_of_the_type() {
    let bt = database();
    assert_eq!(bt.find_handles::<Output>(), Ok(vec![handle(0x10), handle(0x40)]));
    assert_eq!(bt.find_handles::<LoadedImage>(), Ok(vec![handle(0x20)]));
}

#[test]
fn protocols_per_handle_lists_in_installation_order() {
    let bt = database();
    assert_eq!(
        bt.protocols_per_handle(handle(0x20)),
        Ok(vec![Guid { value: OTHER }, Guid { value: LOADED_IMAGE_GUID }])
    );
    assert_eq!(bt.protocols_per_handle(handle(0x30)), Ok(vec![]));
}

#[test]
fn protocols_per_handle_of_unknown_handle_is_invalid_parameter() {
    let bt = database();
    assert_eq!(bt.protocols_per_handle(handle(0x99)), Err(Status::InvalidParameter));
}

#[test]
fn open_protocol_yields_the_interface_address() {
    let bt = database();
    assert_eq!(bt.open_protocol(handle(0x40), &Guid { value: TEXT_OUTPUT_GUID }), Ok(0x7100));
    assert_eq!(bt.open_protocol(handle(0x20), &Guid { value: OTHER }), Ok(0x6000));
}

#[test]
fn open_protocol_on_handle_without_it_is_not_found() {
    let bt = database();
    assert_eq!(
        bt.open_protocol(handle(0x10), &Guid { value: LOADED_IMAGE_GUID }),
        Err(Status::NotFound)
    );
    assert_eq!(bt.open_protocol(handle(0x30), &Guid { value: OTHER }), Err(Status::NotFound));
    assert_eq!(bt.open_protocol(handle(0x99), &Guid { value: OTHER }), Err(Status::NotFound));
}

#[test]
fn find_protocol_passes_with_a_console() {
    assert_eq!(find_protocol(&database()), Ok(()));
}

#[test]
fn find_protocol_fails_without_a_console() {
    let bt = BootServices::new(vec![entry(0x20, &[(LOADED_IMAGE_GUID, 1)])]);
    assert_eq!(find_protocol(&bt), Err(TestFailure::NoTextOutput));
}

#[test]
fn per_handle_check_passes_for_a_loaded_image() {
    assert_eq!(test_protocols_per_handle(handle(0x20), &database()), Ok(()));
}

#[test]
fn per_handle_check_fails_without_loaded_image() {
    assert_eq!(
        test_protocols_per_handle(handle(0x10), &database()),
        Err(TestFailure::NoLoadedImage)
    );
    assert_eq!(
        test_protocols_per_handle(handle(0x30), &database()),
        Err(TestFailure::NoLoadedImage)
    );
}

#[test]
fn per_handle_check_fails_for_unknown_image() {
    assert_eq!(
        test_protocols_per_handle(handle(0x99), &database()),
        Err(TestFailure::ProtocolsUnavailable(Status::InvalidParameter))
    );
}

#[test]
fn self_check_runs_both_checks_in_order() {
    let mut st = SystemTable { boot: database() };
    assert_eq!(uefi::protocol_checks::test(handle(0x20), &mut st), Ok(()));
    assert_eq!(uefi::protocol_checks::test(handle(0x10), &mut st), Err(TestFailure::NoLoadedImage));
    assert_eq!(st.boot.handles.len(), 4);

    let mut without_console =
        SystemTable { boot: BootServices::new(vec![entry(0x20, &[(LOADED_IMAGE_GUID, 1)])]) };
    assert_eq!(uefi::protocol_checks::test(handle(0x20), &mut without_console), Err(TestFailure::NoTextOutput));
    assert_eq!(uefi::protocol_checks::test(handle(0x99), &mut without_console), Err(TestFailure::NoTextOutput));
}

#[test]
fn boot_services_are_reached_through_the_system_table() {
    let st = SystemTable { boot: database() };
    assert_eq!(st.boot_services().handles.len(), 4);
}
