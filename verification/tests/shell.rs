use uefi::boot::{BootServices, HandleEntry, ProtocolInterface};
use uefi::guid::{Guid, Identify};
use uefi::handle::{Event, Handle};
use uefi::memory::FirmwareMemory;
use uefi::ram_shell::RamShell;
use uefi::shell::{
    finish_execute, finish_find_files, finish_get_file_size, finish_open, finish_transfer,
    marshal_environment, Shell, SHELL_GUID,
};
use uefi::shell_file::{
    FileInfo, FileOpenMode, ShellFileHandle, FILE_MODE_CREATE, FILE_MODE_READ, FILE_MODE_WRITE,
};
use uefi::slot::OutSlot;
use uefi::status::Status;
use uefi::text::CStr16;

const BASE: u64 = 0x8000;
const TABLE: u64 = BASE;
const HEAD: u64 = BASE + 360;
const INFO: u64 = HEAD + 16 + 3 * 56;
const SIZE: usize = 360 + 16 + 3 * 56 + 80;

fn units(text: &str) -> Vec<u16> {
    text.encode_utf16().collect()
}

fn path(text: &str) -> Vec<u16> {
    let mut units = units(text);
    units.push(0);
    units
}

fn cstr(text: &str) -> CStr16 {
    CStr16::from_u16_with_nul(path(text)).unwrap()
}

fn put(bytes: &mut Vec<u8>, addr: u64, value: u64) {
    let at = (addr - BASE) as usize;
    bytes[at..at + 8].copy_from_slice(&value.to_le_bytes());
}

fn put32(bytes: &mut Vec<u8>, addr: u64, value: u32) {
    let at = (addr - BASE) as usize;
    bytes[at..at + 4].copy_from_slice(&value.to_le_bytes());
}

// The shell table with version 2.2, a list of three records and one
// metadata block.
fn memory() -> FirmwareMemory {
    let mut bytes = vec![0u8; SIZE];
    put(&mut bytes, TABLE + 312, 0xe000);
    put32(&mut bytes, TABLE + 320, 2);
    put32(&mut bytes, TABLE + 324, 2);
    let node = |k: u64| HEAD + 16 + 56 * k;
    put(&mut bytes, HEAD, node(0));
    for k in 0..3u64 {
        put(&mut bytes, node(k), if k < 2 { node(k + 1) } else { 0 });
        put(&mut bytes, node(k) + 8, if k == 0 { HEAD } else { node(k - 1) });
        put(&mut bytes, node(k) + 24, 0x100 + k);
        put(&mut bytes, node(k) + 32, 0x200 + k);
    }
    put(&mut bytes, INFO, 96);
    put(&mut bytes, INFO + 8, 1234);
    put(&mut bytes, INFO + 16, 4096);
    put(&mut bytes, INFO + 72, 0x20);
    FirmwareMemory::new(BASE, bytes)
}

fn shell() -> Shell<RamShell> {
    Shell::bind(RamShell::new(memory()), TABLE)
}

fn shell_with_file(name: &str, data: &[u8]) -> Shell<RamShell> {
    let mut firmware = RamShell::new(memory());
    assert!(firmware.install_file(units(name), data.to_vec(), 0));
    Shell::bind(firmware, TABLE)
}

#[test]
fn shell_identifier() {
    assert_eq!(Shell::<RamShell>::guid(), Guid { value: SHELL_GUID });
    assert_eq!(SHELL_GUID, 0x6302d008_7f9b_4f30_87ac_60c9fef5da4e);
}

#[test]
fn bind_reads_the_data_fields_at_their_offsets() {
    let shell = shell();
    assert_eq!(shell.execution_break, Event::from_raw(0xe000));
    assert_eq!(shell.major_version, 2);
    assert_eq!(shell.minor_version, 2);
}

#[test]
fn open_binds_the_table_that_resolution_yields() {
    let bt = BootServices::new(vec![HandleEntry {
        handle: Handle::from_raw(0x10).unwrap(),
        protocols: vec![ProtocolInterface { guid: Guid { value: SHELL_GUID }, interface: TABLE }],
    }]);
    let shell = Shell::open(&bt, Handle::from_raw(0x10).unwrap(), RamShell::new(memory())).unwrap();
    assert_eq!(shell.major_version, 2);
}

#[test]
fn open_on_handle_without_the_protocol_is_not_found() {
    let bt = BootServices::new(vec![HandleEntry {
        handle: Handle::from_raw(0x10).unwrap(),
        protocols: vec![ProtocolInterface { guid: Guid { value: 0x77 }, interface: TABLE }],
    }]);
    let opened = Shell::open(&bt, Handle::from_raw(0x10).unwrap(), RamShell::new(memory()));
    assert_eq!(opened.err(), Some(Status::NotFound));
    let unknown = Shell::open(&bt, Handle::from_raw(0x11).unwrap(), RamShell::new(memory()));
    assert_eq!(unknown.err(), Some(Status::NotFound));
}

#[test]
fn file_open_mode_bits() {
    assert_eq!(FileOpenMode::Read.bits(), 0x0000000000000001);
    assert_eq!(FileOpenMode::Write.bits(), 0x0000000000000002);
    assert_eq!(FileOpenMode::Create.bits(), 0x8000000000000000);
    assert_eq!(FILE_MODE_CREATE, 1u64 << 63);
    let mode = FileOpenMode::Read.bits() | FileOpenMode::Create.bits();
    assert!(FileOpenMode::Read.is_set_in(mode));
    assert!(!FileOpenMode::Write.is_set_in(mode));
    assert!(FileOpenMode::Create.is_set_in(mode));
}

#[test]
fn null_raw_file_handle_is_absent() {
    assert_eq!(ShellFileHandle::from_raw(0), None);
    assert_eq!(ShellFileHandle::from_raw(3).unwrap().as_raw(), 3);
}

#[test]
fn failure_leaves_the_output_unread() {
    assert_eq!(finish_execute(Status::DeviceError, OutSlot::uninit()), Err(Status::DeviceError));
    assert_eq!(finish_find_files(Status::NotFound, OutSlot::uninit()), Err(Status::NotFound));
    assert_eq!(finish_open(Status::AccessDenied, OutSlot::uninit()), Err(Status::AccessDenied));
    assert_eq!(
        finish_get_file_size(Status::Unsupported, OutSlot::uninit()),
        Err(Status::Unsupported)
    );
    assert_eq!(finish_transfer(Status::BufferTooSmall, 99), Err(Status::BufferTooSmall));
}

#[test]
fn failure_hides_an_output_that_was_written() {
    assert_eq!(finish_execute(Status::Other(5), OutSlot::new(0)), Err(Status::Other(5)));
    assert_eq!(finish_open(Status::OutOfResources, OutSlot::new(7)), Err(Status::OutOfResources));
    assert_eq!(finish_get_file_size(Status::NotFound, OutSlot::new(7)), Err(Status::NotFound));
    assert_eq!(finish_find_files(Status::DeviceError, OutSlot::new(7)), Err(Status::DeviceError));
}

#[test]
fn success_reads_the_output() {
    assert_eq!(
        finish_execute(Status::Success, OutSlot::new(0x8000_0000_0000_000e)),
        Ok(Status::NotFound)
    );
    assert_eq!(finish_execute(Status::Success, OutSlot::new(0)), Ok(Status::Success));
    assert_eq!(finish_get_file_size(Status::Success, OutSlot::new(77)), Ok(77));
    assert_eq!(finish_transfer(Status::Success, 12), Ok(12));
    assert_eq!(finish_find_files(Status::Success, OutSlot::new(0x40)), Ok(Some(0x40)));
    assert_eq!(finish_find_files(Status::Success, OutSlot::new(0)), Ok(None));
}

#[test]
fn success_with_null_handle_is_ok_none() {
    assert_eq!(finish_open(Status::Success, OutSlot::zeroed()), Ok(None));
    assert_eq!(finish_open(Status::Success, OutSlot::new(5)), Ok(ShellFileHandle::from_raw(5)));
}

#[test]
fn environment_is_marshalled_in_order_with_terminators() {
    let a = cstr("A=1");
    let b = cstr("");
    let c = cstr("PATH=fs0:");
    let environment = [&a, &b, &c];
    let raw = marshal_environment(&environment);
    assert_eq!(raw.len(), 3);
    assert_eq!(raw[0], path("A=1").as_slice());
    assert_eq!(raw[1], &[0u16]);
    assert_eq!(raw[2], path("PATH=fs0:").as_slice());
    assert!(marshal_environment(&[]).is_empty());
}

#[test]
fn execute_returns_the_status_of_the_command() {
    let mut firmware = RamShell::new(memory());
    firmware.install_command(units("ls"), Status::Success);
    firmware.install_command(units("fail"), Status::DeviceError);
    let mut shell = Shell::bind(firmware, TABLE);
    let image = Handle::from_raw(1).unwrap();
    let variable = cstr("A=1");
    assert_eq!(shell.execute(image, &cstr("ls"), &[&variable]), Ok(Status::Success));
    assert_eq!(shell.execute(image, &cstr("fail"), &[]), Ok(Status::DeviceError));
}

#[test]
fn execute_of_unknown_command_fails() {
    let mut shell = shell();
    let image = Handle::from_raw(1).unwrap();
    assert_eq!(shell.execute(image, &cstr("ls"), &[]), Err(Status::NotFound));
}

#[test]
fn batch_is_active_reports_the_firmware_flag() {
    let mut firmware = RamShell::new(memory());
    assert!(!Shell::bind(RamShell::new(memory()), TABLE).batch_is_active());
    firmware.set_batch_active(true);
    assert!(Shell::bind(firmware, TABLE).batch_is_active());
}

#[test]
fn page_break_is_switched() {
    let mut shell = shell();
    assert!(!shell.table.page_break_enabled());
    shell.enable_page_break();
    assert!(shell.table.page_break_enabled());
    shell.enable_page_break();
    assert!(shell.table.page_break_enabled());
    shell.disable_page_break();
    assert!(!shell.table.page_break_enabled());
    assert_eq!(shell.major_version, 2);
}

#[test]
fn opening_a_missing_file_succeeds_without_a_handle() {
    let mut shell = shell();
    let opened = shell.open_file_by_name(&path("missing.txt"), FILE_MODE_READ);
    assert_eq!(opened, Ok(None));
}

#[test]
fn opening_with_create_makes_the_file() {
    let mut shell = shell();
    let mode = FILE_MODE_READ | FILE_MODE_WRITE | FILE_MODE_CREATE;
    let handle = shell.open_file_by_name(&path("new.txt"), mode).unwrap().unwrap();
    assert_eq!(shell.get_file_size(handle), Ok(0));
    let again = shell.open_file_by_name(&path("new.txt"), FILE_MODE_READ).unwrap();
    assert!(again.is_some());
    assert_ne!(again, Some(handle));
}

#[test]
fn opening_an_unterminated_path_is_invalid() {
    let mut shell = shell_with_file("a.txt", b"x");
    assert_eq!(
        shell.open_file_by_name(&units("a.txt"), FILE_MODE_READ),
        Err(Status::InvalidParameter)
    );
    assert_eq!(shell.open_file_by_name(&[], FILE_MODE_READ), Err(Status::InvalidParameter));
}

#[test]
fn create_file_opens_for_reading_and_writing() {
    let mut shell = shell();
    let handle = shell.create_file(&cstr("log"), 0).unwrap().unwrap();
    assert_eq!(shell.write_file(handle, b"abc"), Ok(3));
    let reader = shell.create_file(&cstr("log"), 0).unwrap().unwrap();
    let mut buffer = vec![0u8; 3];
    assert_eq!(shell.read_file(reader, &mut buffer), Ok(3));
    assert_eq!(buffer, b"abc");
}

#[test]
fn written_bytes_are_read_back() {
    let mut shell = shell_with_file("data.bin", b"");
    let both = FILE_MODE_READ | FILE_MODE_WRITE;
    let writer = shell.open_file_by_name(&path("data.bin"), both).unwrap().unwrap();
    let reader = shell.open_file_by_name(&path("data.bin"), FILE_MODE_READ).unwrap().unwrap();
    let data: Vec<u8> = (0..=255u8).collect();
    assert_eq!(shell.write_file(writer, &data), Ok(256));
    assert_eq!(shell.get_file_size(reader), Ok(256));
    let mut buffer = vec![0u8; 256];
    assert_eq!(shell.read_file(reader, &mut buffer), Ok(256));
    assert_eq!(buffer, data);
}

#[test]
fn overwriting_in_the_middle_keeps_the_rest() {
    let mut shell = shell_with_file("f", b"0123456789");
    let both = FILE_MODE_READ | FILE_MODE_WRITE;
    let handle = shell.open_file_by_name(&path("f"), both).unwrap().unwrap();
    let mut skip = vec![0u8; 3];
    assert_eq!(shell.read_file(handle, &mut skip), Ok(3));
    assert_eq!(shell.write_file(handle, b"abcd"), Ok(4));
    assert_eq!(shell.get_file_size(handle), Ok(10));
    let reader = shell.open_file_by_name(&path("f"), FILE_MODE_READ).unwrap().unwrap();
    let mut buffer = vec![0u8; 10];
    assert_eq!(shell.read_file(reader, &mut buffer), Ok(10));
    assert_eq!(buffer, b"012abcd789");
}

#[test]
fn writing_past_the_end_grows_the_file() {
    let mut shell = shell_with_file("f", b"0123");
    let both = FILE_MODE_READ | FILE_MODE_WRITE;
    let handle = shell.open_file_by_name(&path("f"), both).unwrap().unwrap();
    let mut skip = vec![0u8; 2];
    assert_eq!(shell.read_file(handle, &mut skip), Ok(2));
    assert_eq!(shell.write_file(handle, b"abcdef"), Ok(6));
    assert_eq!(shell.get_file_size(handle), Ok(8));
    assert_eq!(shell.table.files[0].data, b"01abcdef");
}

#[test]
fn short_read_reports_the_transferred_length() {
    let mut shell = shell_with_file("f", b"hello");
    let handle = shell.open_file_by_name(&path("f"), FILE_MODE_READ).unwrap().unwrap();
    let mut buffer = vec![0xffu8; 8];
    assert_eq!(shell.read_file(handle, &mut buffer), Ok(5));
    assert_eq!(buffer, b"hello\xff\xff\xff");
    assert_eq!(shell.read_file(handle, &mut buffer), Ok(0));
    assert_eq!(buffer, b"hello\xff\xff\xff");
}

#[test]
fn reads_continue_where_the_last_one_ended() {
    let mut shell = shell_with_file("f", b"abcdef");
    let handle = shell.open_file_by_name(&path("f"), FILE_MODE_READ).unwrap().unwrap();
    let mut buffer = vec![0u8; 4];
    assert_eq!(shell.read_file(handle, &mut buffer), Ok(4));
    assert_eq!(buffer, b"abcd");
    assert_eq!(shell.read_file(handle, &mut buffer), Ok(2));
    assert_eq!(buffer, b"efcd");
}

#[test]
fn write_to_a_file_opened_read_only_is_denied() {
    let mut shell = shell_with_file("ro.txt", b"keep");
    let handle = shell.open_file_by_name(&path("ro.txt"), FILE_MODE_READ).unwrap().unwrap();
    assert_eq!(shell.write_file(handle, b"lost"), Err(Status::AccessDenied));
    assert_eq!(shell.table.files[0].data, b"keep");
    let mut buffer = vec![0u8; 4];
    assert_eq!(shell.read_file(handle, &mut buffer), Ok(4));
    assert_eq!(buffer, b"keep");
}

#[test]
fn read_from_a_file_opened_write_only_is_denied() {
    let mut shell = shell_with_file("wo.txt", b"data");
    let handle = shell.open_file_by_name(&path("wo.txt"), FILE_MODE_WRITE).unwrap().unwrap();
    let mut buffer = vec![7u8; 4];
    assert_eq!(shell.read_file(handle, &mut buffer), Err(Status::AccessDenied));
    assert_eq!(buffer, vec![7u8; 4]);
}

#[test]
fn closed_handle_is_an_invalid_parameter() {
    let mut shell = shell_with_file("f", b"data");
    let both = FILE_MODE_READ | FILE_MODE_WRITE;
    let handle = shell.open_file_by_name(&path("f"), both).unwrap().unwrap();
    assert_eq!(shell.close_file(handle), Ok(()));
    let mut buffer = vec![0u8; 4];
    assert_eq!(shell.read_file(handle, &mut buffer), Err(Status::InvalidParameter));
    assert_eq!(shell.write_file(handle, b"x"), Err(Status::InvalidParameter));
    assert_eq!(shell.get_file_size(handle), Err(Status::InvalidParameter));
    assert_eq!(shell.delete_file(handle), Err(Status::InvalidParameter));
    assert_eq!(shell.close_file(handle), Ok(()));
}

#[test]
fn handle_that_was_never_handed_out_is_invalid() {
    let mut shell = shell_with_file("f", b"data");
    let stray = ShellFileHandle::from_raw(9).unwrap();
    assert_eq!(shell.get_file_size(stray), Err(Status::InvalidParameter));
    assert_eq!(shell.get_file_info(stray), None);
}

#[test]
fn get_file_size_is_the_length_of_the_contents() {
    let mut shell = shell_with_file("f", &[0u8; 1000]);
    let handle = shell.open_file_by_name(&path("f"), FILE_MODE_READ).unwrap().unwrap();
    assert_eq!(shell.get_file_size(handle), Ok(1000));
}

#[test]
fn delete_file_removes_the_file() {
    let mut shell = shell_with_file("f", b"data");
    let handle = shell.open_file_by_name(&path("f"), FILE_MODE_READ).unwrap().unwrap();
    let other = shell.open_file_by_name(&path("f"), FILE_MODE_READ).unwrap().unwrap();
    assert_eq!(shell.delete_file(handle), Ok(()));
    assert_eq!(shell.get_file_size(other), Err(Status::InvalidParameter));
    assert_eq!(shell.open_file_by_name(&path("f"), FILE_MODE_READ), Ok(None));
}

#[test]
fn delete_file_by_name_removes_the_file() {
    let mut shell = shell_with_file("f", b"data");
    assert_eq!(shell.delete_file_by_name(&cstr("f")), Ok(()));
    assert_eq!(shell.open_file_by_name(&path("f"), FILE_MODE_READ), Ok(None));
    assert_eq!(shell.delete_file_by_name(&cstr("f")), Err(Status::NotFound));
}

#[test]
fn find_files_walks_the_installed_list() {
    let mut firmware = RamShell::new(memory());
    assert!(firmware.install_listing(units("*.efi"), HEAD));
    let mut shell = Shell::bind(firmware, TABLE);
    let mut iter = shell.find_files(&cstr("*.efi")).unwrap().unwrap();
    assert_eq!(iter.next().unwrap().full_name, 0x100);
    assert_eq!(iter.next().unwrap().full_name, 0x101);
    assert_eq!(iter.next().unwrap().full_name, 0x102);
    assert_eq!(iter.next(), None);
    let all = shell.find_files(&cstr("*.efi")).unwrap().unwrap().collect();
    assert_eq!(all.len(), 3);
    assert_eq!(all[2].file_name, 0x202);
}

#[test]
fn find_files_without_a_match_is_ok_none() {
    let mut firmware = RamShell::new(memory());
    assert!(firmware.install_listing(units("*.efi"), HEAD));
    let mut shell = Shell::bind(firmware, TABLE);
    assert!(shell.find_files(&cstr("*.txt")).unwrap().is_none());
}

#[test]
fn malformed_list_is_not_installed() {
    let mut firmware = RamShell::new(memory());
    assert!(!firmware.install_listing(units("a"), 0));
    assert!(!firmware.install_listing(units("a"), HEAD + 4));
    assert!(!firmware.install_listing(units("a"), BASE + SIZE as u64));
    let mut looped = memory();
    let last = (HEAD + 16 + 2 * 56 - BASE) as usize;
    looped.bytes[last..last + 8].copy_from_slice(&(HEAD + 16).to_le_bytes());
    let mut firmware = RamShell::new(looped);
    assert!(!firmware.install_listing(units("a"), HEAD));
    assert!(firmware.listings.is_empty());
}

#[test]
fn get_file_info_reads_the_block() {
    let mut firmware = RamShell::new(memory());
    assert!(firmware.install_file(units("f"), vec![], INFO));
    assert!(firmware.install_file(units("g"), vec![], 0));
    let mut shell = Shell::bind(firmware, TABLE);
    let f = shell.open_file_by_name(&path("f"), FILE_MODE_READ).unwrap().unwrap();
    let g = shell.open_file_by_name(&path("g"), FILE_MODE_READ).unwrap().unwrap();
    assert_eq!(
        shell.get_file_info(f),
        Some(FileInfo { size: 96, file_size: 1234, physical_size: 4096, attribute: 0x20 })
    );
    assert_eq!(shell.get_file_info(g), None);
}

#[test]
fn file_with_a_stray_metadata_block_is_not_installed() {
    let mut firmware = RamShell::new(memory());
    assert!(!firmware.install_file(units("f"), vec![], INFO + 8));
    assert!(!firmware.install_file(units("f"), vec![], INFO + 1));
    assert!(!firmware.install_file(units("f"), vec![], 0x10));
    assert!(firmware.files.is_empty());
}

#[test]
fn set_file_info_is_unsupported() {
    let mut shell = shell_with_file("f", b"");
    let handle = shell.open_file_by_name(&path("f"), FILE_MODE_READ).unwrap().unwrap();
    let info = FileInfo { size: 80, file_size: 0, physical_size: 0, attribute: 1 };
    assert_eq!(shell.set_file_info(handle, &info), Err(Status::Unsupported));
    let stray = ShellFileHandle::from_raw(9).unwrap();
    assert_eq!(shell.set_file_info(stray, &info), Err(Status::InvalidParameter));
}

#[test]
fn handles_are_numbered_from_one() {
    let mut shell = shell_with_file("f", b"");
    let first = shell.open_file_by_name(&path("f"), FILE_MODE_READ).unwrap().unwrap();
    let second = shell.open_file_by_name(&path("f"), FILE_MODE_READ).unwrap().unwrap();
    assert_eq!(first.as_raw(), 1);
    assert_eq!(second.as_raw(), 2);
}
