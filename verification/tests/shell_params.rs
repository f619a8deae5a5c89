use uefi::guid::{Guid, Identify};
use uefi::memory::FirmwareMemory;
use uefi::shell_params::{all_scalar, ucs2_to_string, ShellParameters, SHELL_PARAMETERS_GUID};

const BASE: u64 = 0x3000;

fn put(bytes: &mut Vec<u8>, addr: u64, value: u64) {
    let at = (addr - BASE) as usize;
    bytes[at..at + 8].copy_from_slice(&value.to_le_bytes());
}

// The parameters table at BASE, the argument array behind it and the
// strings behind that.
fn memory(args: &[&str]) -> FirmwareMemory {
    let argv = BASE + 40;
    let mut bytes = vec![0u8; 40 + 8 * args.len()];
    let mut next = BASE + bytes.len() as u64;
    for (i, arg) in args.iter().enumerate() {
        put(&mut bytes, argv + 8 * i as u64, next);
        let mut text: Vec<u8> = arg.encode_utf16().flat_map(|u| u.to_le_bytes()).collect();
        text.extend_from_slice(&[0, 0]);
        next += text.len() as u64;
        bytes.extend_from_slice(&text);
    }
    put(&mut bytes, BASE, argv);
    put(&mut bytes, BASE + 8, args.len() as u64);
    put(&mut bytes, BASE + 16, 0x11);
    put(&mut bytes, BASE + 24, 0x22);
    put(&mut bytes, BASE + 32, 0x33);
    FirmwareMemory::new(BASE, bytes)
}

#[test]
fn shell_parameters_identifier() {
    assert_eq!(ShellParameters::guid(), Guid { value: SHELL_PARAMETERS_GUID });
    assert_eq!(SHELL_PARAMETERS_GUID, 0x752f3136_4e16_4fdc_a22a_e5f46812f4ca);
}

#[test]
fn bind_reads_each_field_at_its_offset() {
    let memory = memory(&["app.efi", "-v"]);
    let parameters = ShellParameters::bind(&memory, BASE);
    assert_eq!(
        parameters,
        ShellParameters { argv: BASE + 40, argc: 2, std_in: 0x11, std_out: 0x22, std_err: 0x33 }
    );
}

#[test]
fn get_args_skips_the_name_of_the_executable() {
    let memory = memory(&["app.efi", "-a", "file.txt"]);
    let parameters = ShellParameters::bind(&memory, BASE);
    assert_eq!(parameters.get_args(&memory), vec!["-a".to_string(), "file.txt".to_string()]);
}

#[test]
fn get_args_of_a_bare_command_is_empty() {
    let memory = memory(&["app.efi"]);
    let parameters = ShellParameters::bind(&memory, BASE);
    assert!(parameters.get_args(&memory).is_empty());
    let none = ShellParameters { argv: 0, argc: 0, std_in: 0, std_out: 0, std_err: 0 };
    assert!(none.get_args(&memory).is_empty());
}

#[test]
fn get_args_keeps_empty_and_non_ascii_arguments() {
    let memory = memory(&["app.efi", "", "h\u{e9}llo", "\u{4e2d}\u{6587}"]);
    let parameters = ShellParameters::bind(&memory, BASE);
    assert_eq!(
        parameters.get_args(&memory),
        vec!["".to_string(), "h\u{e9}llo".to_string(), "\u{4e2d}\u{6587}".to_string()]
    );
}

#[test]
fn ucs2_units_become_their_characters() {
    assert_eq!(ucs2_to_string(&[0x48, 0x69]), "Hi");
    assert_eq!(ucs2_to_string(&[0xe9, 0x4e2d, 0xffff, 0xd7ff, 0xe000]), "\u{e9}\u{4e2d}\u{ffff}\u{d7ff}\u{e000}");
    assert_eq!(ucs2_to_string(&[]), "");
}

#[test]
fn scalar_units_exclude_surrogates() {
    assert!(all_scalar(&[]));
    assert!(all_scalar(&[0x41, 0xd7ff, 0xe000, 0xffff]));
    assert!(!all_scalar(&[0x41, 0xd800]));
    assert!(!all_scalar(&[0xdfff, 0x41]));
    assert!(!all_scalar(&[0xdc00]));
}

#[test]
fn well_formed_arguments_are_readable() {
    let memory = memory(&["app.efi", "-a", "file.txt"]);
    let parameters = ShellParameters::bind(&memory, BASE);
    assert!(parameters.args_are_readable(&memory));
    let bare = ShellParameters { argv: 0, argc: 1, std_in: 0, std_out: 0, std_err: 0 };
    assert!(bare.args_are_readable(&memory));
}

#[test]
fn arguments_outside_memory_are_not_readable() {
    let memory = memory(&["app.efi", "-a"]);
    let parameters = ShellParameters::bind(&memory, BASE);
    let more = ShellParameters { argc: 1000, ..parameters };
    assert!(!more.args_are_readable(&memory));
    let huge = ShellParameters { argc: usize::MAX, ..parameters };
    assert!(!huge.args_are_readable(&memory));
    let stray = ShellParameters { argv: 0x10, ..parameters };
    assert!(!stray.args_are_readable(&memory));
}

#[test]
fn unterminated_or_surrogate_arguments_are_not_readable() {
    let mut unterminated = memory(&["app.efi", "-a"]);
    let len = unterminated.bytes.len();
    unterminated.bytes.truncate(len - 2);
    let parameters = ShellParameters::bind(&unterminated, BASE);
    assert!(!parameters.args_are_readable(&unterminated));

    let mut surrogate = memory(&["app.efi", "ab"]);
    let len = surrogate.bytes.len();
    surrogate.bytes[len - 4..len - 2].copy_from_slice(&0xd800u16.to_le_bytes());
    let parameters = ShellParameters::bind(&surrogate, BASE);
    assert!(!parameters.args_are_readable(&surrogate));
}

#[test]
fn a_damaged_first_argument_does_not_matter() {
    let mut memory = memory(&["app.efi", "-a"]);
    memory.bytes[40..48].copy_from_slice(&0u64.to_le_bytes());
    let parameters = ShellParameters::bind(&memory, BASE);
    assert!(parameters.args_are_readable(&memory));
    assert_eq!(parameters.get_args(&memory), vec!["-a".to_string()]);
}
