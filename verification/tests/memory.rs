use uefi::memory::FirmwareMemory;

fn sample() -> FirmwareMemory {
    FirmwareMemory::new(0x1000, vec![0x11, 0x22, 0x33, 0x44, 0x55, 0x66, 0x77, 0x88, 0x99, 0xaa])
}

#[test]
fn new_keeps_base_and_bytes() {
    let memory = sample();
    assert_eq!(memory.base, 0x1000);
    assert_eq!(memory.bytes.len(), 10);
}

#[test]
fn null_is_never_mapped() {
    let memory = FirmwareMemory::new(0, vec![1, 2, 3, 4]);
    assert!(!memory.is_mapped(0, 1));
    assert!(memory.is_mapped(1, 3));
    assert!(!memory.is_mapped(1, 4));
}

#[test]
fn mapping_ends_with_the_region() {
    let memory = sample();
    assert!(memory.is_mapped(0x1000, 10));
    assert!(!memory.is_mapped(0x1000, 11));
    assert!(memory.is_mapped(0x1009, 1));
    assert!(!memory.is_mapped(0x100a, 1));
    assert!(memory.is_mapped(0x100a, 0));
    assert!(!memory.is_mapped(0x0fff, 1));
}

#[test]
fn no_span_runs_past_the_last_address() {
    let memory = FirmwareMemory::new(u64::MAX - 1, vec![7, 8]);
    assert!(memory.is_mapped(u64::MAX - 1, 1));
    assert!(!memory.is_mapped(u64::MAX - 1, 2));
}

#[test]
fn values_are_little_endian() {
    let memory = sample();
    assert_eq!(memory.read_u8(0x1002), 0x33);
    assert_eq!(memory.read_u16(0x1000), 0x2211);
    assert_eq!(memory.read_u32(0x1001), 0x55443322);
    assert_eq!(memory.read_u64(0x1002), 0xaa99887766554433);
}

#[test]
fn read_string_stops_at_the_terminator() {
    let memory = FirmwareMemory::new(0x2000, vec![b'a', 0, b'b', 0, 0, 0, b'c', 0]);
    assert_eq!(memory.read_string(0x2000), Some(vec![0x61, 0x62]));
    assert_eq!(memory.read_string(0x2002), Some(vec![0x62]));
    assert_eq!(memory.read_string(0x2004), Some(vec![]));
}

#[test]
fn read_string_without_terminator_is_none() {
    let memory = FirmwareMemory::new(0x2000, vec![b'a', 0, b'b', 0, 0, 0, b'c', 0]);
    assert_eq!(memory.read_string(0x2006), None);
    assert_eq!(memory.read_string(0x2008), None);
    assert_eq!(memory.read_string(0x1ffe), None);
    assert_eq!(memory.read_string(0), None);
}

#[test]
fn read_string_of_an_odd_tail_is_none() {
    let memory = FirmwareMemory::new(0x2000, vec![b'a', 0, b'b']);
    assert_eq!(memory.read_string(0x2000), None);
}
