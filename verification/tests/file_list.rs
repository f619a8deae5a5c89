use uefi::file_list::{ShellFileInfo, ShellFileIter, SHELL_FILE_INFO_SIZE};
use uefi::handle::Handle;
use uefi::list::{can_hold_record, check_list, ListEntry, LIST_ENTRY_SIZE};
use uefi::memory::FirmwareMemory;
use uefi::status::Status;

const BASE: u64 = 0x4000;
const HEAD: u64 = BASE;

fn put(bytes: &mut Vec<u8>, addr: u64, value: u64) {
    let at = (addr - BASE) as usize;
    bytes[at..at + 8].copy_from_slice(&value.to_le_bytes());
}

fn node(k: u64) -> u64 {
    BASE + 16 + 56 * k
}

fn put_record(bytes: &mut Vec<u8>, at: u64, flink: u64, blink: u64, status: u64, tag: u64) {
    put(bytes, at, flink);
    put(bytes, at + 8, blink);
    put(bytes, at + 16, status);
    put(bytes, at + 24, 0x9000 + tag);
    put(bytes, at + 32, 0xa000 + tag);
    put(bytes, at + 40, tag);
    put(bytes, at + 48, 0xb000 + tag);
}

// A head link followed by `count` records; the forward pointers visit the
// records in the order given by `order`.
fn list_memory(count: u64, order: &[u64]) -> FirmwareMemory {
    let mut bytes = vec![0u8; (16 + 56 * count) as usize];
    let mut previous = HEAD;
    for (position, k) in order.iter().enumerate() {
        let next = if position + 1 < order.len() { node(order[position + 1]) } else { 0 };
        put_record(&mut bytes, node(*k), next, previous, 0, *k + 1);
        previous = node(*k);
    }
    put(&mut bytes, HEAD, if order.is_empty() { 0 } else { node(order[0]) });
    put(&mut bytes, HEAD + 8, previous);
    FirmwareMemory::new(BASE, bytes)
}

#[test]
fn record_sizes() {
    assert_eq!(LIST_ENTRY_SIZE, 16);
    assert_eq!(SHELL_FILE_INFO_SIZE, 56);
}

#[test]
fn list_entry_is_read_at_its_offsets() {
    let memory = list_memory(3, &[0, 1, 2]);
    let head = ListEntry::read(&memory, HEAD);
    assert_eq!(head, ListEntry { flink: node(0), blink: node(2) });
    let second = ListEntry::read(&memory, node(1));
    assert_eq!(second, ListEntry { flink: node(2), blink: node(0) });
}

#[test]
fn record_is_read_at_its_offsets() {
    let mut memory = list_memory(1, &[0]);
    let status_at = (node(0) - BASE + 16) as usize;
    memory.bytes[status_at..status_at + 8].copy_from_slice(&0x8000_0000_0000_000eu64.to_le_bytes());
    let record = ShellFileInfo::from_list_entry_ptr(&memory, node(0));
    assert_eq!(record.link, ListEntry { flink: 0, blink: HEAD });
    assert_eq!(record.status, Status::NotFound);
    assert_eq!(record.full_name, 0x9001);
    assert_eq!(record.file_name, 0xa001);
    assert_eq!(record.shell_file_handle, Handle::from_raw(1));
    assert_eq!(record.info, 0xb001);
}

#[test]
fn record_with_null_handle_has_no_handle() {
    let mut bytes = vec![0u8; 16 + 56];
    put_record(&mut bytes, node(0), 0, HEAD, 0, 0);
    let memory = FirmwareMemory::new(BASE, bytes);
    let record = ShellFileInfo::from_list_entry_ptr(&memory, node(0));
    assert_eq!(record.shell_file_handle, None);
    assert_eq!(record.status, Status::Success);
}

#[test]
fn three_node_list_yields_three_records_in_link_order() {
    let memory = list_memory(3, &[0, 1, 2]);
    let mut iter = ShellFileIter::from_file_info_ptr(&memory, HEAD);
    let first = iter.next().unwrap();
    let second = iter.next().unwrap();
    let third = iter.next().unwrap();
    assert_eq!(first.full_name, 0x9001);
    assert_eq!(second.full_name, 0x9002);
    assert_eq!(third.full_name, 0x9003);
    assert_eq!(iter.next(), None);
    assert_eq!(iter.next(), None);
}

#[test]
fn order_is_that_of_the_links_not_of_the_addresses() {
    let memory = list_memory(3, &[2, 0, 1]);
    let records = ShellFileIter::from_file_info_ptr(&memory, HEAD).collect();
    let names: Vec<u64> = records.iter().map(|r| r.full_name).collect();
    assert_eq!(names, vec![0x9003, 0x9001, 0x9002]);
}

#[test]
fn empty_list_yields_no_record() {
    let memory = list_memory(0, &[]);
    let mut iter = ShellFileIter::from_file_info_ptr(&memory, HEAD);
    assert_eq!(iter.next(), None);
    assert!(ShellFileIter::from_file_info_ptr(&memory, HEAD).collect().is_empty());
}

#[test]
fn head_is_not_yielded() {
    let memory = list_memory(1, &[0]);
    let records = ShellFileIter::from_file_info_ptr(&memory, HEAD).collect();
    assert_eq!(records.len(), 1);
    assert_eq!(records[0].link.blink, HEAD);
}

#[test]
fn traversal_visits_each_node_once_in_n_steps() {
    let memory = list_memory(5, &[4, 3, 2, 1, 0]);
    let mut iter = ShellFileIter::from_file_info_ptr(&memory, HEAD);
    let mut seen: Vec<u64> = Vec::new();
    let mut previous = HEAD;
    let mut steps = 0;
    while let Some(record) = iter.next() {
        steps += 1;
        assert!(steps <= 5);
        // The address of a record is what its successor's back link holds.
        assert_eq!(record.link.blink, previous);
        previous = record.shell_file_handle.unwrap().as_raw() - 1;
        previous = node(previous);
        assert!(!seen.contains(&previous));
        seen.push(previous);
    }
    assert_eq!(steps, 5);
    assert_eq!(seen, vec![node(4), node(3), node(2), node(1), node(0)]);
}

#[test]
fn collect_from_the_middle_returns_the_rest() {
    let memory = list_memory(3, &[0, 1, 2]);
    let mut iter = ShellFileIter::from_file_info_ptr(&memory, HEAD);
    iter.next();
    let rest = iter.collect();
    assert_eq!(rest.len(), 2);
    assert_eq!(rest[0].full_name, 0x9002);
    assert_eq!(rest[1].full_name, 0x9003);
}

#[test]
fn can_hold_record_wants_mapping_and_alignment() {
    let memory = list_memory(1, &[0]);
    assert!(can_hold_record(&memory, HEAD, 16));
    assert!(can_hold_record(&memory, node(0), 56));
    assert!(!can_hold_record(&memory, node(0), 57));
    assert!(!can_hold_record(&memory, HEAD + 4, 16));
    assert!(!can_hold_record(&memory, 0, 16));
}

#[test]
fn check_list_counts_a_well_formed_list() {
    assert_eq!(check_list(&list_memory(3, &[0, 1, 2]), HEAD, 56, 10), Some(3));
    assert_eq!(check_list(&list_memory(3, &[1, 2, 0]), HEAD, 56, 3), Some(3));
    assert_eq!(check_list(&list_memory(0, &[]), HEAD, 56, 0), Some(0));
}

#[test]
fn check_list_respects_the_limit() {
    assert_eq!(check_list(&list_memory(3, &[0, 1, 2]), HEAD, 56, 2), None);
}

#[test]
fn check_list_rejects_a_cycle() {
    let mut memory = list_memory(3, &[0, 1, 2]);
    let at = (node(2) - BASE) as usize;
    memory.bytes[at..at + 8].copy_from_slice(&node(0).to_le_bytes());
    assert_eq!(check_list(&memory, HEAD, 56, 1000), None);
}

#[test]
fn check_list_rejects_a_dangling_link() {
    let mut memory = list_memory(2, &[0, 1]);
    let at = (node(1) - BASE) as usize;
    memory.bytes[at..at + 8].copy_from_slice(&0x9999_0000u64.to_le_bytes());
    assert_eq!(check_list(&memory, HEAD, 56, 1000), None);
}

#[test]
fn check_list_rejects_a_misaligned_or_unmapped_head() {
    let memory = list_memory(1, &[0]);
    assert_eq!(check_list(&memory, HEAD + 1, 56, 10), None);
    assert_eq!(check_list(&memory, 0, 56, 10), None);
    assert_eq!(check_list(&memory, 0x10, 56, 10), None);
}

#[test]
fn check_list_rejects_a_record_cut_off_by_the_end_of_memory() {
    let mut memory = list_memory(1, &[0]);
    memory.bytes.truncate(16 + 40);
    assert_eq!(check_list(&memory, HEAD, 56, 10), None);
    assert_eq!(check_list(&memory, HEAD, 40, 10), Some(1));
}

#[test]
fn null_cursor_is_exhausted() {
    let memory = list_memory(1, &[0]);
    let mut iter = ShellFileIter::from_file_info_ptr(&memory, 0);
    assert_eq!(iter.next(), None);
    assert_eq!(iter.next(), None);
    assert!(ShellFileIter::from_file_info_ptr(&memory, 0).collect().is_empty());
}

#[test]
fn checked_cursor_is_made_for_a_sound_list_only() {
    let memory = list_memory(3, &[0, 1, 2]);
    let records = ShellFileIter::try_from_file_info_ptr(&memory, HEAD, 3).unwrap().collect();
    assert_eq!(records.len(), 3);
    assert!(ShellFileIter::try_from_file_info_ptr(&memory, HEAD, 2).is_none());
    assert!(ShellFileIter::try_from_file_info_ptr(&memory, HEAD + 4, 9).is_none());
    assert!(ShellFileIter::try_from_file_info_ptr(&memory, 0, 0).unwrap().collect().is_empty());

    let mut looped = list_memory(2, &[0, 1]);
    let at = (node(1) - BASE) as usize;
    looped.bytes[at..at + 8].copy_from_slice(&node(1).to_le_bytes());
    assert!(ShellFileIter::try_from_file_info_ptr(&looped, HEAD, 1000).is_none());
}
