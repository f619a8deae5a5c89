use uefi::layout::{
    field_offset, record_size, round_up, shell_table_layout, FieldKind, EXECUTION_BREAK_FIELD,
    MAJOR_VERSION_FIELD, MINOR_VERSION_FIELD, SHELL_TABLE_FIELDS,
};
use uefi::shell::{
    EXECUTION_BREAK_OFFSET, MAJOR_VERSION_OFFSET, MINOR_VERSION_OFFSET, SHELL_TABLE_SIZE,
};

#[test]
fn field_sizes_and_alignments() {
    for kind in [FieldKind::Function, FieldKind::Reserved, FieldKind::Pointer, FieldKind::Word] {
        assert_eq!(kind.size(), 8);
        assert_eq!(kind.align(), 8);
    }
    assert_eq!(FieldKind::U32.size(), 4);
    assert_eq!(FieldKind::U32.align(), 4);
}

#[test]
fn round_up_to_the_next_multiple() {
    assert_eq!(round_up(0, 8), 0);
    assert_eq!(round_up(1, 8), 8);
    assert_eq!(round_up(8, 8), 8);
    assert_eq!(round_up(9, 8), 16);
    assert_eq!(round_up(6, 4), 8);
    assert_eq!(round_up(324, 4), 324);
    assert_eq!(round_up(324, 8), 328);
}

#[test]
fn shell_table_has_every_slot() {
    let fields = shell_table_layout();
    assert_eq!(fields.len(), SHELL_TABLE_FIELDS);
    assert_eq!(fields.len(), 46);
    assert_eq!(fields[0], FieldKind::Function);
    assert_eq!(fields[1], FieldKind::Reserved);
    assert_eq!(fields[16], FieldKind::Function);
    assert_eq!(fields[17], FieldKind::Reserved);
    assert_eq!(fields[34], FieldKind::Function);
    assert_eq!(fields[35], FieldKind::Reserved);
    assert_eq!(fields[36], FieldKind::Function);
    assert_eq!(fields[39], FieldKind::Pointer);
    assert_eq!(fields[40], FieldKind::U32);
    assert_eq!(fields[41], FieldKind::U32);
    assert_eq!(fields[45], FieldKind::Reserved);
    let bound = fields.iter().filter(|f| **f == FieldKind::Function).count();
    assert_eq!(bound, 15);
}

#[test]
fn shell_table_offsets_are_those_the_binding_reads() {
    let fields = shell_table_layout();
    assert_eq!(field_offset(&fields, 0), 0);
    assert_eq!(field_offset(&fields, 24), 192);
    assert_eq!(field_offset(&fields, EXECUTION_BREAK_FIELD), 312);
    assert_eq!(field_offset(&fields, EXECUTION_BREAK_FIELD), EXECUTION_BREAK_OFFSET);
    assert_eq!(field_offset(&fields, MAJOR_VERSION_FIELD), MAJOR_VERSION_OFFSET);
    assert_eq!(field_offset(&fields, MINOR_VERSION_FIELD), MINOR_VERSION_OFFSET);
    assert_eq!(field_offset(&fields, 42), 328);
    assert_eq!(field_offset(&fields, 45), 352);
    assert_eq!(record_size(&fields), SHELL_TABLE_SIZE as u64);
    assert_eq!(record_size(&fields), 360);
}

#[test]
fn omitting_a_reserved_slot_moves_every_later_field() {
    let mut fields = shell_table_layout();
    fields.remove(1);
    assert_eq!(field_offset(&fields, EXECUTION_BREAK_FIELD - 1), 304);
    assert_eq!(field_offset(&fields, MAJOR_VERSION_FIELD - 1), 312);
    assert_eq!(record_size(&fields), 352);
}

#[test]
fn padding_follows_alignment() {
    let fields = [FieldKind::U32, FieldKind::Pointer, FieldKind::U32];
    assert_eq!(field_offset(&fields, 0), 0);
    assert_eq!(field_offset(&fields, 1), 8);
    assert_eq!(field_offset(&fields, 2), 16);
    assert_eq!(record_size(&fields), 24);
    assert_eq!(record_size(&[FieldKind::U32, FieldKind::U32, FieldKind::U32]), 12);
    assert_eq!(record_size(&[]), 0);
}

#[test]
fn record_layouts() {
    let link = [FieldKind::Pointer, FieldKind::Pointer];
    assert_eq!(record_size(&link), 16);
    let file_info = [
        FieldKind::Pointer,
        FieldKind::Pointer,
        FieldKind::Word,
        FieldKind::Pointer,
        FieldKind::Pointer,
        FieldKind::Pointer,
        FieldKind::Pointer,
    ];
    assert_eq!(field_offset(&file_info, 2), 16);
    assert_eq!(field_offset(&file_info, 6), 48);
    assert_eq!(record_size(&file_info), 56);
}
