//! The binary layout contract.
//!
//! A protocol's table and the records it hands out are laid out as the
//! firmware defines them: the fields in declared order, each at the next
//! offset that its alignment allows. Slots for operations that are not
//! bound are declared all the same, since every slot that is left out would
//! move all the fields behind it.

use vstd::prelude::*;
use crate::file_list::{
    FILE_NAME_OFFSET, FULL_NAME_OFFSET, HANDLE_OFFSET, INFO_OFFSET, LINK_OFFSET,
    SHELL_FILE_INFO_SIZE, STATUS_OFFSET,
};
use crate::list::{BLINK_OFFSET, FLINK_OFFSET, LIST_ENTRY_SIZE};
use crate::shell::{
    EXECUTION_BREAK_OFFSET, MAJOR_VERSION_OFFSET, MINOR_VERSION_OFFSET, SHELL_TABLE_SIZE,
};
use crate::shell_params::{
    ARGC_OFFSET, ARGV_OFFSET, SHELL_PARAMETERS_SIZE, STD_ERR_OFFSET, STD_IN_OFFSET,
    STD_OUT_OFFSET,
};

verus! {

/// What a field of a table or record holds.
#[derive(Debug, Clone, Copy, PartialEq, Eq, Structural)]
pub enum FieldKind {
    /// The address of an entry point that is bound.
    Function,
    /// The slot of an entry point that is not bound. It is kept so that
    /// the fields behind it stay where they are.
    Reserved,
    /// The address of a firmware-owned object.
    Pointer,
    /// A machine word: a status, a size or a count.
    Word,
    /// A 32-bit number.
    U32,
}

impl FieldKind {
    /// Size of the field in bytes.
    pub open spec fn spec_size(self) -> nat {
        match self {
            FieldKind::U32 => 4,
            _ => 8,
        }
    }

    /// Alignment of the field in bytes.
    pub open spec fn spec_align(self) -> nat {
        match self {
            FieldKind::U32 => 4,
            _ => 8,
        }
    }

    /// Whether the field is as large and as aligned as a pointer.
    pub open spec fn is_pointer_sized(self) -> bool {
        !(self is U32)
    }

    /// Size of the field in bytes.
    pub fn size(self) -> (size: u64)
        ensures
            size == self.spec_size(),
    {
        match self {
            FieldKind::U32 => 4,
            _ => 8,
        }
    }

    /// Alignment of the field in bytes.
    pub fn align(self) -> (align: u64)
        ensures
            align == self.spec_align(),
    {
        match self {
            FieldKind::U32 => 4,
            _ => 8,
        }
    }
}

/// The first multiple of `align` that is not below `offset`.
pub open spec fn align_up(offset: nat, align: nat) -> nat {
    if align == 0 || offset % align == 0 {
        offset
    } else {
        (offset + align - offset % align) as nat
    }
}

/// The offset just behind the first `count` fields of `fields`.
pub open spec fn end_of(fields: Seq<FieldKind>, count: nat) -> nat
    decreases count,
{
    if count == 0 || count > fields.len() {
        0
    } else {
        align_up(end_of(fields, (count - 1) as nat), fields[count - 1].spec_align())
            + fields[count - 1].spec_size()
    }
}

/// The offset of field `index` of `fields`.
pub open spec fn offset_of(fields: Seq<FieldKind>, index: nat) -> nat {
    align_up(end_of(fields, index), fields[index as int].spec_align())
}

/// The alignment of a record of `fields`: that of its most aligned field.
pub open spec fn align_of(fields: Seq<FieldKind>) -> nat {
    if exists|i: int| 0 <= i < fields.len() && #[trigger] fields[i].is_pointer_sized() {
        8
    } else if fields.len() > 0 {
        4
    } else {
        1
    }
}

/// The size of a record of `fields`, padding at its end included.
pub open spec fn size_of(fields: Seq<FieldKind>) -> nat {
    align_up(end_of(fields, fields.len()), align_of(fields))
}

/// Fields take at most 16 bytes each, padding included.
pub proof fn lemma_end_bound(fields: Seq<FieldKind>, count: nat)
    requires
        count <= fields.len(),
    ensures
        end_of(fields, count) <= 16 * count,
    decreases count,
{
    if count > 0 {
        lemma_end_bound(fields, (count - 1) as nat);
    }
}

/// A multiple of eight is aligned to eight and to four.
pub proof fn lemma_multiple_of_eight_is_aligned(count: nat)
    ensures
        align_up(8 * count, 8) == 8 * count,
        align_up(8 * count, 4) == 8 * count,
{
    assert((8 * count) % 8 == 0 && (8 * count) % 4 == 0) by (nonlinear_arith);
}

/// Behind `count` pointer-sized fields the offset is `8 * count`: each
/// slot, bound or reserved, moves what follows by eight bytes.
pub proof fn lemma_pointer_slots(fields: Seq<FieldKind>, count: nat)
    requires
        count <= fields.len(),
        forall|i: int| 0 <= i < count ==> (#[trigger] fields[i]).is_pointer_sized(),
    ensures
        end_of(fields, count) == 8 * count,
    decreases count,
{
    if count > 0 {
        lemma_pointer_slots(fields, (count - 1) as nat);
        lemma_multiple_of_eight_is_aligned((count - 1) as nat);
    }
}

/// Leaving out one slot moves every field behind it: when a field is
/// preceded by pointer-sized slots only, it lies eight bytes lower in the
/// layout that lacks slot `omitted`.
pub proof fn lemma_omitted_slot_moves_fields(fields: Seq<FieldKind>, omitted: int, index: nat)
    requires
        0 <= omitted < index < fields.len(),
        forall|i: int| 0 <= i <= index ==> (#[trigger] fields[i]).is_pointer_sized(),
    ensures
        offset_of(fields, index) == 8 * index,
        offset_of(fields.remove(omitted), (index - 1) as nat) == 8 * index - 8,
{
    lemma_pointer_slots(fields, index);
    lemma_multiple_of_eight_is_aligned(index);
    lemma_multiple_of_eight_is_aligned((index - 1) as nat);
    let shorter = fields.remove(omitted);
    assert forall|i: int| 0 <= i < index implies (#[trigger] shorter[i]).is_pointer_sized() by {
        if i < omitted {
            assert(shorter[i] == fields[i]);
        } else {
            assert(shorter[i] == fields[i + 1]);
        }
    }
    lemma_pointer_slots(shorter, (index - 1) as nat);
    assert(shorter[index - 1] == fields[index as int]);
    assert(fields[index as int].is_pointer_sized());
}

/// Computes the offset of field `index`.
pub fn field_offset(fields: &[FieldKind], index: usize) -> (offset: u64)
    requires
        index < fields@.len(),
        16 * fields@.len() <= u64::MAX,
    ensures
        offset == offset_of(fields@, index as nat),
{
    let mut end: u64 = 0;
    let mut i: usize = 0;
    while i < index
        invariant
            i <= index < fields@.len(),
            16 * fields@.len() <= u64::MAX,
            end == end_of(fields@, i as nat),
            end <= 16 * i,
        decreases index - i,
    {
        proof {
            lemma_end_bound(fields@, (i + 1) as nat);
        }
        end = round_up(end, fields[i].align()) + fields[i].size();
        i = i + 1;
    }
    round_up(end, fields[index].align())
}

/// Computes the size of a record of `fields`.
pub fn record_size(fields: &[FieldKind]) -> (size: u64)
    requires
        16 * fields@.len() + 8 <= u64::MAX,
    ensures
        size == size_of(fields@),
{
    let mut end: u64 = 0;
    let mut align: u64 = 1;
    let mut i: usize = 0;
    while i < fields.len()
        invariant
            i <= fields@.len(),
            16 * fields@.len() + 8 <= u64::MAX,
            end == end_of(fields@, i as nat),
            end <= 16 * i,
            align == align_of(fields@.take(i as int)),
        decreases fields@.len() - i,
    {
        proof {
            lemma_end_bound(fields@, (i + 1) as nat);
            let before = fields@.take(i as int);
            let now = fields@.take(i + 1);
            assert(now[i as int] == fields@[i as int]);
            if exists|k: int| 0 <= k < before.len() && #[trigger] before[k].is_pointer_sized() {
                let k = choose|k: int|
                    0 <= k < before.len() && #[trigger] before[k].is_pointer_sized();
                assert(now[k].is_pointer_sized());
            }
            if exists|k: int| 0 <= k < now.len() && #[trigger] now[k].is_pointer_sized() {
                let k = choose|k: int| 0 <= k < now.len() && #[trigger] now[k].is_pointer_sized();
                if k < i {
                    assert(before[k].is_pointer_sized());
                }
            }
            if fields@[i as int].is_pointer_sized() {
                assert(now[i as int].is_pointer_sized());
                assert(align_of(now) == 8);
            } else {
                assert(align_of(now) == if align_of(before) == 8 {
                    8nat
                } else {
                    4nat
                });
            }
        }
        let field: FieldKind = fields[i];
        end = round_up(end, field.align()) + field.size();
        if field.align() > align {
            align = field.align();
        }
        i = i + 1;
    }
    assert(fields@.take(i as int) =~= fields@);
    round_up(end, align)
}

/// Rounds `offset` up to the next multiple of `align`.
pub fn round_up(offset: u64, align: u64) -> (rounded: u64)
    requires
        0 < align <= 8,
        offset + 8 <= u64::MAX,
    ensures
        rounded == align_up(offset as nat, align as nat),
{
    let rest: u64 = offset % align;
    if rest == 0 {
        offset
    } else {
        offset + align - rest
    }
}

/// The fields of a list link.
pub open spec fn list_entry_fields() -> Seq<FieldKind> {
    seq![FieldKind::Pointer, FieldKind::Pointer]
}

/// The fields of a file record: the link first, as in every record of a
/// list.
pub open spec fn shell_file_info_fields() -> Seq<FieldKind> {
    list_entry_fields() + seq![
        FieldKind::Word,
        FieldKind::Pointer,
        FieldKind::Pointer,
        FieldKind::Pointer,
        FieldKind::Pointer,
    ]
}

/// The fields of the shell parameters table.
pub open spec fn shell_parameters_fields() -> Seq<FieldKind> {
    seq![
        FieldKind::Pointer,
        FieldKind::Word,
        FieldKind::Pointer,
        FieldKind::Pointer,
        FieldKind::Pointer,
    ]
}

/// Index of the execution break event among the fields of the shell table.
pub const EXECUTION_BREAK_FIELD: usize = 39;

/// Index of the major version among the fields of the shell table.
pub const MAJOR_VERSION_FIELD: usize = 40;

/// Index of the minor version among the fields of the shell table.
pub const MINOR_VERSION_FIELD: usize = 41;

/// Number of fields of the shell table.
pub const SHELL_TABLE_FIELDS: usize = 46;

/// Whether the entry point in slot `index` of the shell table is bound.
pub open spec fn is_bound_slot(index: int) -> bool {
    index == 0 || index == 16 || index == 18 || index == 19 || (22 <= index <= 30) || index == 34
        || index == 36
}

/// The fields of the shell's interface table: thirty-nine entry points,
/// bound or reserved, the execution break event, the two version numbers
/// and four more reserved entry points.
pub open spec fn shell_table_fields() -> Seq<FieldKind> {
    Seq::new(
        SHELL_TABLE_FIELDS as nat,
        |i: int|
            if i == EXECUTION_BREAK_FIELD {
                FieldKind::Pointer
            } else if i == MAJOR_VERSION_FIELD || i == MINOR_VERSION_FIELD {
                FieldKind::U32
            } else if is_bound_slot(i) {
                FieldKind::Function
            } else {
                FieldKind::Reserved
            },
    )
}

/// The link is laid out as the cursor reads it.
pub proof fn lemma_list_entry_layout()
    ensures
        offset_of(list_entry_fields(), 0) == FLINK_OFFSET,
        offset_of(list_entry_fields(), 1) == BLINK_OFFSET,
        size_of(list_entry_fields()) == LIST_ENTRY_SIZE,
{
    let fields = list_entry_fields();
    assert(fields[0].is_pointer_sized());
    assert(align_of(fields) == 8);
    lemma_pointer_slots(fields, 0);
    lemma_pointer_slots(fields, 1);
    lemma_pointer_slots(fields, 2);
}

/// The file record is laid out as it is read: the link at the start, so
/// that the address of a record is the address of its link.
pub proof fn lemma_shell_file_info_layout()
    ensures
        offset_of(shell_file_info_fields(), 0) == LINK_OFFSET,
        shell_file_info_fields().take(2) == list_entry_fields(),
        offset_of(shell_file_info_fields(), 2) == STATUS_OFFSET,
        offset_of(shell_file_info_fields(), 3) == FULL_NAME_OFFSET,
        offset_of(shell_file_info_fields(), 4) == FILE_NAME_OFFSET,
        offset_of(shell_file_info_fields(), 5) == HANDLE_OFFSET,
        offset_of(shell_file_info_fields(), 6) == INFO_OFFSET,
        size_of(shell_file_info_fields()) == SHELL_FILE_INFO_SIZE,
{
    let fields = shell_file_info_fields();
    assert(fields.take(2) =~= list_entry_fields());
    assert(fields[0].is_pointer_sized());
    assert(align_of(fields) == 8);
    lemma_pointer_slots(fields, 0);
    lemma_pointer_slots(fields, 2);
    lemma_pointer_slots(fields, 3);
    lemma_pointer_slots(fields, 4);
    lemma_pointer_slots(fields, 5);
    lemma_pointer_slots(fields, 6);
    lemma_pointer_slots(fields, 7);
}

/// The shell parameters table is laid out as it is read.
pub proof fn lemma_shell_parameters_layout()
    ensures
        offset_of(shell_parameters_fields(), 0) == ARGV_OFFSET,
        offset_of(shell_parameters_fields(), 1) == ARGC_OFFSET,
        offset_of(shell_parameters_fields(), 2) == STD_IN_OFFSET,
        offset_of(shell_parameters_fields(), 3) == STD_OUT_OFFSET,
        offset_of(shell_parameters_fields(), 4) == STD_ERR_OFFSET,
        size_of(shell_parameters_fields()) == SHELL_PARAMETERS_SIZE,
{
    let fields = shell_parameters_fields();
    assert(fields[0].is_pointer_sized());
    assert(align_of(fields) == 8);
    lemma_pointer_slots(fields, 0);
    lemma_pointer_slots(fields, 1);
    lemma_pointer_slots(fields, 2);
    lemma_pointer_slots(fields, 3);
    lemma_pointer_slots(fields, 4);
    lemma_pointer_slots(fields, 5);
}

/// The data fields of the shell table lie where the binding reads them,
/// behind the thirty-nine entry points, and each entry point lies at eight
/// times its index.
pub proof fn lemma_shell_table_layout()
    ensures
        forall|i: nat| i <= EXECUTION_BREAK_FIELD ==> #[trigger] offset_of(shell_table_fields(), i)
            == 8 * i,
        offset_of(shell_table_fields(), EXECUTION_BREAK_FIELD as nat) == EXECUTION_BREAK_OFFSET,
        offset_of(shell_table_fields(), MAJOR_VERSION_FIELD as nat) == MAJOR_VERSION_OFFSET,
        offset_of(shell_table_fields(), MINOR_VERSION_FIELD as nat) == MINOR_VERSION_OFFSET,
        size_of(shell_table_fields()) == SHELL_TABLE_SIZE,
{
    let fields = shell_table_fields();
    assert forall|i: nat| i <= EXECUTION_BREAK_FIELD implies #[trigger] offset_of(fields, i) == 8
        * i by {
        lemma_pointer_slots(fields, i);
        lemma_multiple_of_eight_is_aligned(i);
    }
    lemma_pointer_slots(fields, 40);
    assert(end_of(fields, 41) == 324);
    assert(end_of(fields, 42) == 328);
    assert(end_of(fields, 43) == 336);
    assert(end_of(fields, 44) == 344);
    assert(end_of(fields, 45) == 352);
    assert(end_of(fields, 46) == 360);
    assert(fields[0].is_pointer_sized());
    assert(align_of(fields) == 8);
}

/// The fields of the shell's interface table, in declared order.
pub fn shell_table_layout() -> (fields: Vec<FieldKind>)
    ensures
        fields@ == shell_table_fields(),
{
    let mut fields: Vec<FieldKind> = Vec::new();
    let mut i: usize = 0;
    while i < SHELL_TABLE_FIELDS
        invariant
            i <= SHELL_TABLE_FIELDS,
            fields@.len() == i,
            forall|j: int| 0 <= j < i ==> fields@[j] == shell_table_fields()[j],
        decreases SHELL_TABLE_FIELDS - i,
    {
        let bound: bool = i == 0 || i == 16 || i == 18 || i == 19 || (22 <= i && i <= 30) || i
            == 34 || i == 36;
        let field: FieldKind = if i == EXECUTION_BREAK_FIELD {
            FieldKind::Pointer
        } else if i == MAJOR_VERSION_FIELD || i == MINOR_VERSION_FIELD {
            FieldKind::U32
        } else if bound {
            FieldKind::Function
        } else {
            FieldKind::Reserved
        };
        fields.push(field);
        i = i + 1;
    }
    assert(fields@ =~= shell_table_fields());
    fields
}

} // verus!
