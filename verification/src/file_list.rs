//! The file records that the shell hands out as a firmware-owned list, and
//! the cursor that walks them.

use vstd::prelude::*;
use crate::handle::Handle;
use crate::list::{holds_record, is_chain, is_list, link_at, list_nodes, ListEntry};
use crate::list::{check_list, lemma_chain_distinct, lemma_list_nodes};
use crate::memory::FirmwareMemory;
use crate::status::{status_of_raw, Status};

verus! {

/// Size in bytes of a file record.
pub const SHELL_FILE_INFO_SIZE: usize = 56;

/// Offset of the embedded link in a file record. Every record type of a
/// list keeps its link here, which is what lets one cursor walk them all.
pub const LINK_OFFSET: u64 = 0;

/// Offset of the status word in a file record.
pub const STATUS_OFFSET: u64 = 16;

/// Offset of the pointer to the full path.
pub const FULL_NAME_OFFSET: u64 = 24;

/// Offset of the pointer to the file name.
pub const FILE_NAME_OFFSET: u64 = 32;

/// Offset of the owning file handle.
pub const HANDLE_OFFSET: u64 = 40;

/// Offset of the pointer to the extended metadata block.
pub const INFO_OFFSET: u64 = 48;

/// One record of a file list, copied out of firmware memory. Its pointers
/// still refer to firmware-owned strings and blocks.
#[derive(Debug, Clone, Copy, PartialEq, Eq, Structural)]
pub struct ShellFileInfo {
    /// The link to the neighbouring records.
    pub link: ListEntry,
    /// Status that the firmware recorded for this file.
    pub status: Status,
    /// Address of the terminated full path.
    pub full_name: u64,
    /// Address of the terminated file name.
    pub file_name: u64,
    /// Handle of the file, if it is open.
    pub shell_file_handle: Option<Handle>,
    /// Address of the extended metadata block, or null.
    pub info: u64,
}

/// Whether a file record can lie at `addr`.
pub open spec fn holds_file_info(memory: &FirmwareMemory, addr: u64) -> bool {
    holds_record(memory, addr, SHELL_FILE_INFO_SIZE as nat)
}

/// The file record at `addr`: each field read at its offset.
pub open spec fn file_info_at(memory: &FirmwareMemory, addr: u64) -> ShellFileInfo {
    ShellFileInfo {
        link: link_at(memory, addr),
        status: status_of_raw(memory.u64_at(addr + STATUS_OFFSET)),
        full_name: memory.u64_at(addr + FULL_NAME_OFFSET),
        file_name: memory.u64_at(addr + FILE_NAME_OFFSET),
        shell_file_handle: Handle::of_raw(memory.u64_at(addr + HANDLE_OFFSET)),
        info: memory.u64_at(addr + INFO_OFFSET),
    }
}

/// Whether a finite list of file records is entered at `head`.
pub open spec fn is_file_list(memory: &FirmwareMemory, head: u64) -> bool {
    is_list(memory, head, SHELL_FILE_INFO_SIZE as nat)
}

/// The addresses of the file records of the list entered at `head`.
pub open spec fn file_list_nodes(memory: &FirmwareMemory, head: u64) -> Seq<u64> {
    list_nodes(memory, head, SHELL_FILE_INFO_SIZE as nat)
}

impl ShellFileInfo {
    /// Reads the record whose embedded link lies at `entry`. The link is
    /// the first field of the record, so the address of one is the address
    /// of the other.
    pub fn from_list_entry_ptr(memory: &FirmwareMemory, entry: u64) -> (record: Self)
        requires
            holds_file_info(memory, entry),
        ensures
            record == file_info_at(memory, entry),
    {
        ShellFileInfo {
            link: ListEntry::read(memory, entry),
            status: Status::from_raw(memory.read_u64(entry + STATUS_OFFSET)),
            full_name: memory.read_u64(entry + FULL_NAME_OFFSET),
            file_name: memory.read_u64(entry + FILE_NAME_OFFSET),
            shell_file_handle: Handle::from_raw(memory.read_u64(entry + HANDLE_OFFSET)),
            info: memory.read_u64(entry + INFO_OFFSET),
        }
    }
}

/// A forward-only cursor over a firmware-owned file list. It borrows the
/// memory for as long as it lives and holds one address: the link that was
/// reached last. It never frees or changes a node.
#[derive(Debug)]
pub struct ShellFileIter<'a> {
    memory: &'a FirmwareMemory,
    current_node: u64,
}

impl<'a> ShellFileIter<'a> {
    /// The memory that the cursor reads.
    pub closed spec fn memory(&self) -> &FirmwareMemory {
        self.memory
    }

    /// The link that the cursor stands on.
    pub closed spec fn current(&self) -> u64 {
        self.current_node
    }

    /// The cursor is exhausted, holding no link, or it stands on a link
    /// from which a finite list goes on.
    pub open spec fn wf(&self) -> bool {
        self.current() == 0 || is_file_list(self.memory(), self.current())
    }

    /// The addresses of the records still to come, in order.
    pub open spec fn remaining(&self) -> Seq<u64> {
        if self.current() == 0 {
            Seq::empty()
        } else {
            file_list_nodes(self.memory(), self.current())
        }
    }

    /// The records still to come, in order.
    pub open spec fn remaining_records(&self) -> Seq<ShellFileInfo> {
        Seq::new(
            self.remaining().len(),
            |i: int| file_info_at(self.memory(), self.remaining()[i]),
        )
    }

    /// A cursor on the head link at `ptr`. The head itself is never
    /// yielded: the first record is the one its forward pointer leads to.
    /// A cursor on a null `ptr` is exhausted from the start.
    pub fn from_file_info_ptr(memory: &'a FirmwareMemory, ptr: u64) -> (iter: Self)
        requires
            ptr == 0 || is_file_list(memory, ptr),
        ensures
            iter.wf(),
            iter.memory() == memory,
            iter.current() == ptr,
    {
        ShellFileIter { memory, current_node: ptr }
    }

    /// A cursor on the head link at `ptr`, made only after the list was
    /// walked and found sound: `ptr` is null, or it enters a finite list of
    /// at most `limit` file records that all lie in `memory`.
    pub fn try_from_file_info_ptr(
        memory: &'a FirmwareMemory,
        ptr: u64,
        limit: usize,
    ) -> (iter: Option<Self>)
        ensures
            iter is Some <==> ptr == 0 || (is_file_list(memory, ptr) && file_list_nodes(
                memory,
                ptr,
            ).len() <= limit),
            iter matches Some(cursor) ==> cursor.wf() && cursor.memory() == memory
                && cursor.current() == ptr,
    {
        if ptr == 0 || check_list(memory, ptr, SHELL_FILE_INFO_SIZE, limit).is_some() {
            Some(ShellFileIter { memory, current_node: ptr })
        } else {
            None
        }
    }

    /// Steps to the next record and returns it, or returns `None` when the
    /// cursor holds no link or the forward pointer of its link is null.
    /// Once `None` is returned the cursor stays where it is.
    pub fn next(&mut self) -> (item: Option<ShellFileInfo>)
        requires
            old(self).wf(),
        ensures
            final(self).wf(),
            final(self).memory() == old(self).memory(),
            old(self).remaining().len() == 0 ==> item is None && final(self).current() == old(
                self,
            ).current(),
            old(self).remaining().len() > 0 ==> {
                &&& item == Some(file_info_at(old(self).memory(), old(self).remaining()[0]))
                &&& final(self).current() == old(self).remaining()[0]
                &&& final(self).remaining() == old(self).remaining().skip(1)
            },
    {
        if self.current_node == 0 {
            return None;
        }
        let ghost nodes = self.remaining();
        assert(is_chain(self.memory, self.current_node, nodes, SHELL_FILE_INFO_SIZE as nat));
        let link: ListEntry = ListEntry::read(self.memory, self.current_node);
        if link.flink == 0 {
            None
        } else {
            proof {
                assert(nodes.len() > 0);
                lemma_list_nodes(self.memory, nodes[0], nodes.skip(1), SHELL_FILE_INFO_SIZE as nat);
            }
            let record: ShellFileInfo = ShellFileInfo::from_list_entry_ptr(self.memory, link.flink);
            self.current_node = link.flink;
            Some(record)
        }
    }

    /// Walks the rest of the list and returns its records in forward
    /// order. The walk takes one step per record and meets none twice.
    pub fn collect(self) -> (records: Vec<ShellFileInfo>)
        requires
            self.wf(),
        ensures
            records@ == self.remaining_records(),
            self.remaining().no_duplicates(),
    {
        let ghost all = self.remaining();
        let ghost start = self;
        let mut cursor: ShellFileIter<'a> = self;
        let mut records: Vec<ShellFileInfo> = Vec::new();
        proof {
            if start.current() != 0 {
                lemma_chain_distinct(
                    start.memory(),
                    start.current(),
                    all,
                    SHELL_FILE_INFO_SIZE as nat,
                );
            }
        }
        loop
            invariant
                cursor.wf(),
                cursor.memory() == start.memory(),
                all == start.remaining(),
                records@.len() + cursor.remaining().len() == all.len(),
                cursor.remaining() == all.skip(records@.len() as int),
                forall|i: int|
                    0 <= i < records@.len() ==> #[trigger] records@[i] == file_info_at(
                        start.memory(),
                        all[i],
                    ),
            ensures
                records@.len() == all.len(),
                forall|i: int|
                    0 <= i < records@.len() ==> #[trigger] records@[i] == file_info_at(
                        start.memory(),
                        all[i],
                    ),
            decreases cursor.remaining().len(),
        {
            let ghost before = cursor.remaining();
            match cursor.next() {
                Some(record) => {
                    records.push(record);
                    assert(before.skip(1) =~= all.skip(records@.len() as int));
                },
                None => {
                    break ;
                },
            }
        }
        assert(records@ =~= start.remaining_records());
        records
    }
}

} // verus!
