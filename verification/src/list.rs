//! Linked lists that the firmware builds in its own memory.
//!
//! Every record of such a list starts with a link: a forward and a backward
//! pointer. A list is entered through a head link that carries no record;
//! the records are the links reached by following forward pointers until a
//! null one is met. Nothing here owns, frees or changes a node.

use vstd::prelude::*;
use crate::memory::FirmwareMemory;

verus! {

/// Size in bytes of a link.
pub const LIST_ENTRY_SIZE: usize = 16;

/// Offset of the forward pointer in a link.
pub const FLINK_OFFSET: u64 = 0;

/// Offset of the backward pointer in a link.
pub const BLINK_OFFSET: u64 = 8;

/// Alignment of links and of the records that embed them.
pub const RECORD_ALIGN: u64 = 8;

/// The link embedded at the start of every list record.
#[derive(Debug, Clone, Copy, PartialEq, Eq, Structural)]
pub struct ListEntry {
    /// Address of the next link, or null at the end of the list.
    pub flink: u64,
    /// Address of the previous link.
    pub blink: u64,
}

/// Whether a record of `size` bytes can lie at `addr`: the bytes are mapped
/// and the address is aligned.
pub open spec fn holds_record(memory: &FirmwareMemory, addr: u64, size: nat) -> bool {
    &&& memory.maps(addr, size)
    &&& addr % RECORD_ALIGN == 0
}

/// Whether a link can lie at `addr`.
pub open spec fn holds_link(memory: &FirmwareMemory, addr: u64) -> bool {
    holds_record(memory, addr, LIST_ENTRY_SIZE as nat)
}

/// The link at `addr`.
pub open spec fn link_at(memory: &FirmwareMemory, addr: u64) -> ListEntry {
    ListEntry {
        flink: memory.u64_at(addr + FLINK_OFFSET),
        blink: memory.u64_at(addr + BLINK_OFFSET),
    }
}

/// Whether `nodes` are exactly the records of the list entered at `head`,
/// in forward order: the head's forward pointer leads to the first, each
/// leads to the next, and the last one's forward pointer is null. Each node
/// holds a record of `size` bytes.
pub open spec fn is_chain(memory: &FirmwareMemory, head: u64, nodes: Seq<u64>, size: nat) -> bool
    decreases nodes.len(),
{
    &&& holds_link(memory, head)
    &&& if nodes.len() == 0 {
        link_at(memory, head).flink == 0
    } else {
        &&& link_at(memory, head).flink == nodes[0]
        &&& holds_record(memory, nodes[0], size)
        &&& is_chain(memory, nodes[0], nodes.skip(1), size)
    }
}

/// Whether a finite list of records of `size` bytes is entered at `head`.
pub open spec fn is_list(memory: &FirmwareMemory, head: u64, size: nat) -> bool {
    exists|nodes: Seq<u64>| is_chain(memory, head, nodes, size)
}

/// The records of the list entered at `head`, in forward order.
pub open spec fn list_nodes(memory: &FirmwareMemory, head: u64, size: nat) -> Seq<u64> {
    choose|nodes: Seq<u64>| is_chain(memory, head, nodes, size)
}

/// A head enters at most one list.
pub proof fn lemma_chain_unique(
    memory: &FirmwareMemory,
    head: u64,
    first: Seq<u64>,
    second: Seq<u64>,
    size: nat,
)
    requires
        is_chain(memory, head, first, size),
        is_chain(memory, head, second, size),
    ensures
        first == second,
    decreases first.len(),
{
    if first.len() == 0 {
        if second.len() != 0 {
            assert(second[0] != 0);
        }
        assert(first =~= second);
    } else {
        assert(first[0] != 0);
        assert(second.len() != 0);
        lemma_chain_unique(memory, first[0], first.skip(1), second.skip(1), size);
        assert(first =~= seq![first[0]] + first.skip(1));
        assert(second =~= seq![second[0]] + second.skip(1));
    }
}

/// The records of a list are those of any chain found from its head.
pub proof fn lemma_list_nodes(memory: &FirmwareMemory, head: u64, nodes: Seq<u64>, size: nat)
    requires
        is_chain(memory, head, nodes, size),
    ensures
        is_list(memory, head, size),
        list_nodes(memory, head, size) == nodes,
{
    lemma_chain_unique(memory, head, list_nodes(memory, head, size), nodes, size);
}

/// Every record of a list enters the list of the records behind it.
pub proof fn lemma_chain_suffix(
    memory: &FirmwareMemory,
    head: u64,
    nodes: Seq<u64>,
    size: nat,
    k: int,
)
    requires
        is_chain(memory, head, nodes, size),
        0 <= k < nodes.len(),
    ensures
        holds_record(memory, nodes[k], size),
        is_chain(memory, nodes[k], nodes.skip(k + 1), size),
    decreases k,
{
    if k > 0 {
        lemma_chain_suffix(memory, nodes[0], nodes.skip(1), size, k - 1);
        assert(nodes.skip(1).skip(k) =~= nodes.skip(k + 1));
    }
}

/// A traversal never meets a node twice: the records of a list are pairwise
/// distinct, and none of them is the head.
pub proof fn lemma_chain_distinct(memory: &FirmwareMemory, head: u64, nodes: Seq<u64>, size: nat)
    requires
        is_chain(memory, head, nodes, size),
    ensures
        nodes.no_duplicates(),
        !nodes.contains(head),
        !nodes.contains(0),
{
    assert forall|k: int| 0 <= k < nodes.len() implies nodes[k] != head && nodes[k] != 0 by {
        lemma_chain_suffix(memory, head, nodes, size, k);
        if nodes[k] == head {
            lemma_chain_unique(memory, head, nodes, nodes.skip(k + 1), size);
        }
    }
    assert forall|i: int, j: int| 0 <= i < j < nodes.len() implies nodes[i] != nodes[j] by {
        lemma_chain_suffix(memory, head, nodes, size, i);
        lemma_chain_suffix(memory, head, nodes, size, j);
        if nodes[i] == nodes[j] {
            lemma_chain_unique(memory, nodes[i], nodes.skip(i + 1), nodes.skip(j + 1), size);
        }
    }
}

impl ListEntry {
    /// Reads the link at `addr`.
    pub fn read(memory: &FirmwareMemory, addr: u64) -> (entry: Self)
        requires
            holds_link(memory, addr),
        ensures
            entry == link_at(memory, addr),
    {
        ListEntry { flink: memory.read_u64(addr), blink: memory.read_u64(addr + BLINK_OFFSET) }
    }
}

/// Following one forward pointer: a list goes on from a link exactly when
/// one goes on from the record it points to, and it is one record longer.
pub proof fn lemma_chain_step(memory: &FirmwareMemory, link: u64, size: nat)
    requires
        holds_link(memory, link),
        link_at(memory, link).flink != 0,
        holds_record(memory, link_at(memory, link).flink, size),
    ensures
        is_list(memory, link, size) <==> is_list(memory, link_at(memory, link).flink, size),
        is_list(memory, link, size) ==> list_nodes(memory, link, size) == seq![
            link_at(memory, link).flink,
        ] + list_nodes(memory, link_at(memory, link).flink, size),
{
    let next = link_at(memory, link).flink;
    if is_list(memory, link, size) {
        let nodes = list_nodes(memory, link, size);
        assert(is_chain(memory, link, nodes, size));
        lemma_list_nodes(memory, next, nodes.skip(1), size);
        assert(nodes =~= seq![next] + nodes.skip(1));
    }
    if is_list(memory, next, size) {
        let rest = list_nodes(memory, next, size);
        let nodes = seq![next] + rest;
        assert(nodes.skip(1) =~= rest);
        assert(is_chain(memory, link, nodes, size));
        lemma_list_nodes(memory, link, nodes, size);
    }
}

/// Tells whether a record of `size` bytes can lie at `addr`.
pub fn can_hold_record(memory: &FirmwareMemory, addr: u64, size: usize) -> (holds: bool)
    ensures
        holds == holds_record(memory, addr, size as nat),
{
    memory.is_mapped(addr, size) && addr % RECORD_ALIGN == 0
}

/// Walks the list entered at `head` without trusting it, and counts its
/// records. The count is returned exactly when a finite list of records of
/// `size` bytes is entered at `head` and it has at most `limit` records.
pub fn check_list(memory: &FirmwareMemory, head: u64, size: usize, limit: usize) -> (count: Option<
    usize,
>)
    ensures
        count is Some <==> is_list(memory, head, size as nat) && list_nodes(
            memory,
            head,
            size as nat,
        ).len() <= limit,
        count matches Some(n) ==> n == list_nodes(memory, head, size as nat).len(),
{
    let mut current: u64 = head;
    let mut steps: usize = 0;
    loop
        invariant
            steps <= limit,
            is_list(memory, head, size as nat) <==> is_list(memory, current, size as nat),
            is_list(memory, head, size as nat) ==> list_nodes(memory, head, size as nat).len()
                == steps + list_nodes(memory, current, size as nat).len(),
        decreases limit - steps,
    {
        if !can_hold_record(memory, current, LIST_ENTRY_SIZE) {
            proof {
                if is_list(memory, current, size as nat) {
                    assert(is_chain(
                        memory,
                        current,
                        list_nodes(memory, current, size as nat),
                        size as nat,
                    ));
                }
            }
            return None;
        }
        let link: ListEntry = ListEntry::read(memory, current);
        if link.flink == 0 {
            proof {
                assert(is_chain(memory, current, Seq::<u64>::empty(), size as nat));
                lemma_list_nodes(memory, current, Seq::<u64>::empty(), size as nat);
            }
            return Some(steps);
        }
        if !can_hold_record(memory, link.flink, size) {
            proof {
                if is_list(memory, current, size as nat) {
                    assert(is_chain(
                        memory,
                        current,
                        list_nodes(memory, current, size as nat),
                        size as nat,
                    ));
                }
            }
            return None;
        }
        proof {
            lemma_chain_step(memory, current, size as nat);
        }
        if steps == limit {
            return None;
        }
        current = link.flink;
        steps = steps + 1;
    }
}

} // verus!
