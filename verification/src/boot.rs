//! Protocol handle resolution.
//!
//! The boot services keep, for every handle, the protocols installed on it
//! and the address of each protocol's interface table. Callers look handles
//! up by identifier and open an interface on a handle; what they get is a
//! raw address, to be read under the protocol's layout.

use vstd::prelude::*;
use crate::guid::{Guid, Identify};
use crate::handle::Handle;
use crate::status::{Result, Status};

verus! {

/// One protocol installed on a handle.
#[derive(Debug)]
pub struct ProtocolInterface {
    /// The protocol's identifier.
    pub guid: Guid,
    /// Address of the protocol's interface table.
    pub interface: u64,
}

/// A handle and the protocols installed on it, in installation order.
#[derive(Debug)]
pub struct HandleEntry {
    /// The handle.
    pub handle: Handle,
    /// The protocols installed on the handle.
    pub protocols: Vec<ProtocolInterface>,
}

/// The handle database of the boot services.
#[derive(Debug)]
pub struct BootServices {
    /// The known handles, in creation order.
    pub handles: Vec<HandleEntry>,
}

/// The system table, through which the boot services are reached.
#[derive(Debug)]
pub struct SystemTable {
    /// The boot services.
    pub boot: BootServices,
}

/// The interface address of the first protocol in `protocols` that is
/// identified by `guid`.
pub open spec fn first_interface(protocols: Seq<ProtocolInterface>, guid: Guid) -> Option<u64>
    decreases protocols.len(),
{
    if protocols.len() == 0 {
        None
    } else if protocols[0].guid == guid {
        Some(protocols[0].interface)
    } else {
        first_interface(protocols.skip(1), guid)
    }
}

/// Whether the protocol identified by `guid` is installed on the entry.
pub open spec fn exposes(entry: HandleEntry, guid: Guid) -> bool {
    first_interface(entry.protocols@, guid) is Some
}

/// The first entry of `entries` for `handle`.
pub open spec fn find_entry(entries: Seq<HandleEntry>, handle: Handle) -> Option<HandleEntry>
    decreases entries.len(),
{
    if entries.len() == 0 {
        None
    } else if entries[0].handle == handle {
        Some(entries[0])
    } else {
        find_entry(entries.skip(1), handle)
    }
}

impl HandleEntry {
    /// The interface address of the protocol identified by `guid`, if it is
    /// installed on this handle.
    pub fn interface(&self, guid: &Guid) -> (found: Option<u64>)
        ensures
            found == first_interface(self.protocols@, *guid),
    {
        let mut i: usize = 0;
        assert(self.protocols@.skip(0) =~= self.protocols@);
        while i < self.protocols.len()
            invariant
                i <= self.protocols@.len(),
                first_interface(self.protocols@, *guid) == first_interface(
                    self.protocols@.skip(i as int),
                    *guid,
                ),
            decreases self.protocols@.len() - i,
        {
            if self.protocols[i].guid == *guid {
                return Some(self.protocols[i].interface);
            }
            assert(self.protocols@.skip(i as int).skip(1) =~= self.protocols@.skip(i + 1));
            i = i + 1;
        }
        None
    }
}

impl BootServices {
    /// The handles that expose the protocol identified by `guid`, in
    /// database order.
    pub open spec fn handles_exposing(&self, guid: Guid) -> Seq<Handle> {
        self.handles@.filter(|entry: HandleEntry| exposes(entry, guid)).map_values(
            |entry: HandleEntry| entry.handle,
        )
    }

    /// The interface that opening the protocol identified by `guid` on
    /// `handle` yields: present exactly when the handle is known and
    /// exposes the protocol.
    pub open spec fn interface_on(&self, handle: Handle, guid: Guid) -> Option<u64> {
        match find_entry(self.handles@, handle) {
            Some(entry) => first_interface(entry.protocols@, guid),
            None => None,
        }
    }

    /// A database of the given handles.
    pub fn new(handles: Vec<HandleEntry>) -> (boot: Self)
        ensures
            boot.handles == handles,
    {
        BootServices { handles }
    }

    /// Index of the first entry for `handle`.
    fn position(&self, handle: Handle) -> (index: Option<usize>)
        ensures
            match index {
                Some(i) => i < self.handles@.len() && find_entry(self.handles@, handle) == Some(
                    self.handles@[i as int],
                ),
                None => find_entry(self.handles@, handle) is None,
            },
    {
        let mut i: usize = 0;
        assert(self.handles@.skip(0) =~= self.handles@);
        while i < self.handles.len()
            invariant
                i <= self.handles@.len(),
                find_entry(self.handles@, handle) == find_entry(
                    self.handles@.skip(i as int),
                    handle,
                ),
            decreases self.handles@.len() - i,
        {
            if self.handles[i].handle == handle {
                return Some(i);
            }
            assert(self.handles@.skip(i as int).skip(1) =~= self.handles@.skip(i + 1));
            i = i + 1;
        }
        None
    }

    /// Locates all handles that expose the protocol identified by `guid`.
    pub fn locate_handles(&self, guid: &Guid) -> (found: Vec<Handle>)
        ensures
            found@ == self.handles_exposing(*guid),
    {
        let ghost pred = |entry: HandleEntry| exposes(entry, *guid);
        let ghost pick = |entry: HandleEntry| entry.handle;
        let mut found: Vec<Handle> = Vec::new();
        let mut i: usize = 0;
        assert(self.handles@.take(0).filter(pred) =~= Seq::<HandleEntry>::empty()) by {
            reveal(Seq::filter);
        }
        while i < self.handles.len()
            invariant
                i <= self.handles@.len(),
                pred == |entry: HandleEntry| exposes(entry, *guid),
                pick == |entry: HandleEntry| entry.handle,
                found@ == self.handles@.take(i as int).filter(pred).map_values(pick),
            decreases self.handles@.len() - i,
        {
            let entry: &HandleEntry = &self.handles[i];
            proof {
                assert(self.handles@.take(i + 1) =~= self.handles@.take(i as int).push(*entry));
                self.handles@.take(i as int).lemma_filter_push(*entry, pred);
            }
            if entry.interface(guid).is_some() {
                found.push(entry.handle);
                assert(found@ =~= self.handles@.take(i + 1).filter(pred).map_values(pick));
            }
            i = i + 1;
        }
        assert(self.handles@.take(i as int) =~= self.handles@);
        found
    }

    /// Locates all handles that expose protocol `P`. The sequence may be
    /// empty; locating never fails.
    pub fn find_handles<P: Identify>(&self) -> (found: Result<Vec<Handle>>)
        ensures
            found matches Ok(handles) && handles@ == self.handles_exposing(P::spec_guid()),
    {
        let guid: Guid = P::guid();
        Ok(self.locate_handles(&guid))
    }

    /// Lists the identifiers of the protocols installed on `handle`, in
    /// installation order. An unknown handle is an invalid parameter.
    pub fn protocols_per_handle(&self, handle: Handle) -> (listed: Result<Vec<Guid>>)
        ensures
            match find_entry(self.handles@, handle) {
                Some(entry) => listed matches Ok(guids) && guids@ == entry.protocols@.map_values(
                    |protocol: ProtocolInterface| protocol.guid,
                ),
                None => listed == Err::<Vec<Guid>, Status>(Status::InvalidParameter),
            },
    {
        match self.position(handle) {
            Some(index) => {
                let entry: &HandleEntry = &self.handles[index];
                let ghost pick = |protocol: ProtocolInterface| protocol.guid;
                let mut guids: Vec<Guid> = Vec::new();
                let mut i: usize = 0;
                while i < entry.protocols.len()
                    invariant
                        i <= entry.protocols@.len(),
                        pick == |protocol: ProtocolInterface| protocol.guid,
                        guids@ == entry.protocols@.take(i as int).map_values(pick),
                    decreases entry.protocols@.len() - i,
                {
                    guids.push(entry.protocols[i].guid);
                    assert(guids@ =~= entry.protocols@.take(i + 1).map_values(pick));
                    i = i + 1;
                }
                assert(entry.protocols@.take(i as int) =~= entry.protocols@);
                Ok(guids)
            },
            None => Err(Status::InvalidParameter),
        }
    }

    /// Opens the protocol identified by `guid` on `handle` and returns the
    /// address of its interface table. When the handle does not expose the
    /// protocol the call fails with `NotFound` and yields no address.
    pub fn open_protocol(&self, handle: Handle, guid: &Guid) -> (opened: Result<u64>)
        ensures
            match self.interface_on(handle, *guid) {
                Some(interface) => opened == Ok::<u64, Status>(interface),
                None => opened == Err::<u64, Status>(Status::NotFound),
            },
    {
        match self.position(handle) {
            Some(index) => match self.handles[index].interface(guid) {
                Some(interface) => Ok(interface),
                None => Err(Status::NotFound),
            },
            None => Err(Status::NotFound),
        }
    }
}

impl SystemTable {
    /// The boot services of this system table.
    pub fn boot_services(&self) -> (boot: &BootServices)
        ensures
            *boot == self.boot,
    {
        &self.boot
    }
}

} // verus!
