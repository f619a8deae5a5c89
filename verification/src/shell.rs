//! The shell protocol, bound to a firmware.
//!
//! Each operation follows one pattern: set storage aside for the outputs,
//! make the call with the parameters in the table's order, and turn the
//! returned status into a `Result`. An output is read only after the
//! firmware has reported success; on failure the storage is dropped unread
//! and the firmware's status is handed on as it came.

use vstd::prelude::*;
use crate::boot::BootServices;
use crate::file_list::ShellFileIter;
use crate::guid::{Guid, Identify};
use crate::handle::{Event, Handle};
use crate::list::holds_record;
use crate::memory::FirmwareMemory;
use crate::shell_file::{info_block_at, FileInfo, ShellFileHandle};
use crate::shell_firmware::{raw_strings, RawReply, ShellCall, ShellFirmware};
use crate::slot::OutSlot;
use crate::status::{status_of_raw, Result, Status};
use crate::text::CStr16;

verus! {

/// Identifier of the shell protocol.
pub const SHELL_GUID: u128 = 0x6302d008_7f9b_4f30_87ac_60c9fef5da4e;

/// Size in bytes of the shell's interface table.
pub const SHELL_TABLE_SIZE: usize = 360;

/// Offset of the execution break event in the interface table.
pub const EXECUTION_BREAK_OFFSET: u64 = 312;

/// Offset of the major version in the interface table.
pub const MAJOR_VERSION_OFFSET: u64 = 320;

/// Offset of the minor version in the interface table.
pub const MINOR_VERSION_OFFSET: u64 = 324;

/// The shell protocol of a firmware: its entry points, and the data fields
/// of its interface table.
#[derive(Debug)]
pub struct Shell<T: ShellFirmware> {
    /// The firmware behind the entry points of the table.
    pub table: T,
    /// Event that is signalled when the user asks to break execution.
    pub execution_break: Option<Event>,
    /// Major version of the shell.
    pub major_version: u32,
    /// Minor version of the shell.
    pub minor_version: u32,
}

impl<T: ShellFirmware> Identify for Shell<T> {
    open spec fn spec_guid() -> Guid {
        Guid { value: SHELL_GUID }
    }

    fn guid() -> (guid: Guid) {
        Guid { value: SHELL_GUID }
    }
}

/// Whether a shell interface table can lie at `addr`.
pub open spec fn holds_shell_table(memory: &FirmwareMemory, addr: u64) -> bool {
    holds_record(memory, addr, SHELL_TABLE_SIZE as nat)
}

/// The arguments of `execute` as they cross the boundary: each environment
/// string becomes its units with the terminator, in the caller's order.
pub open spec fn execute_call(
    parent_image: Handle,
    command_line: &CStr16,
    environment: Seq<&CStr16>,
) -> ShellCall {
    ShellCall::Execute {
        parent_image,
        command_line: command_line@,
        environment: Seq::new(environment.len(), |i: int| environment[i]@.push(0)),
    }
}

/// Result of `execute`: on success the status of the command, read from
/// the output slot; else the firmware's status.
pub open spec fn execute_result(status: Status, slot: Option<u64>) -> Result<Status> {
    if status.succeeded() {
        Ok(status_of_raw(slot.unwrap()))
    } else {
        Err(status)
    }
}

/// Result of a call that opens a file: on success the handle read from the
/// output slot, absent when the raw handle is null; else the firmware's
/// status.
pub open spec fn handle_result(status: Status, slot: Option<u64>) -> Result<Option<ShellFileHandle>> {
    if status.succeeded() {
        Ok(ShellFileHandle::of_raw(slot.unwrap()))
    } else {
        Err(status)
    }
}

/// Result of `get_file_size`: on success the size read from the output
/// slot; else the firmware's status.
pub open spec fn size_result(status: Status, slot: Option<u64>) -> Result<u64> {
    if status.succeeded() {
        Ok(slot.unwrap())
    } else {
        Err(status)
    }
}

/// Result of a transfer: on success the length that the firmware left in
/// the length parameter; else the firmware's status.
pub open spec fn transfer_result(status: Status, size: usize) -> Result<usize> {
    if status.succeeded() {
        Ok(size)
    } else {
        Err(status)
    }
}

/// Result of `find_files`, before a cursor is made: on success the head of
/// the list read from the output slot, absent when it is null; else the
/// firmware's status.
pub open spec fn list_result(status: Status, slot: Option<u64>) -> Result<Option<u64>> {
    if status.succeeded() {
        if slot.unwrap() == 0 {
            Ok(None)
        } else {
            Ok(Some(slot.unwrap()))
        }
    } else {
        Err(status)
    }
}

/// An output is observed only after success: whenever one of the results
/// carries a value, the status that it was made from reported success.
pub proof fn lemma_output_implies_success(status: Status, slot: Option<u64>, size: usize)
    ensures
        execute_result(status, slot) is Ok ==> status.succeeded(),
        handle_result(status, slot) is Ok ==> status.succeeded(),
        size_result(status, slot) is Ok ==> status.succeeded(),
        transfer_result(status, size) is Ok ==> status.succeeded(),
        list_result(status, slot) is Ok ==> status.succeeded(),
        status.unit_result() is Ok ==> status.succeeded(),
{
}

/// A failure reaches the caller as the firmware returned it: every result
/// made from a failed status is that status, whatever the outputs hold.
pub proof fn lemma_failure_is_propagated(status: Status, slot: Option<u64>, size: usize)
    requires
        !status.succeeded(),
    ensures
        execute_result(status, slot) == Err::<Status, Status>(status),
        handle_result(status, slot) == Err::<Option<ShellFileHandle>, Status>(status),
        size_result(status, slot) == Err::<u64, Status>(status),
        transfer_result(status, size) == Err::<usize, Status>(status),
        list_result(status, slot) == Err::<Option<u64>, Status>(status),
        status.unit_result() == Err::<(), Status>(status),
{
}

/// A successful call that leaves a null raw handle yields an absent
/// handle, not a failure; any other raw handle yields the handle at that
/// address.
pub proof fn lemma_null_handle_is_absent(status: Status, raw: u64)
    requires
        status.succeeded(),
    ensures
        raw == 0 ==> handle_result(status, Some(raw)) == Ok::<Option<ShellFileHandle>, Status>(
            None,
        ),
        raw != 0 ==> handle_result(status, Some(raw)) == Ok::<Option<ShellFileHandle>, Status>(
            Some(ShellFileHandle::at(raw)),
        ),
        raw != 0 ==> ShellFileHandle::at(raw).addr() == raw,
{
    ShellFileHandle::at(raw).lemma_identity(raw);
}

/// Reads the output of `execute` once the call has returned `status`.
pub fn finish_execute(status: Status, out_status: OutSlot<u64>) -> (r: Result<Status>)
    requires
        status.succeeded() ==> out_status.is_init(),
    ensures
        r == execute_result(status, out_status@),
{
    let read_output = || -> (code: Status)
        requires
            out_status.is_init()
        ensures
            code == status_of_raw(out_status@.unwrap())
    {
        Status::from_raw(out_status.assume_init())
    };
    status.into_with_val(read_output)
}

/// Reads the output of a call that opens a file once the call has
/// returned `status`.
pub fn finish_open(status: Status, out_file_handle: OutSlot<u64>) -> (r: Result<
    Option<ShellFileHandle>,
>)
    requires
        status.succeeded() ==> out_file_handle.is_init(),
    ensures
        r == handle_result(status, out_file_handle@),
{
    let read_output = || -> (handle: Option<ShellFileHandle>)
        requires
            out_file_handle.is_init()
        ensures
            handle == ShellFileHandle::of_raw(out_file_handle@.unwrap())
    {
        ShellFileHandle::from_raw(out_file_handle.assume_init())
    };
    status.into_with_val(read_output)
}

/// Reads the output of `get_file_size` once the call has returned
/// `status`.
pub fn finish_get_file_size(status: Status, file_size: OutSlot<u64>) -> (r: Result<u64>)
    requires
        status.succeeded() ==> file_size.is_init(),
    ensures
        r == size_result(status, file_size@),
{
    let read_output = || -> (size: u64)
        requires
            file_size.is_init()
        ensures
            size == file_size@.unwrap()
    {
        file_size.assume_init()
    };
    status.into_with_val(read_output)
}

/// Hands on the transferred length once a transfer has returned `status`.
pub fn finish_transfer(status: Status, size: usize) -> (r: Result<usize>)
    ensures
        r == transfer_result(status, size),
{
    let read_output = || -> (length: usize)
        ensures
            length == size
    {
        size
    };
    status.into_with_val(read_output)
}

/// Reads the output of `find_files` once the call has returned `status`.
pub fn finish_find_files(status: Status, out_list: OutSlot<u64>) -> (r: Result<Option<u64>>)
    requires
        status.succeeded() ==> out_list.is_init(),
    ensures
        r == list_result(status, out_list@),
{
    let read_output = || -> (head: Option<u64>)
        requires
            out_list.is_init()
        ensures
            list_result(Status::Success, out_list@) == Ok::<Option<u64>, Status>(head)
    {
        let out_list: u64 = out_list.assume_init();
        if out_list == 0 {
            // no files found
            None
        } else {
            Some(out_list)
        }
    };
    status.into_with_val(read_output)
}

/// Builds the array of raw string pointers for an environment: one entry
/// per string, in order, each the string's units with its terminator. The
/// entries borrow from the strings, which therefore outlive the array.
pub fn marshal_environment<'a>(environment: &'a [&'a CStr16]) -> (raw: Vec<&'a [u16]>)
    ensures
        raw@.len() == environment@.len(),
        forall|i: int| 0 <= i < raw@.len() ==> (#[trigger] raw@[i])@ == environment@[i]@.push(0),
{
    let mut raw: Vec<&'a [u16]> = Vec::new();
    let mut i: usize = 0;
    while i < environment.len()
        invariant
            i <= environment@.len(),
            raw@.len() == i,
            forall|j: int| 0 <= j < raw@.len() ==> (#[trigger] raw@[j])@ == environment@[j]@.push(0),
        decreases environment@.len() - i,
    {
        raw.push(environment[i].to_u16_slice_with_nul());
        i = i + 1;
    }
    raw
}

impl<T: ShellFirmware> Shell<T> {
    /// The binding is usable: the firmware behind it is between calls.
    pub open spec fn wf(&self) -> bool {
        self.table.inv()
    }

    /// The reply of the firmware behind this binding to `call`.
    pub open spec fn reply_to(&self, call: ShellCall) -> RawReply {
        T::reply(self.table.state(), call)
    }

    /// This binding is `before` after the firmware has served `call`: the
    /// firmware has moved on, the data fields are as they were.
    pub open spec fn follows(&self, before: &Self, call: ShellCall) -> bool {
        &&& self.wf()
        &&& self.table.state() == T::after(before.table.state(), call)
        &&& self.execution_break == before.execution_break
        &&& self.major_version == before.major_version
        &&& self.minor_version == before.minor_version
    }

    /// Binds the interface table at `interface` in the memory of `table`:
    /// reads its data fields at their offsets and keeps the firmware for
    /// the calls.
    pub fn bind(table: T, interface: u64) -> (shell: Self)
        requires
            table.inv(),
            holds_shell_table(table.firmware_memory(), interface),
        ensures
            shell.wf(),
            shell.table == table,
            shell.execution_break == Event::of_raw(
                table.firmware_memory().u64_at(interface + EXECUTION_BREAK_OFFSET),
            ),
            shell.major_version == table.firmware_memory().u32_at(
                interface + MAJOR_VERSION_OFFSET,
            ),
            shell.minor_version == table.firmware_memory().u32_at(
                interface + MINOR_VERSION_OFFSET,
            ),
    {
        let memory: &FirmwareMemory = table.memory();
        let execution_break: Option<Event> = Event::from_raw(
            memory.read_u64(interface + EXECUTION_BREAK_OFFSET),
        );
        let major_version: u32 = memory.read_u32(interface + MAJOR_VERSION_OFFSET);
        let minor_version: u32 = memory.read_u32(interface + MINOR_VERSION_OFFSET);
        Shell { table, execution_break, major_version, minor_version }
    }

    /// Opens the shell protocol on `handle` and binds the table that the
    /// boot services resolve it to. When the handle does not expose the
    /// protocol the call fails with `NotFound` and no binding is made.
    pub fn open(bt: &BootServices, handle: Handle, table: T) -> (opened: Result<Self>)
        requires
            table.inv(),
            bt.interface_on(handle, Self::spec_guid()) matches Some(interface)
                ==> holds_shell_table(table.firmware_memory(), interface),
        ensures
            match bt.interface_on(handle, Self::spec_guid()) {
                Some(interface) => opened matches Ok(shell) && shell.wf() && shell.table == table
                    && shell.execution_break == Event::of_raw(
                    table.firmware_memory().u64_at(interface + EXECUTION_BREAK_OFFSET),
                ) && shell.major_version == table.firmware_memory().u32_at(
                    interface + MAJOR_VERSION_OFFSET,
                ) && shell.minor_version == table.firmware_memory().u32_at(
                    interface + MINOR_VERSION_OFFSET,
                ),
                None => opened matches Err(status) && status == Status::NotFound,
            },
    {
        let guid: Guid = Self::guid();
        match bt.open_protocol(handle, &guid) {
            Ok(interface) => Ok(Self::bind(table, interface)),
            Err(status) => Err(status),
        }
    }

    /// Runs `command_line` with `environment`. Returns the status of the
    /// command when the firmware could run it.
    pub fn execute(
        &mut self,
        parent_image: Handle,
        command_line: &CStr16,
        environment: &[&CStr16],
    ) -> (r: Result<Status>)
        requires
            old(self).wf(),
        ensures
            final(self).follows(old(self), execute_call(parent_image, command_line, environment@)),
            r == execute_result(
                old(self).reply_to(execute_call(parent_image, command_line, environment@)).status,
                old(self).reply_to(execute_call(parent_image, command_line, environment@)).output,
            ),
    {
        let mut out_status: OutSlot<u64> = OutSlot::uninit();
        let raw_environment: Vec<&[u16]> = marshal_environment(environment);
        proof {
            assert(raw_strings(raw_environment@) =~= Seq::new(
                environment@.len(),
                |i: int| environment@[i]@.push(0),
            ));
        }
        let status: Status = self.table.execute(
            &parent_image,
            command_line,
            raw_environment.as_slice(),
            &mut out_status,
        );
        finish_execute(status, out_status)
    }

    /// Returns `true` if any script files are currently being processed.
    #[must_use]
    pub fn batch_is_active(&self) -> (active: bool)
        requires
            self.wf(),
        ensures
            active == (self.reply_to(ShellCall::BatchIsActive).word() != 0),
    {
        self.table.batch_is_active()
    }

    /// Disables the page break output mode.
    pub fn disable_page_break(&mut self)
        requires
            old(self).wf(),
        ensures
            final(self).follows(old(self), ShellCall::DisablePageBreak),
    {
        self.table.disable_page_break()
    }

    /// Enables the page break output mode.
    pub fn enable_page_break(&mut self)
        requires
            old(self).wf(),
        ensures
            final(self).follows(old(self), ShellCall::EnablePageBreak),
    {
        self.table.enable_page_break()
    }

    /// Returns the metadata of `file_handle`, or `None` when the firmware
    /// hands out a null block.
    pub fn get_file_info(&mut self, file_handle: ShellFileHandle) -> (info: Option<FileInfo>)
        requires
            old(self).wf(),
        ensures
            final(self).follows(old(self), ShellCall::GetFileInfo { file_handle }),
            info == (if old(self).reply_to(ShellCall::GetFileInfo { file_handle }).word() == 0 {
                None
            } else {
                Some(
                    info_block_at(
                        final(self).table.firmware_memory(),
                        old(self).reply_to(ShellCall::GetFileInfo { file_handle }).word(),
                    ),
                )
            }),
    {
        let info: u64 = self.table.get_file_info(file_handle);
        if info == 0 {
            None
        } else {
            Some(FileInfo::read(self.table.memory(), info))
        }
    }

    /// Replaces the metadata of `file_handle`.
    pub fn set_file_info(
        &mut self,
        file_handle: ShellFileHandle,
        file_info: &FileInfo,
    ) -> (r: Result<()>)
        requires
            old(self).wf(),
        ensures
            final(self).follows(
                old(self),
                ShellCall::SetFileInfo { file_handle, file_info: *file_info },
            ),
            r == old(self).reply_to(
                ShellCall::SetFileInfo { file_handle, file_info: *file_info },
            ).status.unit_result(),
    {
        self.table.set_file_info(file_handle, file_info).into_result()
    }

    /// Opens the file `file_name` with the mode word `mode`. A successful
    /// call may still yield no handle: `Ok(None)` says that the firmware
    /// found no such file, which is no failure.
    pub fn open_file_by_name(&mut self, file_name: &[u16], mode: u64) -> (r: Result<
        Option<ShellFileHandle>,
    >)
        requires
            old(self).wf(),
        ensures
            final(self).follows(
                old(self),
                ShellCall::OpenFileByName { path: file_name@, open_mode: mode },
            ),
            r == handle_result(
                old(self).reply_to(
                    ShellCall::OpenFileByName { path: file_name@, open_mode: mode },
                ).status,
                Some(
                    old(self).reply_to(
                        ShellCall::OpenFileByName { path: file_name@, open_mode: mode },
                    ).word(),
                ),
            ),
    {
        let mut out_file_handle: OutSlot<u64> = OutSlot::zeroed();
        let status: Status = self.table.open_file_by_name(file_name, &mut out_file_handle, mode);
        finish_open(status, out_file_handle)
    }

    /// Closes `file_handle`. All data is flushed to the device and the file
    /// is closed.
    pub fn close_file(&mut self, file_handle: ShellFileHandle) -> (r: Result<()>)
        requires
            old(self).wf(),
        ensures
            final(self).follows(old(self), ShellCall::CloseFile { file_handle }),
            r == old(self).reply_to(ShellCall::CloseFile { file_handle }).status.unit_result(),
    {
        self.table.close_file(file_handle).into_result()
    }

    /// Creates the file `file_name` with the attribute bits `file_attribs`.
    /// The handle of a successful call may be absent.
    pub fn create_file(&mut self, file_name: &CStr16, file_attribs: u64) -> (r: Result<
        Option<ShellFileHandle>,
    >)
        requires
            old(self).wf(),
        ensures
            final(self).follows(
                old(self),
                ShellCall::CreateFile { file_name: file_name@, file_attribs },
            ),
            r == handle_result(
                old(self).reply_to(
                    ShellCall::CreateFile { file_name: file_name@, file_attribs },
                ).status,
                Some(
                    old(self).reply_to(
                        ShellCall::CreateFile { file_name: file_name@, file_attribs },
                    ).word(),
                ),
            ),
    {
        let mut out_file_handle: OutSlot<u64> = OutSlot::zeroed();
        let status: Status = self.table.create_file(file_name, file_attribs, &mut out_file_handle);
        finish_open(status, out_file_handle)
    }

    /// Reads from `file_handle` into `buffer`, asking for as many bytes as
    /// the buffer holds. Returns the number of bytes that the firmware
    /// transferred.
    pub fn read_file(&mut self, file_handle: ShellFileHandle, buffer: &mut Vec<u8>) -> (r: Result<
        usize,
    >)
        requires
            old(self).wf(),
        ensures
            final(self).follows(
                old(self),
                ShellCall::ReadFile { file_handle, buffer: old(buffer)@ },
            ),
            final(buffer)@ == old(self).reply_to(
                ShellCall::ReadFile { file_handle, buffer: old(buffer)@ },
            ).data,
            final(buffer)@.len() == old(buffer)@.len(),
            r == transfer_result(
                old(self).reply_to(
                    ShellCall::ReadFile { file_handle, buffer: old(buffer)@ },
                ).status,
                old(self).reply_to(
                    ShellCall::ReadFile { file_handle, buffer: old(buffer)@ },
                ).size,
            ),
    {
        let mut read_size: usize = buffer.len();
        let status: Status = self.table.read_file(file_handle, &mut read_size, buffer);
        finish_transfer(status, read_size)
    }

    /// Writes all of `buffer` to `file_handle`. Returns the number of bytes
    /// that the firmware transferred.
    pub fn write_file(&mut self, file_handle: ShellFileHandle, buffer: &[u8]) -> (r: Result<usize>)
        requires
            old(self).wf(),
        ensures
            final(self).follows(old(self), ShellCall::WriteFile { file_handle, data: buffer@ }),
            r == transfer_result(
                old(self).reply_to(ShellCall::WriteFile { file_handle, data: buffer@ }).status,
                old(self).reply_to(ShellCall::WriteFile { file_handle, data: buffer@ }).size,
            ),
    {
        let mut read_size: usize = buffer.len();
        let status: Status = self.table.write_file(file_handle, &mut read_size, buffer);
        finish_transfer(status, read_size)
    }

    /// Closes and deletes `file_handle`.
    pub fn delete_file(&mut self, file_handle: ShellFileHandle) -> (r: Result<()>)
        requires
            old(self).wf(),
        ensures
            final(self).follows(old(self), ShellCall::DeleteFile { file_handle }),
            r == old(self).reply_to(ShellCall::DeleteFile { file_handle }).status.unit_result(),
    {
        self.table.delete_file(file_handle).into_result()
    }

    /// Deletes the file `file_name`.
    pub fn delete_file_by_name(&mut self, file_name: &CStr16) -> (r: Result<()>)
        requires
            old(self).wf(),
        ensures
            final(self).follows(
                old(self),
                ShellCall::DeleteFileByName { file_name: file_name@ },
            ),
            r == old(self).reply_to(
                ShellCall::DeleteFileByName { file_name: file_name@ },
            ).status.unit_result(),
    {
        self.table.delete_file_by_name(file_name).into_result()
    }

    /// Lists the files that match `file_pattern`. On success returns a
    /// cursor on the head of the firmware's list, or `None` when the
    /// firmware found no file. The cursor borrows the binding: no further
    /// call can be made while it is in use.
    pub fn find_files<'a>(&'a mut self, file_pattern: &CStr16) -> (r: Result<
        Option<ShellFileIter<'a>>,
    >)
        requires
            old(self).wf(),
        ensures
            final(self).follows(old(self), ShellCall::FindFiles { file_pattern: file_pattern@ }),
            match list_result(
                old(self).reply_to(ShellCall::FindFiles { file_pattern: file_pattern@ }).status,
                old(self).reply_to(ShellCall::FindFiles { file_pattern: file_pattern@ }).output,
            ) {
                Ok(Some(head)) => r matches Ok(Some(iter)) && iter.wf() && iter.current() == head
                    && iter.memory() == final(self).table.firmware_memory(),
                Ok(None) => r matches Ok(None),
                Err(status) => r matches Err(e) && e == status,
            },
    {
        let mut out_list: OutSlot<u64> = OutSlot::uninit();
        let status: Status = self.table.find_files(file_pattern, &mut out_list);
        match finish_find_files(status, out_list) {
            Ok(Some(head)) => Ok(
                Some(ShellFileIter::from_file_info_ptr(self.table.memory(), head)),
            ),
            Ok(None) => Ok(None),
            Err(status) => Err(status),
        }
    }

    /// Returns the size of `file_handle` in bytes.
    pub fn get_file_size(&mut self, file_handle: ShellFileHandle) -> (r: Result<u64>)
        requires
            old(self).wf(),
        ensures
            final(self).follows(old(self), ShellCall::GetFileSize { file_handle }),
            r == size_result(
                old(self).reply_to(ShellCall::GetFileSize { file_handle }).status,
                Some(old(self).reply_to(ShellCall::GetFileSize { file_handle }).word()),
            ),
    {
        let mut file_size: OutSlot<u64> = OutSlot::zeroed();
        let status: Status = self.table.get_file_size(file_handle, &mut file_size);
        finish_get_file_size(status, file_size)
    }
}

} // verus!
