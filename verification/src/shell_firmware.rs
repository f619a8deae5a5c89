//! The firmware side of the shell protocol.
//!
//! The shell's interface table is a row of entry points, each with a fixed
//! order of parameters. `ShellFirmware` has one method per entry point that
//! is bound, with the parameters in the table's order: inputs by value or by
//! reference, outputs as slots and lengths that the firmware writes.
//!
//! What a firmware does with a call is its own affair. All that is fixed
//! here is that it answers as a state machine: the reply to a call and the
//! state after it are functions of the state before it and of the call.

use vstd::prelude::*;
use crate::file_list::is_file_list;
use crate::handle::Handle;
use crate::memory::FirmwareMemory;
use crate::shell_file::{holds_info_block, FileInfo, ShellFileHandle};
use crate::slot::{written_over, OutSlot};
use crate::status::Status;
use crate::text::CStr16;

verus! {

/// One call through the shell's interface table, with the values that
/// cross the boundary.
pub ghost enum ShellCall {
    /// Run a command line.
    Execute { parent_image: Handle, command_line: Seq<u16>, environment: Seq<Seq<u16>> },
    /// Ask whether a script is being processed.
    BatchIsActive,
    /// Switch paged output off.
    DisablePageBreak,
    /// Switch paged output on.
    EnablePageBreak,
    /// Ask for the metadata block of an open file.
    GetFileInfo { file_handle: ShellFileHandle },
    /// Replace the metadata of an open file.
    SetFileInfo { file_handle: ShellFileHandle, file_info: FileInfo },
    /// Open a file by its path.
    OpenFileByName { path: Seq<u16>, open_mode: u64 },
    /// Close an open file.
    CloseFile { file_handle: ShellFileHandle },
    /// Create a file.
    CreateFile { file_name: Seq<u16>, file_attribs: u64 },
    /// Read from an open file into `buffer`, as many bytes as it holds.
    ReadFile { file_handle: ShellFileHandle, buffer: Seq<u8> },
    /// Write `data` to an open file.
    WriteFile { file_handle: ShellFileHandle, data: Seq<u8> },
    /// Close and delete an open file.
    DeleteFile { file_handle: ShellFileHandle },
    /// Delete a file by its name.
    DeleteFileByName { file_name: Seq<u16> },
    /// List the files that match a pattern.
    FindFiles { file_pattern: Seq<u16> },
    /// Ask for the size of an open file.
    GetFileSize { file_handle: ShellFileHandle },
}

/// What the firmware hands back from one call.
pub ghost struct RawReply {
    /// The status that the call returned. Entry points without a status
    /// leave it at success.
    pub status: Status,
    /// The word that the firmware wrote to the call's output parameter or
    /// returned as its value, if it wrote one.
    pub output: Option<u64>,
    /// The length that the firmware left in the call's length parameter.
    pub size: usize,
    /// The bytes that the firmware left in the caller's buffer.
    pub data: Seq<u8>,
}

impl RawReply {
    /// The output word as read from storage that was zeroed before the
    /// call: zero when the firmware wrote nothing.
    pub open spec fn word(self) -> u64 {
        match self.output {
            Some(word) => word,
            None => 0,
        }
    }
}

/// The strings behind an array of raw string pointers.
pub open spec fn raw_strings(pointers: Seq<&[u16]>) -> Seq<Seq<u16>> {
    Seq::new(pointers.len(), |i: int| pointers[i]@)
}

/// The shell services of a firmware, one method per bound entry point.
pub trait ShellFirmware: Sized {
    /// What the firmware's replies depend on.
    type State;

    /// The current state of the firmware.
    spec fn state(&self) -> Self::State;

    /// What holds of the firmware between calls.
    spec fn inv(&self) -> bool;

    /// The memory in which the firmware keeps the records it hands out.
    spec fn firmware_memory(&self) -> &FirmwareMemory;

    /// The reply to `call` in state `state`.
    spec fn reply(state: Self::State, call: ShellCall) -> RawReply;

    /// The state after `call` in state `state`.
    spec fn after(state: Self::State, call: ShellCall) -> Self::State;

    /// The memory in which the firmware keeps the records it hands out.
    fn memory(&self) -> (memory: &FirmwareMemory)
        ensures
            memory == self.firmware_memory(),
    ;

    /// Runs `commandline`. On success the status of the command is written
    /// to `out_status`.
    fn execute(
        &mut self,
        parent_image_handle: &Handle,
        commandline: &CStr16,
        environment: &[&[u16]],
        out_status: &mut OutSlot<u64>,
    ) -> (status: Status)
        requires
            old(self).inv(),
        ensures
            final(self).inv(),
            final(self).state() == Self::after(old(self).state(), ShellCall::Execute { parent_image: *parent_image_handle, command_line: commandline@, environment: raw_strings(environment@), }),
            status == Self::reply(old(self).state(), ShellCall::Execute { parent_image: *parent_image_handle, command_line: commandline@, environment: raw_strings(environment@), }).status,
            final(out_status)@ == written_over(old(out_status)@, Self::reply(old(self).state(), ShellCall::Execute { parent_image: *parent_image_handle, command_line: commandline@, environment: raw_strings(environment@), }).output),
            status.succeeded() ==> final(out_status).is_init(),
    ;

    /// Tells whether a script is being processed.
    fn batch_is_active(&self) -> (active: bool)
        requires
            self.inv(),
        ensures
            active == (Self::reply(self.state(), ShellCall::BatchIsActive).word() != 0),
    ;

    /// Switches paged output on.
    fn enable_page_break(&mut self)
        requires
            old(self).inv(),
        ensures
            final(self).inv(),
            final(self).state() == Self::after(old(self).state(), ShellCall::EnablePageBreak),
    ;

    /// Switches paged output off.
    fn disable_page_break(&mut self)
        requires
            old(self).inv(),
        ensures
            final(self).inv(),
            final(self).state() == Self::after(old(self).state(), ShellCall::DisablePageBreak),
    ;

    /// Returns the address of the metadata block of `file_handle`, or null.
    /// A block that is handed out lies in the firmware's memory.
    fn get_file_info(&mut self, file_handle: ShellFileHandle) -> (info: u64)
        requires
            old(self).inv(),
        ensures
            final(self).inv(),
            final(self).state() == Self::after(
                old(self).state(),
                ShellCall::GetFileInfo { file_handle },
            ),
            info == Self::reply(old(self).state(), ShellCall::GetFileInfo { file_handle }).word(),
            info != 0 ==> holds_info_block(final(self).firmware_memory(), info),
    ;

    /// Replaces the metadata of `file_handle`.
    fn set_file_info(
        &mut self,
        file_handle: ShellFileHandle,
        file_info: &FileInfo,
    ) -> (status: Status)
        requires
            old(self).inv(),
        ensures
            final(self).inv(),
            final(self).state() == Self::after(old(self).state(), ShellCall::SetFileInfo { file_handle, file_info: *file_info }),
            status == Self::reply(old(self).state(), ShellCall::SetFileInfo { file_handle, file_info: *file_info }).status,
    ;

    /// Opens the file at `path`. On success the raw handle is written to
    /// `file_handle`; a null one says that there is no such file.
    fn open_file_by_name(
        &mut self,
        path: &[u16],
        file_handle: &mut OutSlot<u64>,
        open_mode: u64,
    ) -> (status: Status)
        requires
            old(self).inv(),
        ensures
            final(self).inv(),
            final(self).state() == Self::after(old(self).state(), ShellCall::OpenFileByName { path: path@, open_mode }),
            status == Self::reply(old(self).state(), ShellCall::OpenFileByName { path: path@, open_mode }).status,
            final(file_handle)@ == written_over(old(file_handle)@, Self::reply(old(self).state(), ShellCall::OpenFileByName { path: path@, open_mode }).output),
    ;

    /// Closes `file_handle`.
    fn close_file(&mut self, file_handle: ShellFileHandle) -> (status: Status)
        requires
            old(self).inv(),
        ensures
            final(self).inv(),
            final(self).state() == Self::after(old(self).state(), ShellCall::CloseFile { file_handle }),
            status == Self::reply(old(self).state(), ShellCall::CloseFile { file_handle }).status,
    ;

    /// Creates the file `file_name`. On success the raw handle is written
    /// to `out_file_handle`.
    fn create_file(
        &mut self,
        file_name: &CStr16,
        file_attribs: u64,
        out_file_handle: &mut OutSlot<u64>,
    ) -> (status: Status)
        requires
            old(self).inv(),
        ensures
            final(self).inv(),
            final(self).state() == Self::after(old(self).state(), ShellCall::CreateFile { file_name: file_name@, file_attribs }),
            status == Self::reply(old(self).state(), ShellCall::CreateFile { file_name: file_name@, file_attribs }).status,
            final(out_file_handle)@ == written_over(old(out_file_handle)@, Self::reply(old(self).state(), ShellCall::CreateFile { file_name: file_name@, file_attribs }).output),
    ;

    /// Reads from `file_handle` into `buffer`, whose length is passed in
    /// `read_size`. The firmware leaves in `read_size` the number of bytes
    /// it transferred. It never changes the length of the buffer.
    fn read_file(
        &mut self,
        file_handle: ShellFileHandle,
        read_size: &mut usize,
        buffer: &mut Vec<u8>,
    ) -> (status: Status)
        requires
            old(self).inv(),
            *old(read_size) == old(buffer)@.len(),
        ensures
            final(self).inv(),
            final(self).state() == Self::after(old(self).state(), ShellCall::ReadFile { file_handle, buffer: old(buffer)@ }),
            status == Self::reply(old(self).state(), ShellCall::ReadFile { file_handle, buffer: old(buffer)@ }).status,
            *final(read_size) == Self::reply(
                old(self).state(),
                ShellCall::ReadFile { file_handle, buffer: old(buffer)@ },
            ).size,
            final(buffer)@ == Self::reply(
                old(self).state(),
                ShellCall::ReadFile { file_handle, buffer: old(buffer)@ },
            ).data,
            final(buffer)@.len() == old(buffer)@.len(),
    ;

    /// Writes `buffer`, whose length is passed in `buffer_size`, to
    /// `file_handle`. The firmware leaves in `buffer_size` the number of
    /// bytes it transferred.
    fn write_file(
        &mut self,
        file_handle: ShellFileHandle,
        buffer_size: &mut usize,
        buffer: &[u8],
    ) -> (status: Status)
        requires
            old(self).inv(),
            *old(buffer_size) == buffer@.len(),
        ensures
            final(self).inv(),
            final(self).state() == Self::after(old(self).state(), ShellCall::WriteFile { file_handle, data: buffer@ }),
            status == Self::reply(old(self).state(), ShellCall::WriteFile { file_handle, data: buffer@ }).status,
            *final(buffer_size) == Self::reply(
                old(self).state(),
                ShellCall::WriteFile { file_handle, data: buffer@ },
            ).size,
    ;

    /// Closes and deletes `file_handle`.
    fn delete_file(&mut self, file_handle: ShellFileHandle) -> (status: Status)
        requires
            old(self).inv(),
        ensures
            final(self).inv(),
            final(self).state() == Self::after(old(self).state(), ShellCall::DeleteFile { file_handle }),
            status == Self::reply(old(self).state(), ShellCall::DeleteFile { file_handle }).status,
    ;

    /// Deletes the file `file_name`.
    fn delete_file_by_name(&mut self, file_name: &CStr16) -> (status: Status)
        requires
            old(self).inv(),
        ensures
            final(self).inv(),
            final(self).state() == Self::after(old(self).state(), ShellCall::DeleteFileByName { file_name: file_name@ }),
            status == Self::reply(old(self).state(), ShellCall::DeleteFileByName { file_name: file_name@ }).status,
    ;

    /// Lists the files that match `file_pattern`. On success the address of
    /// the head of a list in the firmware's memory is written to
    /// `out_file_list`, or null when no file matches.
    fn find_files(
        &mut self,
        file_pattern: &CStr16,
        out_file_list: &mut OutSlot<u64>,
    ) -> (status: Status)
        requires
            old(self).inv(),
        ensures
            final(self).inv(),
            final(self).state() == Self::after(old(self).state(), ShellCall::FindFiles { file_pattern: file_pattern@ }),
            status == Self::reply(old(self).state(), ShellCall::FindFiles { file_pattern: file_pattern@ }).status,
            final(out_file_list)@ == written_over(old(out_file_list)@, Self::reply(old(self).state(), ShellCall::FindFiles { file_pattern: file_pattern@ }).output),
            status.succeeded() ==> (final(out_file_list)@ matches Some(head) && (head != 0
                ==> is_file_list(final(self).firmware_memory(), head))),
    ;

    /// Writes the size of `file_handle` to `size`.
    fn get_file_size(
        &mut self,
        file_handle: ShellFileHandle,
        size: &mut OutSlot<u64>,
    ) -> (status: Status)
        requires
            old(self).inv(),
        ensures
            final(self).inv(),
            final(self).state() == Self::after(old(self).state(), ShellCall::GetFileSize { file_handle }),
            status == Self::reply(old(self).state(), ShellCall::GetFileSize { file_handle }).status,
            final(size)@ == written_over(old(size)@, Self::reply(old(self).state(), ShellCall::GetFileSize { file_handle }).output),
    ;
}

} // verus!
