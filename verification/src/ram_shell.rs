//! A shell firmware that keeps its files in memory.
//!
//! It serves the shell's entry points as a faithful firmware would: a file
//! is read and written through handles that remember their open mode and
//! position, the mode is enforced, and what was written is what is read
//! back. File lists, metadata blocks and the commands it can run are
//! installed up front.

use vstd::prelude::*;
use crate::file_list::{file_list_nodes, is_file_list, SHELL_FILE_INFO_SIZE};
use crate::handle::Handle;
use crate::list::{can_hold_record, check_list};
use crate::memory::FirmwareMemory;
use crate::shell_file::{
    holds_info_block, FileInfo, FileOpenMode, ShellFileHandle, FILE_INFO_HEADER_SIZE,
    FILE_MODE_READ,
};
use crate::shell_firmware::{RawReply, ShellCall, ShellFirmware};
use crate::slot::{written_over, OutSlot};
use crate::status::Status;
use crate::text::{ends_in_terminator, is_terminated, CStr16};

verus! {

/// Mode word with which `create_file` opens the file it made.
pub const CREATE_MODE: u64 = 0x8000_0000_0000_0003;

/// A file of the firmware.
pub ghost struct RamFileView {
    /// Name of the file, without terminator.
    pub name: Seq<u16>,
    /// Contents of the file.
    pub data: Seq<u8>,
    /// Address of the file's metadata block, or null.
    pub info: u64,
    /// Whether the file was deleted.
    pub deleted: bool,
}

/// An open file: which file, in which mode, and where the next transfer
/// starts.
#[derive(Debug, Clone, Copy, PartialEq, Eq, Structural)]
pub struct OpenFile {
    /// Index of the file.
    pub file: usize,
    /// Mode word that the file was opened with.
    pub mode: u64,
    /// Offset of the next byte to transfer.
    pub position: usize,
    /// Whether the handle is still open.
    pub open: bool,
}

/// A prepared file list.
pub ghost struct ListingView {
    /// The pattern that the list answers.
    pub pattern: Seq<u16>,
    /// Address of the head of the list.
    pub head: u64,
}

/// A command that the firmware can run.
pub ghost struct CommandView {
    /// The command line.
    pub line: Seq<u16>,
    /// Raw status that the command ends with.
    pub exit: u64,
}

/// Everything that the replies of the firmware depend on.
pub ghost struct RamState {
    /// The files, deleted ones included.
    pub files: Seq<RamFileView>,
    /// The handles handed out so far; handle `n + 1` is entry `n`.
    pub handles: Seq<OpenFile>,
    /// The prepared file lists.
    pub listings: Seq<ListingView>,
    /// The commands that can be run.
    pub commands: Seq<CommandView>,
    /// Whether a script is being processed.
    pub batch_active: bool,
    /// Whether paged output is on.
    pub page_break: bool,
}

/// Index of the first file at or after `from` that is named `name` and
/// not deleted.
pub open spec fn find_file(files: Seq<RamFileView>, name: Seq<u16>, from: int) -> Option<int>
    decreases files.len() - from,
{
    if from < 0 || from >= files.len() {
        None
    } else if !files[from].deleted && files[from].name == name {
        Some(from)
    } else {
        find_file(files, name, from + 1)
    }
}

/// Index of the first listing at or after `from` for `pattern`.
pub open spec fn find_listing(listings: Seq<ListingView>, pattern: Seq<u16>, from: int) -> Option<
    int,
>
    decreases listings.len() - from,
{
    if from < 0 || from >= listings.len() {
        None
    } else if listings[from].pattern == pattern {
        Some(from)
    } else {
        find_listing(listings, pattern, from + 1)
    }
}

/// Index of the first command at or after `from` with the line `line`.
pub open spec fn find_command(commands: Seq<CommandView>, line: Seq<u16>, from: int) -> Option<int>
    decreases commands.len() - from,
{
    if from < 0 || from >= commands.len() {
        None
    } else if commands[from].line == line {
        Some(from)
    } else {
        find_command(commands, line, from + 1)
    }
}

/// `old` with `data` written over it from offset `position` on; the file
/// grows when the data runs past its end.
pub open spec fn write_at(old: Seq<u8>, position: int, data: Seq<u8>) -> Seq<u8> {
    if position + data.len() >= old.len() {
        old.take(position) + data
    } else {
        old.take(position) + data + old.skip(position + data.len())
    }
}

/// The bytes in `buffer` after `count` bytes of `data` from offset
/// `position` were read into its front.
pub open spec fn read_into(buffer: Seq<u8>, data: Seq<u8>, position: int, count: int) -> Seq<u8> {
    data.subrange(position, position + count) + buffer.skip(count)
}

impl RamState {
    /// Index of the open handle that `file_handle` names, if it names one
    /// whose file still exists.
    pub open spec fn open_index(self, file_handle: ShellFileHandle) -> Option<int> {
        let index = file_handle.addr() - 1;
        if 0 <= index < self.handles.len() && self.handles[index].open && 0
            <= self.handles[index].file < self.files.len()
            && !self.files[self.handles[index].file as int].deleted {
            Some(index)
        } else {
            None
        }
    }

    /// Number of bytes that a read of `wanted` bytes through handle
    /// `index` transfers: what is left of the file, at most `wanted`.
    pub open spec fn readable(self, index: int, wanted: int) -> int {
        let left = self.files[self.handles[index].file as int].data.len()
            - self.handles[index].position;
        if left < 0 {
            0
        } else if wanted < left {
            wanted
        } else {
            left
        }
    }

    /// The state with one more handle, on file `file` in mode `mode`.
    pub open spec fn with_handle(self, file: int, mode: u64) -> RamState {
        RamState {
            handles: self.handles.push(
                OpenFile { file: file as usize, mode, position: 0, open: true },
            ),
            ..self
        }
    }

    /// The state with one more file, empty and named `name`.
    pub open spec fn with_file(self, name: Seq<u16>) -> RamState {
        RamState {
            files: self.files.push(
                RamFileView { name, data: Seq::empty(), info: 0, deleted: false },
            ),
            ..self
        }
    }

    /// The state with handle `index` changed to `handle`.
    pub open spec fn with_handle_at(self, index: int, handle: OpenFile) -> RamState {
        RamState { handles: self.handles.update(index, handle), ..self }
    }

    /// The state with file `index` changed to `file`.
    pub open spec fn with_file_at(self, index: int, file: RamFileView) -> RamState {
        RamState { files: self.files.update(index, file), ..self }
    }
}

/// A reply that carries only a status.
pub open spec fn plain(status: Status) -> RawReply {
    RawReply { status, output: None, size: 0, data: Seq::empty() }
}

/// A successful reply that carries the output word `word`.
pub open spec fn word_reply(word: u64) -> RawReply {
    RawReply { status: Status::Success, output: Some(word), size: 0, data: Seq::empty() }
}

/// Reply to opening the file named `name` in mode `mode`: the next handle
/// when the file exists or is to be created, a null handle when it does
/// not exist, and out of resources when no handle or file is left.
pub open spec fn open_reply(state: RamState, name: Seq<u16>, mode: u64) -> RawReply {
    if state.handles.len() >= usize::MAX || state.files.len() >= usize::MAX {
        plain(Status::OutOfResources)
    } else if find_file(state.files, name, 0) is Some || FileOpenMode::Create.spec_is_set_in(
        mode,
    ) {
        word_reply((state.handles.len() + 1) as u64)
    } else {
        word_reply(0)
    }
}

/// State after opening the file named `name` in mode `mode`.
pub open spec fn open_after(state: RamState, name: Seq<u16>, mode: u64) -> RamState {
    if state.handles.len() >= usize::MAX || state.files.len() >= usize::MAX {
        state
    } else {
        match find_file(state.files, name, 0) {
            Some(file) => state.with_handle(file, mode),
            None => if FileOpenMode::Create.spec_is_set_in(mode) {
                state.with_file(name).with_handle(state.files.len() as int, mode)
            } else {
                state
            },
        }
    }
}

/// The reply of the firmware to `call` in state `state`.
pub open spec fn ram_reply(state: RamState, call: ShellCall) -> RawReply {
    match call {
        ShellCall::Execute { parent_image, command_line, environment } => match find_command(
            state.commands,
            command_line,
            0,
        ) {
            Some(index) => word_reply(state.commands[index].exit),
            None => plain(Status::NotFound),
        },
        ShellCall::BatchIsActive => word_reply(
            if state.batch_active {
                1
            } else {
                0
            },
        ),
        ShellCall::DisablePageBreak => plain(Status::Success),
        ShellCall::EnablePageBreak => plain(Status::Success),
        ShellCall::GetFileInfo { file_handle } => match state.open_index(file_handle) {
            Some(index) => word_reply(state.files[state.handles[index].file as int].info),
            None => word_reply(0),
        },
        ShellCall::SetFileInfo { file_handle, file_info } => match state.open_index(file_handle) {
            Some(index) => plain(Status::Unsupported),
            None => plain(Status::InvalidParameter),
        },
        ShellCall::OpenFileByName { path, open_mode } => if is_terminated(path) {
            open_reply(state, path.drop_last(), open_mode)
        } else {
            plain(Status::InvalidParameter)
        },
        ShellCall::CloseFile { file_handle } => plain(Status::Success),
        ShellCall::CreateFile { file_name, file_attribs } => open_reply(
            state,
            file_name,
            CREATE_MODE,
        ),
        ShellCall::ReadFile { file_handle, buffer } => match state.open_index(file_handle) {
            Some(index) => if FileOpenMode::Read.spec_is_set_in(state.handles[index].mode) {
                RawReply {
                    status: Status::Success,
                    output: None,
                    size: state.readable(index, buffer.len() as int) as usize,
                    data: read_into(
                        buffer,
                        state.files[state.handles[index].file as int].data,
                        state.handles[index].position as int,
                        state.readable(index, buffer.len() as int),
                    ),
                }
            } else {
                RawReply {
                    status: Status::AccessDenied,
                    output: None,
                    size: buffer.len() as usize,
                    data: buffer,
                }
            },
            None => RawReply {
                status: Status::InvalidParameter,
                output: None,
                size: buffer.len() as usize,
                data: buffer,
            },
        },
        ShellCall::WriteFile { file_handle, data } => match state.open_index(file_handle) {
            Some(index) => if !FileOpenMode::Write.spec_is_set_in(state.handles[index].mode) {
                RawReply {
                    status: Status::AccessDenied,
                    output: None,
                    size: data.len() as usize,
                    data: Seq::empty(),
                }
            } else if state.handles[index].position + data.len() > usize::MAX {
                RawReply {
                    status: Status::OutOfResources,
                    output: None,
                    size: data.len() as usize,
                    data: Seq::empty(),
                }
            } else {
                RawReply {
                    status: Status::Success,
                    output: None,
                    size: data.len() as usize,
                    data: Seq::empty(),
                }
            },
            None => RawReply {
                status: Status::InvalidParameter,
                output: None,
                size: data.len() as usize,
                data: Seq::empty(),
            },
        },
        ShellCall::DeleteFile { file_handle } => match state.open_index(file_handle) {
            Some(index) => plain(Status::Success),
            None => plain(Status::InvalidParameter),
        },
        ShellCall::DeleteFileByName { file_name } => match find_file(state.files, file_name, 0) {
            Some(file) => plain(Status::Success),
            None => plain(Status::NotFound),
        },
        ShellCall::FindFiles { file_pattern } => match find_listing(
            state.listings,
            file_pattern,
            0,
        ) {
            Some(index) => word_reply(state.listings[index].head),
            None => word_reply(0),
        },
        ShellCall::GetFileSize { file_handle } => match state.open_index(file_handle) {
            Some(index) => word_reply(
                state.files[state.handles[index].file as int].data.len() as u64,
            ),
            None => plain(Status::InvalidParameter),
        },
    }
}

/// The state of the firmware after `call` in state `state`.
pub open spec fn ram_after(state: RamState, call: ShellCall) -> RamState {
    match call {
        ShellCall::DisablePageBreak => RamState { page_break: false, ..state },
        ShellCall::EnablePageBreak => RamState { page_break: true, ..state },
        ShellCall::OpenFileByName { path, open_mode } => if is_terminated(path) {
            open_after(state, path.drop_last(), open_mode)
        } else {
            state
        },
        ShellCall::CloseFile { file_handle } => match state.open_index(file_handle) {
            Some(index) => state.with_handle_at(
                index,
                OpenFile { open: false, ..state.handles[index] },
            ),
            None => state,
        },
        ShellCall::CreateFile { file_name, file_attribs } => open_after(
            state,
            file_name,
            CREATE_MODE,
        ),
        ShellCall::ReadFile { file_handle, buffer } => match state.open_index(file_handle) {
            Some(index) => if FileOpenMode::Read.spec_is_set_in(state.handles[index].mode) {
                state.with_handle_at(
                    index,
                    OpenFile {
                        position: (state.handles[index].position + state.readable(
                            index,
                            buffer.len() as int,
                        )) as usize,
                        ..state.handles[index]
                    },
                )
            } else {
                state
            },
            None => state,
        },
        ShellCall::WriteFile { file_handle, data } => match state.open_index(file_handle) {
            Some(index) => if FileOpenMode::Write.spec_is_set_in(state.handles[index].mode)
                && state.handles[index].position + data.len() <= usize::MAX {
                let file = state.handles[index].file as int;
                state.with_file_at(
                    file,
                    RamFileView {
                        data: write_at(
                            state.files[file].data,
                            state.handles[index].position as int,
                            data,
                        ),
                        ..state.files[file]
                    },
                ).with_handle_at(
                    index,
                    OpenFile {
                        position: (state.handles[index].position + data.len()) as usize,
                        ..state.handles[index]
                    },
                )
            } else {
                state
            },
            None => state,
        },
        ShellCall::DeleteFile { file_handle } => match state.open_index(file_handle) {
            Some(index) => {
                let file = state.handles[index].file as int;
                state.with_file_at(
                    file,
                    RamFileView { deleted: true, ..state.files[file] },
                ).with_handle_at(index, OpenFile { open: false, ..state.handles[index] })
            },
            None => state,
        },
        ShellCall::DeleteFileByName { file_name } => match find_file(state.files, file_name, 0) {
            Some(file) => state.with_file_at(
                file,
                RamFileView { deleted: true, ..state.files[file] },
            ),
            None => state,
        },
        _ => state,
    }
}

impl RamState {
    /// Every handle is on a file and stands inside it.
    pub open spec fn wf(self) -> bool {
        &&& forall|i: int|
            0 <= i < self.handles.len() ==> (#[trigger] self.handles[i]).file < self.files.len()
        &&& forall|i: int|
            0 <= i < self.handles.len() ==> (#[trigger] self.handles[i]).position
                <= self.files[self.handles[i].file as int].data.len()
    }
}

/// What was written is what is read back. When `data` is written through
/// a handle opened for writing, and the device has room for it, the whole
/// length is reported as transferred; a read of the same byte range through
/// another handle on that file, opened for reading and standing where the
/// write began, then transfers that length too and fills the buffer with
/// `data`.
pub proof fn lemma_written_bytes_are_read_back(
    state: RamState,
    writer: ShellFileHandle,
    reader: ShellFileHandle,
    data: Seq<u8>,
    buffer: Seq<u8>,
)
    requires
        state.wf(),
        state.open_index(writer) is Some,
        state.open_index(reader) is Some,
        state.open_index(writer) != state.open_index(reader),
        state.handles[state.open_index(writer).unwrap()].file
            == state.handles[state.open_index(reader).unwrap()].file,
        state.handles[state.open_index(writer).unwrap()].position
            == state.handles[state.open_index(reader).unwrap()].position,
        FileOpenMode::Write.spec_is_set_in(state.handles[state.open_index(writer).unwrap()].mode),
        FileOpenMode::Read.spec_is_set_in(state.handles[state.open_index(reader).unwrap()].mode),
        state.handles[state.open_index(writer).unwrap()].position + data.len() <= usize::MAX,
        buffer.len() == data.len(),
    ensures
        ram_reply(state, ShellCall::WriteFile { file_handle: writer, data }).status
            == Status::Success,
        ram_reply(state, ShellCall::WriteFile { file_handle: writer, data }).size == data.len(),
        ram_after(state, ShellCall::WriteFile { file_handle: writer, data }).wf(),
        ram_reply(
            ram_after(state, ShellCall::WriteFile { file_handle: writer, data }),
            ShellCall::ReadFile { file_handle: reader, buffer },
        ).status == Status::Success,
        ram_reply(
            ram_after(state, ShellCall::WriteFile { file_handle: writer, data }),
            ShellCall::ReadFile { file_handle: reader, buffer },
        ).size == data.len(),
        ram_reply(
            ram_after(state, ShellCall::WriteFile { file_handle: writer, data }),
            ShellCall::ReadFile { file_handle: reader, buffer },
        ).data == data,
{
    let w = state.open_index(writer).unwrap();
    let r = state.open_index(reader).unwrap();
    let file = state.handles[w].file as int;
    let position = state.handles[w].position as int;
    let written = ram_after(state, ShellCall::WriteFile { file_handle: writer, data });
    assert(written.handles[r] == state.handles[r]);
    assert(written.files[file].data == write_at(state.files[file].data, position, data));
    assert(written.open_index(reader) == Some(r));
    assert(written.readable(r, buffer.len() as int) == data.len());
    let reply = ram_reply(written, ShellCall::ReadFile { file_handle: reader, buffer });
    assert(reply.data =~= data);
}

/// The open mode is enforced: a write through a handle that was opened
/// for reading only is denied, and leaves the firmware as it was.
pub proof fn lemma_read_only_handle_rejects_writes(
    state: RamState,
    file_handle: ShellFileHandle,
    data: Seq<u8>,
)
    requires
        state.open_index(file_handle) is Some,
        state.handles[state.open_index(file_handle).unwrap()].mode == FILE_MODE_READ,
    ensures
        ram_reply(state, ShellCall::WriteFile { file_handle, data }).status
            == Status::AccessDenied,
        ram_after(state, ShellCall::WriteFile { file_handle, data }) == state,
{
    assert(0x0000_0000_0000_0001u64 & 0x0000_0000_0000_0002u64 == 0) by (bit_vector);
}

/// Opening an existing file hands out the next handle, on that file, in
/// the mode that was asked for, standing at the start of the file.
pub proof fn lemma_open_hands_out_a_handle(state: RamState, path: Seq<u16>, open_mode: u64)
    requires
        is_terminated(path),
        find_file(state.files, path.drop_last(), 0) is Some,
        state.handles.len() < usize::MAX,
        state.files.len() < usize::MAX,
    ensures
        ram_reply(state, ShellCall::OpenFileByName { path, open_mode }).status == Status::Success,
        ram_reply(state, ShellCall::OpenFileByName { path, open_mode }).output == Some(
            (state.handles.len() + 1) as u64,
        ),
        ram_after(state, ShellCall::OpenFileByName { path, open_mode }).open_index(
            ShellFileHandle::at((state.handles.len() + 1) as u64),
        ) == Some(state.handles.len() as int),
        ram_after(state, ShellCall::OpenFileByName { path, open_mode }).handles[state.handles.len() as int]
            == (OpenFile {
            file: find_file(state.files, path.drop_last(), 0).unwrap() as usize,
            mode: open_mode,
            position: 0,
            open: true,
        }),
{
    lemma_find_file_finds(state.files, path.drop_last(), 0);
    ShellFileHandle::at((state.handles.len() + 1) as u64).lemma_identity(
        (state.handles.len() + 1) as u64,
    );
}

/// Opening an existing file for reading only succeeds and hands out a
/// handle; a write through that handle is then denied.
pub proof fn lemma_write_after_read_only_open_is_denied(
    state: RamState,
    path: Seq<u16>,
    data: Seq<u8>,
)
    requires
        is_terminated(path),
        find_file(state.files, path.drop_last(), 0) is Some,
        state.handles.len() < usize::MAX,
        state.files.len() < usize::MAX,
    ensures
        ram_reply(
            state,
            ShellCall::OpenFileByName { path, open_mode: FILE_MODE_READ },
        ).status == Status::Success,
        ram_reply(
            state,
            ShellCall::OpenFileByName { path, open_mode: FILE_MODE_READ },
        ).word() != 0,
        ram_reply(
            ram_after(
                state,
                ShellCall::OpenFileByName { path, open_mode: FILE_MODE_READ },
            ),
            ShellCall::WriteFile {
                file_handle: ShellFileHandle::at(
                    ram_reply(
                        state,
                        ShellCall::OpenFileByName {
                            path,
                            open_mode: FILE_MODE_READ,
                        },
                    ).word(),
                ),
                data,
            },
        ).status == Status::AccessDenied,
{
    let open = ShellCall::OpenFileByName { path, open_mode: FILE_MODE_READ };
    lemma_open_hands_out_a_handle(state, path, FILE_MODE_READ);
    lemma_read_only_handle_rejects_writes(
        ram_after(state, open),
        ShellFileHandle::at(ram_reply(state, open).word()),
        data,
    );
}

/// A file that is found is one of the files, is named as asked and is not
/// deleted.
pub proof fn lemma_find_file_finds(files: Seq<RamFileView>, name: Seq<u16>, from: int)
    requires
        find_file(files, name, from) is Some,
    ensures
        from <= find_file(files, name, from).unwrap() < files.len(),
        files[find_file(files, name, from).unwrap()].name == name,
        !files[find_file(files, name, from).unwrap()].deleted,
    decreases files.len() - from,
{
    if 0 <= from < files.len() && !(!files[from].deleted && files[from].name == name) {
        lemma_find_file_finds(files, name, from + 1);
    }
}

/// A file of the firmware.
#[derive(Debug)]
pub struct RamFile {
    /// Name of the file, without terminator.
    pub name: Vec<u16>,
    /// Contents of the file.
    pub data: Vec<u8>,
    /// Address of the file's metadata block, or null.
    pub info: u64,
    /// Whether the file was deleted.
    pub deleted: bool,
}

impl View for RamFile {
    type V = RamFileView;

    open spec fn view(&self) -> RamFileView {
        RamFileView { name: self.name@, data: self.data@, info: self.info, deleted: self.deleted }
    }
}

/// A prepared file list.
#[derive(Debug)]
pub struct Listing {
    /// The pattern that the list answers.
    pub pattern: Vec<u16>,
    /// Address of the head of the list.
    pub head: u64,
}

impl View for Listing {
    type V = ListingView;

    open spec fn view(&self) -> ListingView {
        ListingView { pattern: self.pattern@, head: self.head }
    }
}

/// A command that the firmware can run.
#[derive(Debug)]
pub struct Command {
    /// The command line.
    pub line: Vec<u16>,
    /// Raw status that the command ends with.
    pub exit: u64,
}

impl View for Command {
    type V = CommandView;

    open spec fn view(&self) -> CommandView {
        CommandView { line: self.line@, exit: self.exit }
    }
}

/// A shell firmware that keeps its files in memory.
#[derive(Debug)]
pub struct RamShell {
    /// The memory that holds the installed lists and metadata blocks.
    pub memory: FirmwareMemory,
    /// The files, deleted ones included.
    pub files: Vec<RamFile>,
    /// The handles handed out so far; handle `n + 1` is entry `n`.
    pub handles: Vec<OpenFile>,
    /// The prepared file lists.
    pub listings: Vec<Listing>,
    /// The commands that can be run.
    pub commands: Vec<Command>,
    /// Whether a script is being processed.
    pub batch_active: bool,
    /// Whether paged output is on.
    pub page_break: bool,
}

/// Tells whether two strings hold the same units.
pub fn same_units(first: &[u16], second: &[u16]) -> (same: bool)
    ensures
        same == (first@ == second@),
{
    if first.len() != second.len() {
        return false;
    }
    let mut i: usize = 0;
    while i < first.len()
        invariant
            i <= first@.len(),
            first@.len() == second@.len(),
            forall|j: int| 0 <= j < i ==> first@[j] == second@[j],
        decreases first@.len() - i,
    {
        if first[i] != second[i] {
            return false;
        }
        i = i + 1;
    }
    assert(first@ =~= second@);
    true
}

impl RamShell {
    /// The state that the replies depend on.
    pub open spec fn ram_state(&self) -> RamState {
        RamState {
            files: self.files@.map_values(|file: RamFile| file@),
            handles: self.handles@,
            listings: self.listings@.map_values(|listing: Listing| listing@),
            commands: self.commands@.map_values(|command: Command| command@),
            batch_active: self.batch_active,
            page_break: self.page_break,
        }
    }

    /// What holds between calls: every handle is on a file and stands
    /// inside it, every installed list is a list in memory, and every
    /// metadata block is one.
    pub open spec fn ram_inv(&self) -> bool {
        &&& forall|i: int|
            0 <= i < self.handles@.len() ==> (#[trigger] self.handles@[i]).file
                < self.files@.len()
        &&& forall|i: int|
            0 <= i < self.handles@.len() ==> (#[trigger] self.handles@[i]).position
                <= self.files@[self.handles@[i].file as int].data@.len()
        &&& forall|i: int|
            0 <= i < self.listings@.len() ==> is_file_list(
                &self.memory,
                (#[trigger] self.listings@[i]).head,
            )
        &&& forall|i: int|
            0 <= i < self.files@.len() ==> (#[trigger] self.files@[i]).info == 0
                || holds_info_block(&self.memory, self.files@[i].info)
    }

    /// A firmware without files, lists or commands, whose records will lie
    /// in `memory`.
    pub fn new(memory: FirmwareMemory) -> (firmware: Self)
        ensures
            firmware.ram_inv(),
            firmware.memory == memory,
            firmware.ram_state() == (RamState {
                files: Seq::empty(),
                handles: Seq::empty(),
                listings: Seq::empty(),
                commands: Seq::empty(),
                batch_active: false,
                page_break: false,
            }),
    {
        let firmware = RamShell {
            memory,
            files: Vec::new(),
            handles: Vec::new(),
            listings: Vec::new(),
            commands: Vec::new(),
            batch_active: false,
            page_break: false,
        };
        assert(firmware.ram_state().files =~= Seq::empty());
        assert(firmware.ram_state().listings =~= Seq::empty());
        assert(firmware.ram_state().commands =~= Seq::empty());
        firmware
    }

    /// Installs a file with the given name, contents and metadata block.
    /// The file is installed exactly when `info` is null or the address of
    /// a metadata block in memory.
    pub fn install_file(&mut self, name: Vec<u16>, data: Vec<u8>, info: u64) -> (installed: bool)
        requires
            old(self).ram_inv(),
        ensures
            final(self).ram_inv(),
            final(self).memory == old(self).memory,
            installed == (info == 0 || holds_info_block(&old(self).memory, info)),
            installed ==> final(self).ram_state() == (RamState {
                files: old(self).ram_state().files.push(
                    RamFileView { name: name@, data: data@, info, deleted: false },
                ),
                ..old(self).ram_state()
            }),
            !installed ==> final(self).ram_state() == old(self).ram_state(),
    {
        if info != 0 && !can_hold_record(&self.memory, info, FILE_INFO_HEADER_SIZE) {
            return false;
        }
        self.files.push(RamFile { name, data, info, deleted: false });
        assert(self.ram_state().files =~= old(self).ram_state().files.push(
            RamFileView { name: name@, data: data@, info, deleted: false },
        ));
        true
    }

    /// Installs the list entered at `head` as the answer to `pattern`. The
    /// list is installed exactly when `head` enters a finite list of file
    /// records in memory with no more records than the memory has bytes.
    pub fn install_listing(&mut self, pattern: Vec<u16>, head: u64) -> (installed: bool)
        requires
            old(self).ram_inv(),
        ensures
            final(self).ram_inv(),
            final(self).memory == old(self).memory,
            installed == (is_file_list(&old(self).memory, head) && file_list_nodes(
                &old(self).memory,
                head,
            ).len() <= old(self).memory.bytes@.len()),
            installed ==> final(self).ram_state() == (RamState {
                listings: old(self).ram_state().listings.push(
                    ListingView { pattern: pattern@, head },
                ),
                ..old(self).ram_state()
            }),
            !installed ==> final(self).ram_state() == old(self).ram_state(),
    {
        let limit: usize = self.memory.bytes.len();
        if check_list(&self.memory, head, SHELL_FILE_INFO_SIZE, limit).is_none() {
            return false;
        }
        self.listings.push(Listing { pattern, head });
        assert(self.ram_state().listings =~= old(self).ram_state().listings.push(
            ListingView { pattern: pattern@, head },
        ));
        true
    }

    /// Installs a command: running `line` succeeds and the command ends
    /// with `exit`.
    pub fn install_command(&mut self, line: Vec<u16>, exit: Status)
        requires
            old(self).ram_inv(),
        ensures
            final(self).ram_inv(),
            final(self).memory == old(self).memory,
            final(self).ram_state() == (RamState {
                commands: old(self).ram_state().commands.push(
                    CommandView { line: line@, exit: exit.raw() },
                ),
                ..old(self).ram_state()
            }),
    {
        let exit: u64 = exit.to_raw();
        self.commands.push(Command { line, exit });
        assert(self.ram_state().commands =~= old(self).ram_state().commands.push(
            CommandView { line: line@, exit },
        ));
    }

    /// Sets whether a script is being processed.
    pub fn set_batch_active(&mut self, active: bool)
        requires
            old(self).ram_inv(),
        ensures
            final(self).ram_inv(),
            final(self).memory == old(self).memory,
            final(self).ram_state() == (RamState {
                batch_active: active,
                ..old(self).ram_state()
            }),
    {
        self.batch_active = active;
    }

    /// Tells whether paged output is on.
    pub fn page_break_enabled(&self) -> (enabled: bool)
        ensures
            enabled == self.ram_state().page_break,
    {
        self.page_break
    }

    /// Index of the first file named `name` that is not deleted.
    fn file_index(&self, name: &[u16]) -> (found: Option<usize>)
        ensures
            match found {
                Some(index) => index < self.files@.len() && find_file(
                    self.ram_state().files,
                    name@,
                    0,
                ) == Some(index as int),
                None => find_file(self.ram_state().files, name@, 0) is None,
            },
    {
        let mut i: usize = 0;
        while i < self.files.len()
            invariant
                i <= self.files@.len(),
                find_file(self.ram_state().files, name@, 0) == find_file(
                    self.ram_state().files,
                    name@,
                    i as int,
                ),
            decreases self.files@.len() - i,
        {
            if !self.files[i].deleted && same_units(self.files[i].name.as_slice(), name) {
                return Some(i);
            }
            i = i + 1;
        }
        None
    }

    /// Index of the first listing for `pattern`.
    fn listing_index(&self, pattern: &[u16]) -> (found: Option<usize>)
        ensures
            match found {
                Some(index) => index < self.listings@.len() && find_listing(
                    self.ram_state().listings,
                    pattern@,
                    0,
                ) == Some(index as int),
                None => find_listing(self.ram_state().listings, pattern@, 0) is None,
            },
    {
        let mut i: usize = 0;
        while i < self.listings.len()
            invariant
                i <= self.listings@.len(),
                find_listing(self.ram_state().listings, pattern@, 0) == find_listing(
                    self.ram_state().listings,
                    pattern@,
                    i as int,
                ),
            decreases self.listings@.len() - i,
        {
            if same_units(self.listings[i].pattern.as_slice(), pattern) {
                return Some(i);
            }
            i = i + 1;
        }
        None
    }

    /// Index of the first command with the line `line`.
    fn command_index(&self, line: &[u16]) -> (found: Option<usize>)
        ensures
            match found {
                Some(index) => index < self.commands@.len() && find_command(
                    self.ram_state().commands,
                    line@,
                    0,
                ) == Some(index as int),
                None => find_command(self.ram_state().commands, line@, 0) is None,
            },
    {
        let mut i: usize = 0;
        while i < self.commands.len()
            invariant
                i <= self.commands@.len(),
                find_command(self.ram_state().commands, line@, 0) == find_command(
                    self.ram_state().commands,
                    line@,
                    i as int,
                ),
            decreases self.commands@.len() - i,
        {
            if same_units(self.commands[i].line.as_slice(), line) {
                return Some(i);
            }
            i = i + 1;
        }
        None
    }

    /// Index of the open handle that `file_handle` names.
    fn handle_index(&self, file_handle: ShellFileHandle) -> (found: Option<usize>)
        ensures
            match found {
                Some(index) => self.ram_state().open_index(file_handle) == Some(index as int),
                None => self.ram_state().open_index(file_handle) is None,
            },
    {
        let raw: u64 = file_handle.as_raw();
        let size: usize = self.handles.len();
        if raw - 1 >= size as u64 {
            return None;
        }
        let index: usize = (raw - 1) as usize;
        let entry: OpenFile = self.handles[index];
        if !entry.open || entry.file >= self.files.len() {
            return None;
        }
        if self.files[entry.file].deleted {
            return None;
        }
        Some(index)
    }
}

impl RamShell {
    /// Opens the file named `name` in mode `mode`, creating it when the
    /// mode asks for that, and writes the raw handle to `out`.
    fn open_named(&mut self, name: &[u16], mode: u64, out: &mut OutSlot<u64>) -> (status: Status)
        requires
            old(self).ram_inv(),
        ensures
            final(self).ram_inv(),
            final(self).memory == old(self).memory,
            final(self).ram_state() == open_after(old(self).ram_state(), name@, mode),
            status == open_reply(old(self).ram_state(), name@, mode).status,
            final(out)@ == written_over(
                old(out)@,
                open_reply(old(self).ram_state(), name@, mode).output,
            ),
    {
        if self.handles.len() == usize::MAX || self.files.len() == usize::MAX {
            return Status::OutOfResources;
        }
        match self.file_index(name) {
            Some(file) => {
                self.handles.push(OpenFile { file, mode, position: 0, open: true });
                out.write(self.handles.len() as u64);
                Status::Success
            },
            None => {
                if FileOpenMode::Create.is_set_in(mode) {
                    let file: usize = self.files.len();
                    self.files.push(
                        RamFile {
                            name: vstd::slice::slice_to_vec(name),
                            data: Vec::new(),
                            info: 0,
                            deleted: false,
                        },
                    );
                    self.handles.push(OpenFile { file, mode, position: 0, open: true });
                    out.write(self.handles.len() as u64);
                    assert(self.ram_state().files =~= old(self).ram_state().with_file(
                        name@,
                    ).files);
                    Status::Success
                } else {
                    out.write(0);
                    Status::Success
                }
            },
        }
    }
}

impl ShellFirmware for RamShell {
    type State = RamState;

    open spec fn state(&self) -> RamState {
        self.ram_state()
    }

    open spec fn inv(&self) -> bool {
        self.ram_inv()
    }

    open spec fn firmware_memory(&self) -> &FirmwareMemory {
        &self.memory
    }

    open spec fn reply(state: RamState, call: ShellCall) -> RawReply {
        ram_reply(state, call)
    }

    open spec fn after(state: RamState, call: ShellCall) -> RamState {
        ram_after(state, call)
    }

    fn memory(&self) -> (memory: &FirmwareMemory) {
        &self.memory
    }

    fn execute(
        &mut self,
        parent_image_handle: &Handle,
        commandline: &CStr16,
        environment: &[&[u16]],
        out_status: &mut OutSlot<u64>,
    ) -> (status: Status) {
        match self.command_index(commandline.to_u16_slice()) {
            Some(index) => {
                out_status.write(self.commands[index].exit);
                Status::Success
            },
            None => Status::NotFound,
        }
    }

    fn batch_is_active(&self) -> (active: bool) {
        self.batch_active
    }

    fn enable_page_break(&mut self) {
        self.page_break = true;
    }

    fn disable_page_break(&mut self) {
        self.page_break = false;
    }

    fn get_file_info(&mut self, file_handle: ShellFileHandle) -> (info: u64) {
        match self.handle_index(file_handle) {
            Some(index) => self.files[self.handles[index].file].info,
            None => 0,
        }
    }

    fn set_file_info(
        &mut self,
        file_handle: ShellFileHandle,
        file_info: &FileInfo,
    ) -> (status: Status) {
        match self.handle_index(file_handle) {
            Some(index) => Status::Unsupported,
            None => Status::InvalidParameter,
        }
    }

    fn open_file_by_name(
        &mut self,
        path: &[u16],
        file_handle: &mut OutSlot<u64>,
        open_mode: u64,
    ) -> (status: Status) {
        if !ends_in_terminator(path) {
            return Status::InvalidParameter;
        }
        let name: &[u16] = vstd::slice::slice_subrange(path, 0, path.len() - 1);
        assert(name@ =~= path@.drop_last());
        self.open_named(name, open_mode, file_handle)
    }

    fn close_file(&mut self, file_handle: ShellFileHandle) -> (status: Status) {
        match self.handle_index(file_handle) {
            Some(index) => {
                self.handles[index].open = false;
            },
            None => {},
        }
        Status::Success
    }

    fn create_file(
        &mut self,
        file_name: &CStr16,
        file_attribs: u64,
        out_file_handle: &mut OutSlot<u64>,
    ) -> (status: Status) {
        self.open_named(file_name.to_u16_slice(), CREATE_MODE, out_file_handle)
    }

    fn read_file(
        &mut self,
        file_handle: ShellFileHandle,
        read_size: &mut usize,
        buffer: &mut Vec<u8>,
    ) -> (status: Status) {
        match self.handle_index(file_handle) {
            None => Status::InvalidParameter,
            Some(index) => {
                let entry: OpenFile = self.handles[index];
                if !FileOpenMode::Read.is_set_in(entry.mode) {
                    return Status::AccessDenied;
                }
                let left: usize = self.files[entry.file].data.len() - entry.position;
                let count: usize = if buffer.len() < left {
                    buffer.len()
                } else {
                    left
                };
                let mut i: usize = 0;
                while i < count
                    invariant
                        i <= count,
                        entry.file < self.files@.len(),
                        entry.position + count <= self.files@[entry.file as int].data@.len()
                            <= usize::MAX,
                        count <= buffer@.len(),
                        buffer@.len() == old(buffer)@.len(),
                        forall|j: int|
                            0 <= j < i ==> buffer@[j] == self.files@[entry.file as int].data@[entry.position
                                + j],
                        forall|j: int| i <= j < buffer@.len() ==> buffer@[j] == old(buffer)@[j],
                    decreases count - i,
                {
                    buffer.set(i, self.files[entry.file].data[entry.position + i]);
                    i = i + 1;
                }
                self.handles[index].position = entry.position + count;
                *read_size = count;
                assert(buffer@ =~= read_into(
                    old(buffer)@,
                    self.files@[entry.file as int].data@,
                    entry.position as int,
                    count as int,
                ));
                Status::Success
            },
        }
    }

    fn write_file(
        &mut self,
        file_handle: ShellFileHandle,
        buffer_size: &mut usize,
        buffer: &[u8],
    ) -> (status: Status) {
        match self.handle_index(file_handle) {
            None => Status::InvalidParameter,
            Some(index) => {
                let entry: OpenFile = self.handles[index];
                if !FileOpenMode::Write.is_set_in(entry.mode) {
                    return Status::AccessDenied;
                }
                if buffer.len() > usize::MAX - entry.position {
                    return Status::OutOfResources;
                }
                let file: usize = entry.file;
                let position: usize = entry.position;
                let ghost before = old(self).files@[file as int].data@;
                let mut i: usize = 0;
                while i < buffer.len()
                    invariant
                        i <= buffer@.len(),
                        position + buffer@.len() <= usize::MAX,
                        position <= before.len(),
                        before == old(self).files@[file as int].data@,
                        file < self.files@.len(),
                        self.files@.len() == old(self).files@.len(),
                        self.handles == old(self).handles,
                        self.listings == old(self).listings,
                        self.commands == old(self).commands,
                        self.memory == old(self).memory,
                        self.batch_active == old(self).batch_active,
                        self.page_break == old(self).page_break,
                        forall|k: int|
                            0 <= k < self.files@.len() && k != file ==> self.files@[k] == old(
                                self,
                            ).files@[k],
                        self.files@[file as int].name == old(self).files@[file as int].name,
                        self.files@[file as int].info == old(self).files@[file as int].info,
                        self.files@[file as int].deleted == old(self).files@[file as int].deleted,
                        self.files@[file as int].data@.len() == if position + i > before.len() {
                            position + i
                        } else {
                            before.len() as int
                        },
                        forall|j: int|
                            0 <= j < position ==> self.files@[file as int].data@[j] == before[j],
                        forall|j: int|
                            position <= j < position + i ==> self.files@[file as int].data@[j]
                                == buffer@[j - position],
                        forall|j: int|
                            position + i <= j < before.len() ==> self.files@[file as int].data@[j]
                                == before[j],
                    decreases buffer@.len() - i,
                {
                    if position + i < self.files[file].data.len() {
                        self.files[file].data.set(position + i, buffer[i]);
                    } else {
                        self.files[file].data.push(buffer[i]);
                    }
                    i = i + 1;
                }
                self.handles[index].position = position + buffer.len();
                proof {
                    let written = write_at(before, position as int, buffer@);
                    assert(self.files@[file as int].data@ =~= written);
                    let state = old(self).ram_state();
                    let expected = ram_after(
                        state,
                        ShellCall::WriteFile { file_handle, data: buffer@ },
                    );
                    assert(self.ram_state().files =~= expected.files);
                    assert(self.ram_state().handles =~= expected.handles);
                }
                Status::Success
            },
        }
    }

    fn delete_file(&mut self, file_handle: ShellFileHandle) -> (status: Status) {
        match self.handle_index(file_handle) {
            Some(index) => {
                let file: usize = self.handles[index].file;
                self.files[file].deleted = true;
                self.handles[index].open = false;
                proof {
                    let expected = ram_after(
                        old(self).ram_state(),
                        ShellCall::DeleteFile { file_handle },
                    );
                    assert(self.ram_state().files =~= expected.files);
                    assert(self.ram_state().handles =~= expected.handles);
                }
                Status::Success
            },
            None => Status::InvalidParameter,
        }
    }

    fn delete_file_by_name(&mut self, file_name: &CStr16) -> (status: Status) {
        match self.file_index(file_name.to_u16_slice()) {
            Some(file) => {
                self.files[file].deleted = true;
                proof {
                    let expected = ram_after(
                        old(self).ram_state(),
                        ShellCall::DeleteFileByName { file_name: file_name@ },
                    );
                    assert(self.ram_state().files =~= expected.files);
                }
                Status::Success
            },
            None => Status::NotFound,
        }
    }

    fn find_files(
        &mut self,
        file_pattern: &CStr16,
        out_file_list: &mut OutSlot<u64>,
    ) -> (status: Status) {
        match self.listing_index(file_pattern.to_u16_slice()) {
            Some(index) => {
                out_file_list.write(self.listings[index].head);
            },
            None => {
                out_file_list.write(0);
            },
        }
        Status::Success
    }

    fn get_file_size(
        &mut self,
        file_handle: ShellFileHandle,
        size: &mut OutSlot<u64>,
    ) -> (status: Status) {
        match self.handle_index(file_handle) {
            Some(index) => {
                size.write(self.files[self.handles[index].file].data.len() as u64);
                Status::Success
            },
            None => Status::InvalidParameter,
        }
    }
}

} // verus!
