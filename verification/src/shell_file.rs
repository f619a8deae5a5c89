//! The values that the shell's file operations exchange with the firmware:
//! open modes, file handles and the file metadata block.

use vstd::prelude::*;
use crate::list::holds_record;
use crate::memory::FirmwareMemory;

verus! {

/// Mode bit: the file is opened for reading.
pub const FILE_MODE_READ: u64 = 0x0000_0000_0000_0001;

/// Mode bit: the file is opened for writing.
pub const FILE_MODE_WRITE: u64 = 0x0000_0000_0000_0002;

/// Mode bit: the file is created if it does not exist. It is the high bit
/// of the mode word.
pub const FILE_MODE_CREATE: u64 = 0x8000_0000_0000_0000;

/// One flag of a file open mode. A mode word is the bitwise or of the bits
/// of the flags that the caller asks for.
#[derive(Debug, Clone, Copy, PartialEq, Eq, Structural)]
pub enum FileOpenMode {
    /// Open for reading.
    Read,
    /// Open for writing.
    Write,
    /// Create the file if it does not exist.
    Create,
}

impl FileOpenMode {
    /// The bit of this flag in a mode word.
    pub open spec fn spec_bits(self) -> u64 {
        match self {
            FileOpenMode::Read => FILE_MODE_READ,
            FileOpenMode::Write => FILE_MODE_WRITE,
            FileOpenMode::Create => FILE_MODE_CREATE,
        }
    }

    /// Whether the mode word `mode` has this flag set.
    pub open spec fn spec_is_set_in(self, mode: u64) -> bool {
        mode & self.spec_bits() != 0
    }

    /// The bit of this flag in a mode word.
    pub fn bits(self) -> (bits: u64)
        ensures
            bits == self.spec_bits(),
    {
        match self {
            FileOpenMode::Read => FILE_MODE_READ,
            FileOpenMode::Write => FILE_MODE_WRITE,
            FileOpenMode::Create => FILE_MODE_CREATE,
        }
    }

    /// Tells whether the mode word `mode` has this flag set.
    pub fn is_set_in(self, mode: u64) -> (set: bool)
        ensures
            set == self.spec_is_set_in(mode),
    {
        mode & self.bits() != 0
    }
}

/// An opaque token that names an open file of the shell. It is never null.
#[derive(Clone, Copy, Debug, PartialEq, Eq, Structural)]
pub struct ShellFileHandle {
    raw: u64,
}

impl ShellFileHandle {
    #[verifier::type_invariant]
    spec fn non_null(self) -> bool {
        self.raw != 0
    }

    /// The address that the firmware uses for this file handle.
    pub closed spec fn addr(self) -> u64 {
        self.raw
    }

    /// The file handle whose address is `raw`.
    pub closed spec fn at(raw: u64) -> ShellFileHandle {
        ShellFileHandle { raw }
    }

    /// The typed form of a raw file handle: absent when the raw handle is
    /// null.
    pub open spec fn of_raw(raw: u64) -> Option<ShellFileHandle> {
        if raw == 0 {
            None
        } else {
            Some(ShellFileHandle::at(raw))
        }
    }

    /// A file handle is determined by its address.
    pub proof fn lemma_identity(self, raw: u64)
        ensures
            ShellFileHandle::at(raw).addr() == raw,
            ShellFileHandle::at(self.addr()) == self,
    {
    }

    /// Turns a raw file handle into a typed one. A null raw handle is no
    /// handle: it becomes an absent value, never a failure.
    pub fn from_raw(raw: u64) -> (handle: Option<ShellFileHandle>)
        ensures
            handle == ShellFileHandle::of_raw(raw),
    {
        if raw == 0 {
            None
        } else {
            Some(ShellFileHandle { raw })
        }
    }

    /// The raw file handle to pass to the firmware.
    pub fn as_raw(self) -> (raw: u64)
        ensures
            raw == self.addr(),
            raw != 0,
    {
        proof {
            use_type_invariant(self);
        }
        self.raw
    }
}

/// Size in bytes of the fixed part of a file metadata block. The file name
/// follows it.
pub const FILE_INFO_HEADER_SIZE: usize = 80;

/// Offset of the size of the whole block.
pub const FILE_INFO_SIZE_OFFSET: u64 = 0;

/// Offset of the size of the file.
pub const FILE_INFO_FILE_SIZE_OFFSET: u64 = 8;

/// Offset of the space that the file takes on the volume.
pub const FILE_INFO_PHYSICAL_SIZE_OFFSET: u64 = 16;

/// Offset of the three time stamps, 16 bytes each. They are not read, and
/// they keep the attribute word at its place.
pub const FILE_INFO_TIMES_OFFSET: u64 = 24;

/// Offset of the attribute bits.
pub const FILE_INFO_ATTRIBUTE_OFFSET: u64 = 72;

/// The fixed part of a file metadata block, copied out of firmware memory.
#[derive(Debug, Clone, Copy, PartialEq, Eq, Structural)]
pub struct FileInfo {
    /// Size of the whole block, name included.
    pub size: u64,
    /// Size of the file in bytes.
    pub file_size: u64,
    /// Space that the file takes on the volume.
    pub physical_size: u64,
    /// Attribute bits of the file.
    pub attribute: u64,
}

/// Whether a file metadata block can lie at `addr`.
pub open spec fn holds_info_block(memory: &FirmwareMemory, addr: u64) -> bool {
    holds_record(memory, addr, FILE_INFO_HEADER_SIZE as nat)
}

/// The file metadata block at `addr`: each field read at its offset.
pub open spec fn info_block_at(memory: &FirmwareMemory, addr: u64) -> FileInfo {
    FileInfo {
        size: memory.u64_at(addr + FILE_INFO_SIZE_OFFSET),
        file_size: memory.u64_at(addr + FILE_INFO_FILE_SIZE_OFFSET),
        physical_size: memory.u64_at(addr + FILE_INFO_PHYSICAL_SIZE_OFFSET),
        attribute: memory.u64_at(addr + FILE_INFO_ATTRIBUTE_OFFSET),
    }
}

impl FileInfo {
    /// Reads the file metadata block at `addr`.
    pub fn read(memory: &FirmwareMemory, addr: u64) -> (info: Self)
        requires
            holds_info_block(memory, addr),
        ensures
            info == info_block_at(memory, addr),
    {
        FileInfo {
            size: memory.read_u64(addr),
            file_size: memory.read_u64(addr + FILE_INFO_FILE_SIZE_OFFSET),
            physical_size: memory.read_u64(addr + FILE_INFO_PHYSICAL_SIZE_OFFSET),
            attribute: memory.read_u64(addr + FILE_INFO_ATTRIBUTE_OFFSET),
        }
    }
}

} // verus!
