//! The shell parameters protocol: the arguments that the shell passed to
//! the running program.

use vstd::prelude::*;
use crate::guid::{Guid, Identify};
use crate::list::holds_record;
use crate::memory::FirmwareMemory;

verus! {

/// Identifier of the shell parameters protocol.
pub const SHELL_PARAMETERS_GUID: u128 = 0x752f3136_4e16_4fdc_a22a_e5f46812f4ca;

/// Size in bytes of the shell parameters table.
pub const SHELL_PARAMETERS_SIZE: usize = 40;

/// Offset of the pointer to the argument array.
pub const ARGV_OFFSET: u64 = 0;

/// Offset of the number of arguments.
pub const ARGC_OFFSET: u64 = 8;

/// Offset of the handle of the standard input.
pub const STD_IN_OFFSET: u64 = 16;

/// Offset of the handle of the standard output.
pub const STD_OUT_OFFSET: u64 = 24;

/// Offset of the handle of the standard error output.
pub const STD_ERR_OFFSET: u64 = 32;

/// Size in bytes of one entry of the argument array.
pub const POINTER_SIZE: u64 = 8;

/// The shell parameters protocol.
#[derive(Debug, Clone, Copy, PartialEq, Eq, Structural)]
pub struct ShellParameters {
    /// Pointer to a list of arguments
    pub argv: u64,
    /// Number of arguments
    pub argc: usize,
    /// Handle of the standard input
    pub std_in: u64,
    /// Handle of the standard output
    pub std_out: u64,
    /// Handle of the standard error output
    pub std_err: u64,
}

impl Identify for ShellParameters {
    open spec fn spec_guid() -> Guid {
        Guid { value: SHELL_PARAMETERS_GUID }
    }

    fn guid() -> (guid: Guid) {
        Guid { value: SHELL_PARAMETERS_GUID }
    }
}

/// Whether `unit` is a character by itself, that is, no half of a
/// surrogate pair.
pub open spec fn is_scalar(unit: u16) -> bool {
    unit < 0xD800 || 0xDFFF < unit
}

/// Whether every unit of `units` is a character by itself.
pub open spec fn is_ucs2(units: Seq<u16>) -> bool {
    forall|i: int| 0 <= i < units.len() ==> is_scalar(#[trigger] units[i])
}

/// The characters of a string of units that are characters by themselves.
pub open spec fn text_of(units: Seq<u16>) -> Seq<char> {
    Seq::new(units.len(), |i: int| (units[i] as u32) as char)
}

/// Assumed of `char::from_u32`, without proof: it returns the character
/// with the code `i`, which exists exactly when `i` is a code point outside
/// the surrogate range.
pub assume_specification[ char::from_u32 ](i: u32) -> (c: Option<char>)
    ensures
        c is Some <==> (i <= 0xD7FF || (0xE000 <= i && i <= 0x10FFFF)),
        c matches Some(ch) ==> ch as u32 == i,
;

/// Assumed of `String::push`, without proof: it appends the character to
/// the end of the string and changes nothing else.
pub assume_specification[ String::push ](s: &mut String, ch: char)
    ensures
        final(s)@ == old(s)@.push(ch),
;

/// Converts a string of 16-bit units, each a character by itself, to a
/// string of those characters.
pub fn ucs2_to_string(units: &[u16]) -> (string: String)
    requires
        is_ucs2(units@),
    ensures
        string@ == text_of(units@),
{
    let mut string: String = String::new();
    let mut i: usize = 0;
    while i < units.len()
        invariant
            i <= units@.len(),
            is_ucs2(units@),
            string@ == text_of(units@.take(i as int)),
        decreases units@.len() - i,
    {
        assert(is_scalar(units@[i as int]));
        match char::from_u32(units[i] as u32) {
            Some(ch) => {
                proof {
                    vstd::utf8::char_u32_cast(ch, units@[i as int] as u32);
                }
                string.push(ch);
            },
            None => {},
        }
        assert(string@ =~= text_of(units@.take(i + 1)));
        i = i + 1;
    }
    assert(units@.take(i as int) =~= units@);
    string
}

/// Tells whether every unit of `units` is a character by itself.
pub fn all_scalar(units: &[u16]) -> (scalar: bool)
    ensures
        scalar == is_ucs2(units@),
{
    let mut i: usize = 0;
    while i < units.len()
        invariant
            i <= units@.len(),
            forall|j: int| 0 <= j < i ==> is_scalar(#[trigger] units@[j]),
        decreases units@.len() - i,
    {
        if 0xD800 <= units[i] && units[i] <= 0xDFFF {
            assert(!is_scalar(units@[i as int]));
            return false;
        }
        i = i + 1;
    }
    true
}

/// Whether a shell parameters table can lie at `addr`.
pub open spec fn holds_shell_parameters(memory: &FirmwareMemory, addr: u64) -> bool {
    holds_record(memory, addr, SHELL_PARAMETERS_SIZE as nat)
}

impl ShellParameters {
    /// The address that entry `index` of the argument array points to.
    pub open spec fn arg_ptr(&self, memory: &FirmwareMemory, index: int) -> u64 {
        memory.u64_at(self.argv + POINTER_SIZE * index)
    }

    /// The argument array and every argument behind it can be read: the
    /// array is mapped, and each entry but the first points to a
    /// terminated string of units that are characters by themselves.
    pub open spec fn args_readable(&self, memory: &FirmwareMemory) -> bool {
        &&& self.argc > 1 ==> memory.maps(self.argv, (POINTER_SIZE * self.argc) as nat)
        &&& forall|i: int|
            1 <= i < self.argc ==> memory.has_string(#[trigger] self.arg_ptr(memory, i))
        &&& forall|i: int|
            1 <= i < self.argc ==> is_ucs2(memory.string_at(#[trigger] self.arg_ptr(memory, i)))
    }

    /// The arguments behind the argument array, the first one left out.
    pub open spec fn args(&self, memory: &FirmwareMemory) -> Seq<Seq<char>> {
        Seq::new(
            if self.argc > 1 {
                (self.argc - 1) as nat
            } else {
                0
            },
            |i: int| text_of(memory.string_at(self.arg_ptr(memory, i + 1))),
        )
    }

    /// Binds the shell parameters table at `addr`: reads each field at its
    /// offset.
    pub fn bind(memory: &FirmwareMemory, addr: u64) -> (parameters: Self)
        requires
            holds_shell_parameters(memory, addr),
            memory.u64_at(addr + ARGC_OFFSET) <= usize::MAX,
        ensures
            parameters == (ShellParameters {
                argv: memory.u64_at(addr + ARGV_OFFSET),
                argc: memory.u64_at(addr + ARGC_OFFSET) as usize,
                std_in: memory.u64_at(addr + STD_IN_OFFSET),
                std_out: memory.u64_at(addr + STD_OUT_OFFSET),
                std_err: memory.u64_at(addr + STD_ERR_OFFSET),
            }),
    {
        ShellParameters {
            argv: memory.read_u64(addr),
            argc: memory.read_u64(addr + ARGC_OFFSET) as usize,
            std_in: memory.read_u64(addr + STD_IN_OFFSET),
            std_out: memory.read_u64(addr + STD_OUT_OFFSET),
            std_err: memory.read_u64(addr + STD_ERR_OFFSET),
        }
    }

    /// Tells whether the argument array and every argument behind it can
    /// be read from `memory`.
    pub fn args_are_readable(&self, memory: &FirmwareMemory) -> (readable: bool)
        ensures
            readable == self.args_readable(memory),
    {
        if self.argc <= 1 {
            return true;
        }
        let size: usize = memory.bytes.len();
        if self.argc > size / 8 {
            return false;
        }
        if !memory.is_mapped(self.argv, 8 * self.argc) {
            return false;
        }
        let mut i: usize = 1;
        while i < self.argc
            invariant
                1 <= i <= self.argc,
                memory.maps(self.argv, (POINTER_SIZE * self.argc) as nat),
                forall|j: int| 1 <= j < i ==> memory.has_string(#[trigger] self.arg_ptr(memory, j)),
                forall|j: int|
                    1 <= j < i ==> is_ucs2(memory.string_at(#[trigger] self.arg_ptr(memory, j))),
            decreases self.argc - i,
        {
            let ptr: u64 = memory.read_u64(self.argv + POINTER_SIZE * (i as u64));
            assert(ptr == self.arg_ptr(memory, i as int));
            match memory.read_string(ptr) {
                Some(units) => {
                    if !all_scalar(units.as_slice()) {
                        return false;
                    }
                },
                None => {
                    return false;
                },
            }
            i = i + 1;
        }
        true
    }

    /// Get a Vec of the shell parameter arguments
    pub fn get_args(&self, memory: &FirmwareMemory) -> (args: Vec<String>)
        requires
            self.args_readable(memory),
        ensures
            args@.len() == self.args(memory).len(),
            forall|i: int| 0 <= i < args@.len() ==> (#[trigger] args@[i])@ == self.args(memory)[i],
    {
        let mut args: Vec<String> = Vec::new();
        // Skip first one, which is the executable's name
        let mut i: usize = 1;
        while i < self.argc
            invariant
                1 <= i,
                i <= self.argc || i == 1,
                self.args_readable(memory),
                args@.len() == i - 1,
                forall|j: int|
                    0 <= j < args@.len() ==> (#[trigger] args@[j])@ == self.args(memory)[j],
            decreases self.argc - i,
        {
            let ptr: u64 = memory.read_u64(self.argv + POINTER_SIZE * (i as u64));
            assert(ptr == self.arg_ptr(memory, i as int));
            match memory.read_string(ptr) {
                Some(units) => {
                    let string: String = ucs2_to_string(units.as_slice());
                    args.push(string);
                },
                None => {},
            }
            i = i + 1;
        }
        args
    }
}

} // verus!
