//! Firmware-owned memory, seen from outside.
//!
//! The firmware publishes its interface tables and records at addresses in
//! its own memory. Callers never own that memory: they hold a borrow of it
//! and read plain little-endian values at addresses they were handed.

use vstd::prelude::*;

verus! {

/// A contiguous region of firmware memory that starts at address `base`.
#[derive(Debug)]
pub struct FirmwareMemory {
    /// Address of the first byte.
    pub base: u64,
    /// The bytes of the region, in address order.
    pub bytes: Vec<u8>,
}

/// The value of two bytes read as one little-endian number.
pub open spec fn le_u16(b0: u8, b1: u8) -> u16 {
    (b0 + 0x100 * b1) as u16
}

/// The value of four bytes read as one little-endian number.
pub open spec fn le_u32(b0: u8, b1: u8, b2: u8, b3: u8) -> u32 {
    (b0 + 0x100 * b1 + 0x1_0000 * b2 + 0x100_0000 * b3) as u32
}

impl FirmwareMemory {
    /// Whether the `len` bytes at `addr` lie inside the region. The null
    /// address is never mapped, and no mapped span runs past the last
    /// address.
    pub open spec fn maps(&self, addr: u64, len: nat) -> bool {
        &&& addr != 0
        &&& self.base <= addr
        &&& addr - self.base + len <= self.bytes@.len()
        &&& addr + len <= u64::MAX
    }

    /// The byte at address `addr`.
    pub open spec fn byte_at(&self, addr: int) -> u8 {
        self.bytes@[addr - self.base]
    }

    /// The 16-bit value at `addr`.
    pub open spec fn u16_at(&self, addr: int) -> u16 {
        le_u16(self.byte_at(addr), self.byte_at(addr + 1))
    }

    /// The 32-bit value at `addr`.
    pub open spec fn u32_at(&self, addr: int) -> u32 {
        le_u32(
            self.byte_at(addr),
            self.byte_at(addr + 1),
            self.byte_at(addr + 2),
            self.byte_at(addr + 3),
        )
    }

    /// The 64-bit value at `addr`; pointers and sizes are stored this way.
    pub open spec fn u64_at(&self, addr: int) -> u64 {
        (self.u32_at(addr) + 0x1_0000_0000 * self.u32_at(addr + 4)) as u64
    }

    /// Whether `units`, followed by a terminating zero, is what lies at
    /// `addr`: a string of 16-bit units, none of them zero.
    pub open spec fn is_string_at(&self, addr: u64, units: Seq<u16>) -> bool {
        &&& self.maps(addr, 2 * (units.len() + 1))
        &&& forall|i: int| 0 <= i < units.len() ==> #[trigger] self.u16_at(addr + 2 * i) == units[i]
        &&& forall|i: int| 0 <= i < units.len() ==> #[trigger] units[i] != 0
        &&& self.u16_at(addr + 2 * units.len()) == 0
    }

    /// Whether a terminated string lies at `addr`.
    pub open spec fn has_string(&self, addr: u64) -> bool {
        exists|units: Seq<u16>| self.is_string_at(addr, units)
    }

    /// The string at `addr`, without its terminator.
    pub open spec fn string_at(&self, addr: u64) -> Seq<u16> {
        choose|units: Seq<u16>| self.is_string_at(addr, units)
    }

    /// At most one string lies at an address.
    pub proof fn lemma_string_unique(&self, addr: u64, first: Seq<u16>, second: Seq<u16>)
        requires
            self.is_string_at(addr, first),
            self.is_string_at(addr, second),
        ensures
            first == second,
    {
        if first.len() < second.len() {
            assert(self.u16_at(addr + 2 * first.len()) == second[first.len() as int]);
            assert(second[first.len() as int] != 0);
        } else if second.len() < first.len() {
            assert(self.u16_at(addr + 2 * second.len()) == first[second.len() as int]);
            assert(first[second.len() as int] != 0);
        } else {
            assert forall|i: int| 0 <= i < first.len() implies first[i] == second[i] by {
                assert(self.u16_at(addr + 2 * i) == first[i]);
                assert(self.u16_at(addr + 2 * i) == second[i]);
            }
            assert(first =~= second);
        }
    }

    /// A region of `bytes` that starts at `base`.
    pub fn new(base: u64, bytes: Vec<u8>) -> (memory: Self)
        ensures
            memory.base == base,
            memory.bytes == bytes,
    {
        FirmwareMemory { base, bytes }
    }

    /// Tells whether the `len` bytes at `addr` lie inside the region.
    pub fn is_mapped(&self, addr: u64, len: usize) -> (mapped: bool)
        ensures
            mapped == self.maps(addr, len as nat),
    {
        if addr == 0 || addr < self.base {
            return false;
        }
        let offset: u64 = addr - self.base;
        let size: usize = self.bytes.len();
        if offset > size as u64 || len as u64 > u64::MAX - addr {
            return false;
        }
        len <= size - offset as usize
    }

    /// Index in `bytes` of the mapped address `addr`.
    fn offset_of(&self, addr: u64, len: usize) -> (offset: usize)
        requires
            self.maps(addr, len as nat),
        ensures
            offset == addr - self.base,
            offset + len <= self.bytes@.len() <= usize::MAX,
    {
        let size: usize = self.bytes.len();
        (addr - self.base) as usize
    }

    /// Reads the byte at `addr`.
    pub fn read_u8(&self, addr: u64) -> (value: u8)
        requires
            self.maps(addr, 1),
        ensures
            value == self.byte_at(addr as int),
    {
        let offset: usize = self.offset_of(addr, 1);
        self.bytes[offset]
    }

    /// Reads the little-endian 16-bit value at `addr`.
    pub fn read_u16(&self, addr: u64) -> (value: u16)
        requires
            self.maps(addr, 2),
        ensures
            value == self.u16_at(addr as int),
    {
        let offset: usize = self.offset_of(addr, 2);
        let b0: u16 = self.bytes[offset] as u16;
        let b1: u16 = self.bytes[offset + 1] as u16;
        b0 + 0x100 * b1
    }

    /// Reads the little-endian 32-bit value at `addr`.
    pub fn read_u32(&self, addr: u64) -> (value: u32)
        requires
            self.maps(addr, 4),
        ensures
            value == self.u32_at(addr as int),
    {
        let offset: usize = self.offset_of(addr, 4);
        let b0: u32 = self.bytes[offset] as u32;
        let b1: u32 = self.bytes[offset + 1] as u32;
        let b2: u32 = self.bytes[offset + 2] as u32;
        let b3: u32 = self.bytes[offset + 3] as u32;
        b0 + 0x100 * b1 + 0x1_0000 * b2 + 0x100_0000 * b3
    }

    /// Reads the little-endian 64-bit value at `addr`.
    pub fn read_u64(&self, addr: u64) -> (value: u64)
        requires
            self.maps(addr, 8),
        ensures
            value == self.u64_at(addr as int),
    {
        let offset: usize = self.offset_of(addr, 8);
        let b0: u64 = self.bytes[offset] as u64;
        let b1: u64 = self.bytes[offset + 1] as u64;
        let b2: u64 = self.bytes[offset + 2] as u64;
        let b3: u64 = self.bytes[offset + 3] as u64;
        let b4: u64 = self.bytes[offset + 4] as u64;
        let b5: u64 = self.bytes[offset + 5] as u64;
        let b6: u64 = self.bytes[offset + 6] as u64;
        let b7: u64 = self.bytes[offset + 7] as u64;
        let low: u64 = b0 + 0x100 * b1 + 0x1_0000 * b2 + 0x100_0000 * b3;
        let high: u64 = b4 + 0x100 * b5 + 0x1_0000 * b6 + 0x100_0000 * b7;
        low + 0x1_0000_0000 * high
    }

    /// Reads the terminated string at `addr`, if the region holds one: the
    /// units before the first zero unit. `None` when the region ends before
    /// a terminator is met, or `addr` is not mapped.
    pub fn read_string(&self, addr: u64) -> (string: Option<Vec<u16>>)
        ensures
            string is Some <==> self.has_string(addr),
            string matches Some(units) ==> units@ == self.string_at(addr),
    {
        let mut units: Vec<u16> = Vec::new();
        let mut cursor: u64 = addr;
        loop
            invariant
                cursor == addr + 2 * units@.len(),
                units@.len() > 0 ==> self.maps(addr, 2),
                forall|i: int| 0 <= i < units@.len() ==> #[trigger] self.u16_at(addr + 2 * i) == units@[i],
                forall|i: int| 0 <= i < units@.len() ==> #[trigger] units@[i] != 0,
            decreases u64::MAX - cursor,
        {
            if !self.is_mapped(cursor, 2) {
                proof {
                    if self.has_string(addr) {
                        let w = choose|w: Seq<u16>| self.is_string_at(addr, w);
                        if w.len() < units@.len() {
                            assert(self.u16_at(addr + 2 * w.len()) == units@[w.len() as int]);
                            assert(units@[w.len() as int] != 0);
                        } else {
                            assert(self.maps(addr, 2 * (w.len() + 1)));
                        }
                    }
                }
                return None;
            }
            let unit: u16 = self.read_u16(cursor);
            if unit == 0 {
                proof {
                    assert(self.is_string_at(addr, units@));
                    let w = choose|w: Seq<u16>| self.is_string_at(addr, w);
                    self.lemma_string_unique(addr, units@, w);
                }
                return Some(units);
            }
            units.push(unit);
            cursor = cursor + 2;
        }
    }
}

} // verus!
