//! The 12-bit address space and the 4096-byte memory holding the font
//! table and the loaded program.

use vstd::prelude::*;

use crate::EmulatorError;

verus! {

/// The font table: 16 hex-digit glyphs of 5 bytes each, written at the
/// bottom of memory when the emulator is created and on every ROM load.
pub open spec fn font_seq() -> Seq<u8> {
    seq![
        0xF0u8, 0x90, 0x90, 0x90, 0xF0, // 0
        0x20, 0x60, 0x20, 0x20, 0x70, // 1
        0xF0, 0x10, 0xF0, 0x80, 0xF0, // 2
        0xF0, 0x10, 0xF0, 0x10, 0xF0, // 3
        0x90, 0x90, 0xF0, 0x10, 0x10, // 4
        0xF0, 0x80, 0xF0, 0x10, 0xF0, // 5
        0xF0, 0x80, 0xF0, 0x90, 0xF0, // 6
        0xF0, 0x10, 0x20, 0x40, 0x40, // 7
        0xF0, 0x90, 0xF0, 0x90, 0xF0, // 8
        0xF0, 0x90, 0xF0, 0x10, 0xF0, // 9
        0xF0, 0x90, 0xF0, 0x90, 0x90, // A
        0xE0, 0x90, 0xE0, 0x90, 0xE0, // B
        0xF0, 0x80, 0x80, 0x80, 0xF0, // C
        0xE0, 0x90, 0x90, 0x90, 0xE0, // D
        0xF0, 0x80, 0xF0, 0x80, 0xF0, // E
        0xF0, 0x80, 0xF0, 0x80, 0x80, // F
    ]
}

/// The font table as an executable byte vector.
pub fn font_bytes() -> (r: Vec<u8>)
    ensures
        r@ == font_seq(),
{
    let r: Vec<u8> = vec![
        0xF0u8, 0x90, 0x90, 0x90, 0xF0, // 0
        0x20, 0x60, 0x20, 0x20, 0x70, // 1
        0xF0, 0x10, 0xF0, 0x80, 0xF0, // 2
        0xF0, 0x10, 0xF0, 0x10, 0xF0, // 3
        0x90, 0x90, 0xF0, 0x10, 0x10, // 4
        0xF0, 0x80, 0xF0, 0x10, 0xF0, // 5
        0xF0, 0x80, 0xF0, 0x90, 0xF0, // 6
        0xF0, 0x10, 0x20, 0x40, 0x40, // 7
        0xF0, 0x90, 0xF0, 0x90, 0xF0, // 8
        0xF0, 0x90, 0xF0, 0x10, 0xF0, // 9
        0xF0, 0x90, 0xF0, 0x90, 0x90, // A
        0xE0, 0x90, 0xE0, 0x90, 0xE0, // B
        0xF0, 0x80, 0x80, 0x80, 0xF0, // C
        0xE0, 0x90, 0x90, 0x90, 0xE0, // D
        0xF0, 0x80, 0xF0, 0x80, 0xF0, // E
        0xF0, 0x80, 0xF0, 0x80, 0x80, // F
    ];
    proof {
        assert(r@ =~= font_seq());
    }
    r
}

/// The memory contents right after a ROM of bytes `rom` was loaded: the
/// font table at the bottom, the program at `0x200`, zeroes elsewhere.
pub open spec fn mem_with_rom(rom: Seq<u8>) -> Seq<u8> {
    Seq::new(4096, |j: int| {
        if j < 80 {
            font_seq()[j]
        } else if 0x200 <= j < 0x200 + rom.len() {
            rom[j - 0x200]
        } else {
            0u8
        }
    })
}

/// `m` with the bytes of `d` written starting at `a`; everything outside
/// that range is unchanged.
pub open spec fn splice(m: Seq<u8>, a: int, d: Seq<u8>) -> Seq<u8> {
    Seq::new(m.len(), |j: int| {
        if a <= j < a + d.len() {
            d[j - a]
        } else {
            m[j]
        }
    })
}

/// A bounds-checked 16-bit pointer into the 12-bit address space.
#[derive(Clone, Copy, Debug, PartialEq, Eq, Structural)]
pub struct Address {
    /// The raw address; always below 4096.
    pub value: u16,
}

impl Address {
    /// The address lies inside the 12-bit space.
    pub open spec fn wf(self) -> bool {
        self.value < 4096
    }

    /// Constructs an address, masking the raw value to 12 bits.
    pub fn new(raw: u16) -> (a: Address)
        ensures
            a.value == raw & 0x0FFF,
            a.wf(),
    {
        proof {
            assert(raw & 0x0FFF < 4096) by (bit_vector);
        }
        Address { value: raw & 0x0FFF }
    }

    /// The raw value, for arithmetic embedded in other opcodes.
    pub fn inner(&self) -> (r: u16)
        ensures
            r == self.value,
    {
        self.value
    }

    /// Adds `delta`, or fails with `AddressOutOfRange` when the result
    /// would leave the address space, leaving the address unchanged.
    pub fn add_assign(&mut self, delta: u16) -> (r: Result<(), EmulatorError>)
        requires
            old(self).wf(),
        ensures
            final(self).wf(),
            old(self).value + delta < 4096 ==> r == Ok::<(), EmulatorError>(())
                && final(self).value == old(self).value + delta,
            old(self).value + delta >= 4096 ==> r == Err::<(), EmulatorError>(
                EmulatorError::AddressOutOfRange,
            ) && final(self).value == old(self).value,
    {
        let sum: u32 = self.value as u32 + delta as u32;
        if sum >= 4096 {
            Err(EmulatorError::AddressOutOfRange)
        } else {
            self.value = sum as u16;
            Ok(())
        }
    }
}

/// The 4096-byte memory.
pub struct Memory {
    /// The raw bytes; always exactly 4096 of them.
    pub bytes: Vec<u8>,
}

impl Memory {
    /// The memory holds exactly 4096 bytes.
    pub open spec fn wf(self) -> bool {
        self.bytes@.len() == 4096
    }

    /// The byte contents.
    pub open spec fn view_seq(self) -> Seq<u8> {
        self.bytes@
    }

    /// Creates the memory with the font table written at the bottom and
    /// zeroes everywhere else.
    pub fn new() -> (m: Memory)
        ensures
            m.wf(),
            m.view_seq() == mem_with_rom(Seq::<u8>::empty()),
    {
        let mut bytes: Vec<u8> = Vec::new();
        let font = font_bytes();
        let mut j: usize = 0;
        while j < 80
            invariant
                j <= 80,
                font@ == font_seq(),
                bytes@.len() == j,
                forall|p: int| 0 <= p < j ==> bytes@[p] == font_seq()[p],
            decreases 80 - j,
        {
            bytes.push(font[j]);
            j = j + 1;
        }
        while j < crate::MEMORY_SIZE
            invariant
                80 <= j <= 4096,
                bytes@.len() == j,
                forall|p: int| 0 <= p < 80 ==> bytes@[p] == font_seq()[p],
                forall|p: int| 80 <= p < j ==> bytes@[p] == 0u8,
            decreases 4096 - j,
        {
            bytes.push(0);
            j = j + 1;
        }
        let m = Memory { bytes };
        proof {
            assert(m.bytes@ =~= mem_with_rom(Seq::<u8>::empty()));
        }
        m
    }

    /// Reads the byte at `addr`.
    pub fn get(&self, addr: u16) -> (r: u8)
        requires
            self.wf(),
            addr < 4096,
        ensures
            r == self.view_seq()[addr as int],
    {
        self.bytes[addr as usize]
    }

    /// Rewrites the whole memory for a fresh program: font table, then
    /// `rom` at `0x200`, zeroes elsewhere. Fails with `RomTooLarge`,
    /// leaving memory unchanged, when `rom` would overflow the space.
    pub fn load_rom(&mut self, rom: &Vec<u8>) -> (r: Result<(), EmulatorError>)
        requires
            old(self).wf(),
        ensures
            final(self).wf(),
            rom@.len() > 3584 ==> r == Err::<(), EmulatorError>(EmulatorError::RomTooLarge)
                && final(self).view_seq() == old(self).view_seq(),
            rom@.len() <= 3584 ==> r == Ok::<(), EmulatorError>(())
                && final(self).view_seq() == mem_with_rom(rom@),
    {
        if rom.len() > crate::MEMORY_SIZE - crate::ENTRY_POINT as usize {
            return Err(EmulatorError::RomTooLarge);
        }
        let font = font_bytes();
        let mut j: usize = 0;
        while j < 80
            invariant
                old(self).wf(),
                j <= 80,
                font@ == font_seq(),
                self.bytes@.len() == 4096,
                forall|p: int| 0 <= p < j ==> self.bytes@[p] == font_seq()[p],
            decreases 80 - j,
        {
            self.bytes.set(j, font[j]);
            j = j + 1;
        }
        while j < crate::MEMORY_SIZE
            invariant
                old(self).wf(),
                rom@.len() <= 3584,
                80 <= j <= 4096,
                self.bytes@.len() == 4096,
                forall|p: int| 0 <= p < 80 ==> self.bytes@[p] == font_seq()[p],
                forall|p: int|
                    80 <= p < j ==> self.bytes@[p] == (if 0x200 <= p < 0x200 + rom@.len() {
                        rom@[p - 0x200]
                    } else {
                        0u8
                    }),
            decreases 4096 - j,
        {
            if j >= 0x200 && j - 0x200 < rom.len() {
                self.bytes.set(j, rom[j - 0x200]);
            } else {
                self.bytes.set(j, 0);
            }
            j = j + 1;
        }
        proof {
            assert(self.bytes@ =~= mem_with_rom(rom@));
        }
        Ok(())
    }

    /// Copies `data` into memory starting at `addr` (caller data into
    /// memory). Fails with `MemoryOutOfBounds`, leaving memory unchanged,
    /// when the range exceeds the memory size.
    pub fn read_range(&mut self, addr: u16, data: &Vec<u8>) -> (r: Result<(), EmulatorError>)
        requires
            old(self).wf(),
        ensures
            final(self).wf(),
            addr + data@.len() <= 4096 ==> r == Ok::<(), EmulatorError>(())
                && final(self).view_seq() == splice(old(self).view_seq(), addr as int, data@),
            addr + data@.len() > 4096 ==> r == Err::<(), EmulatorError>(
                EmulatorError::MemoryOutOfBounds,
            ) && final(self).view_seq() == old(self).view_seq(),
    {
        if data.len() > crate::MEMORY_SIZE || addr as usize > crate::MEMORY_SIZE - data.len() {
            return Err(EmulatorError::MemoryOutOfBounds);
        }
        let mut j: usize = 0;
        while j < data.len()
            invariant
                old(self).wf(),
                addr + data@.len() <= 4096,
                j <= data@.len(),
                self.bytes@.len() == 4096,
                forall|p: int|
                    0 <= p < 4096 ==> self.bytes@[p] == (if addr <= p < addr + j {
                        data@[p - addr]
                    } else {
                        old(self).view_seq()[p]
                    }),
            decreases data@.len() - j,
        {
            self.bytes.set(addr as usize + j, data[j]);
            j = j + 1;
        }
        proof {
            assert(self.bytes@ =~= splice(old(self).view_seq(), addr as int, data@));
        }
        Ok(())
    }

    /// Copies memory starting at `addr` into `data` (memory into caller
    /// data), keeping `data`'s length. Fails with `MemoryOutOfBounds`,
    /// leaving `data` unchanged, when the range exceeds the memory size.
    pub fn write_range(&self, addr: u16, data: &mut Vec<u8>) -> (r: Result<(), EmulatorError>)
        requires
            self.wf(),
        ensures
            addr + old(data)@.len() <= 4096 ==> r == Ok::<(), EmulatorError>(())
                && final(data)@ == self.view_seq().subrange(
                    addr as int,
                    addr + old(data)@.len(),
                ),
            addr + old(data)@.len() > 4096 ==> r == Err::<(), EmulatorError>(
                EmulatorError::MemoryOutOfBounds,
            ) && final(data)@ == old(data)@,
    {
        if data.len() > crate::MEMORY_SIZE || addr as usize > crate::MEMORY_SIZE - data.len() {
            return Err(EmulatorError::MemoryOutOfBounds);
        }
        let mut j: usize = 0;
        while j < data.len()
            invariant
                self.wf(),
                addr + old(data)@.len() <= 4096,
                j <= data@.len(),
                data@.len() == old(data)@.len(),
                forall|p: int| 0 <= p < j ==> data@[p] == self.view_seq()[addr + p],
            decreases data@.len() - j,
        {
            let b = self.bytes[addr as usize + j];
            data.set(j, b);
            j = j + 1;
        }
        proof {
            assert(data@ =~= self.view_seq().subrange(addr as int, addr + old(data)@.len()));
        }
        Ok(())
    }
}

} // verus!
