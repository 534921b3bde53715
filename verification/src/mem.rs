//! 64 KiB machine memory: ROM write protection, work/video RAM, and the
//! mirror of `0x2000..0x3FFF` at `0x4000..0x5FFF` on both reads and writes.
//! Reads above `0x6000` return 0 and writes there are discarded.

use vstd::prelude::*;

verus! {

/// Size of the backing store.
pub const MEM_SIZE: usize = 0x10000;

/// Backing-store index that an address resolves to: addresses in
/// `0x4000..0x5FFF` mirror `0x2000..0x3FFF`; everything else maps to itself.
pub open spec fn eff_addr(addr: u16) -> int {
    if 0x4000 <= addr && addr < 0x6000 {
        addr - 0x2000
    } else {
        addr as int
    }
}

/// Value returned by a read of `addr` from backing store `m`:
/// unmapped addresses (`0x6000` and above) read as 0.
pub open spec fn mem_read(m: Seq<u8>, addr: u16) -> u8 {
    if addr >= 0x6000 {
        0u8
    } else {
        m[eff_addr(addr)]
    }
}

/// Backing store after a write of `val` to `addr`: only the RAM window
/// `0x2000..0x3FFF` (directly or through the mirror) is writable; writes to
/// ROM (`0x0000..0x1FFF`) and to unmapped space are discarded.
pub open spec fn mem_write(m: Seq<u8>, addr: u16, val: u8) -> Seq<u8> {
    let i = eff_addr(addr);
    if 0x2000 <= i && i < 0x4000 {
        m.update(i, val)
    } else {
        m
    }
}

/// The machine memory. Its view is the 64 KiB backing store; all access
/// goes through the address map above.
pub struct Mem {
    bytes: Vec<u8>,
}

impl Mem {
    pub closed spec fn view(&self) -> Seq<u8> {
        self.bytes@
    }

    pub open spec fn wf(&self) -> bool {
        self@.len() == MEM_SIZE
    }

    /// Fresh, zero-filled memory.
    pub fn new() -> (r: Mem)
        ensures
            r.wf(),
            forall|i: int| 0 <= i < MEM_SIZE ==> r@[i] == 0u8,
    {
        let mut v: Vec<u8> = Vec::new();
        let mut i: usize = 0;
        while i < MEM_SIZE
            invariant
                i <= MEM_SIZE,
                v@.len() == i,
                forall|j: int| 0 <= j < i ==> v@[j] == 0u8,
            decreases MEM_SIZE - i,
        {
            v.push(0u8);
            i += 1;
        }
        Mem { bytes: v }
    }

    /// Total read; never fails, unmapped space reads as 0.
    pub fn read(&self, addr: u16) -> (r: u8)
        requires
            self.wf(),
        ensures
            r == mem_read(self@, addr),
    {
        if addr >= 0x6000 {
            0u8
        } else if addr >= 0x4000 {
            self.bytes[(addr - 0x2000) as usize]
        } else {
            self.bytes[addr as usize]
        }
    }

    /// Total write; may be a no-op (ROM and unmapped space are protected).
    pub fn write(&mut self, addr: u16, val: u8)
        requires
            old(self).wf(),
        ensures
            final(self).wf(),
            final(self)@ == mem_write(old(self)@, addr, val),
    {
        if 0x2000 <= addr && addr < 0x4000 {
            self.bytes.set(addr as usize, val);
        } else if 0x4000 <= addr && addr < 0x6000 {
            self.bytes.set((addr - 0x2000) as usize, val);
        }
    }

    /// Overlays the ROM image at address 0; the rest of memory is untouched.
    pub fn load(&mut self, rom: &Vec<u8>)
        requires
            old(self).wf(),
            rom@.len() <= 0x2000,
        ensures
            final(self).wf(),
            forall|i: int| 0 <= i < rom@.len() ==> final(self)@[i] == rom@[i],
            forall|i: int| rom@.len() <= i < MEM_SIZE ==> final(self)@[i] == old(self)@[i],
    {
        let mut i: usize = 0;
        while i < rom.len()
            invariant
                old(self).wf(),
                rom@.len() <= 0x2000,
                i <= rom@.len(),
                self.wf(),
                forall|j: int| 0 <= j < i ==> self@[j] == rom@[j],
                forall|j: int| i <= j < MEM_SIZE ==> self@[j] == old(self)@[j],
            decreases rom@.len() - i,
        {
            self.bytes.set(i, rom[i]);
            i += 1;
        }
    }
}

/// Mirror consistency: reading a mirror address always yields the same byte
/// as the work/video RAM address it shadows, whatever the store holds.
pub proof fn lemma_mirror_read(m: Seq<u8>, addr: u16)
    requires
        0x4000 <= addr && addr < 0x6000,
    ensures
        mem_read(m, addr) == mem_read(m, (addr - 0x2000) as u16),
{
}

/// A write through a mirror address and a write through the address it
/// shadows land on the same cell.
pub proof fn lemma_mirror_write(m: Seq<u8>, addr: u16, val: u8)
    requires
        0x4000 <= addr && addr < 0x6000,
    ensures
        mem_write(m, addr, val) == mem_write(m, (addr - 0x2000) as u16, val),
{
}

/// ROM write protection: after writing any value to a ROM address, a read of
/// that address still returns the byte that was there before.
pub proof fn lemma_rom_write_protected(m: Seq<u8>, addr: u16, val: u8)
    requires
        addr < 0x2000,
    ensures
        mem_read(mem_write(m, addr, val), addr) == mem_read(m, addr),
{
}

} // verus!
