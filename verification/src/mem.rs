//! The 64-KiB address space with region-based write protection.
//!
//! Addresses 0x0000-0x00FF are the zero page, 0x0100-0x01FF the stack page,
//! 0x0200-0xFEFF general RAM and 0xFF00-0xFFFF the ROM/vector region.
//! Reads always succeed. Ordinary writes into the stack page or the
//! ROM/vector region are refused and leave the byte unchanged; privileged
//! writes (image loading, stack operations, interrupt bookkeeping) always
//! land.

use vstd::prelude::*;

verus! {

/// Number of addressable bytes: the full 16-bit address space.
pub const MEM_SIZE: usize = 0x10000;

/// Whether a write to `addr` is accepted. Unprivileged writes are refused
/// in the stack page (0x0100-0x01FF) and the ROM/vector region
/// (0xFF00-0xFFFF); privileged writes always succeed.
pub open spec fn writable(addr: u16, privileged: bool) -> bool {
    privileged || (addr < 0xFF00 && !(0x0100 <= addr <= 0x01FF))
}

/// The memory contents after a write of `val` at `addr`: updated when the
/// write is accepted, unchanged when it is refused.
pub open spec fn spec_set(m: Seq<u8>, addr: u16, val: u8, privileged: bool) -> Seq<u8> {
    if writable(addr, privileged) {
        m.update(addr as int, val)
    } else {
        m
    }
}

/// An unprivileged write anywhere in the ROM/vector region is rejected and
/// leaves every byte of memory unchanged.
pub proof fn lemma_rom_write_rejected(m: Seq<u8>, addr: u16, val: u8)
    requires
        0xFF00 <= addr,
    ensures
        !writable(addr, false),
        spec_set(m, addr, val, false) == m,
{
}

/// An unprivileged write into the stack page is likewise rejected.
pub proof fn lemma_stack_write_rejected(m: Seq<u8>, addr: u16, val: u8)
    requires
        0x0100 <= addr <= 0x01FF,
    ensures
        !writable(addr, false),
        spec_set(m, addr, val, false) == m,
{
}

/// The flat 64-KiB memory. Viewed as a sequence of 65,536 bytes.
pub struct MEM {
    ram: Vec<u8>,
}

impl View for MEM {
    type V = Seq<u8>;

    closed spec fn view(&self) -> Seq<u8> {
        self.ram@
    }
}

impl MEM {
    /// Well-formed memory holds exactly one byte per address.
    pub open spec fn wf(&self) -> bool {
        self@.len() == MEM_SIZE
    }

    /// Allocates memory and loads the given 64-KiB image at address 0x0000.
    pub fn new(rom: [u8; 0x10000]) -> (m: MEM)
        ensures
            m.wf(),
            m@ == rom@,
    {
        let mut newmem = MEM { ram: Vec::new() };
        newmem.init(rom);
        newmem
    }

    /// Replaces the entire contents with the given image.
    pub fn init(&mut self, rom: [u8; 0x10000])
        ensures
            final(self).wf(),
            final(self)@ == rom@,
    {
        let mut ram: Vec<u8> = Vec::new();
        let mut i: usize = 0;
        while i < MEM_SIZE
            invariant
                i <= MEM_SIZE,
                ram@.len() == i,
                forall|k: int| 0 <= k < i ==> ram@[k] == rom@[k],
            decreases MEM_SIZE - i,
        {
            ram.push(rom[i]);
            i += 1;
        }
        self.ram = ram;
        proof {
            assert(self@ =~= rom@);
        }
    }

    /// Returns the byte stored at `addr`. Reads always succeed.
    pub fn get(&mut self, addr: u16) -> (val: u8)
        requires
            old(self).wf(),
        ensures
            final(self).wf(),
            final(self)@ == old(self)@,
            val == old(self)@[addr as int],
    {
        self.ram[addr as usize]
    }

    /// Writes `val` at `addr`, subject to the region protection rule.
    /// Returns whether the write was accepted; a refused write leaves the
    /// byte unchanged, which the caller can report as a diagnostic.
    pub fn set(&mut self, addr: u16, val: u8, privileged: bool) -> (accepted: bool)
        requires
            old(self).wf(),
        ensures
            final(self).wf(),
            accepted == writable(addr, privileged),
            final(self)@ == spec_set(old(self)@, addr, val, privileged),
    {
        if privileged || (addr < 0xFF00 && (addr < 0x0100 || addr > 0x01FF)) {
            self.ram[addr as usize] = val;
            true
        } else {
            false
        }
    }

    /// Writes a contiguous sequence starting at `addr`, byte by byte
    /// through `set`, under the same protection rule. The range must lie
    /// inside the address space; addresses are not wrapped.
    #[verifier::loop_isolation(false)]
    pub fn setrange(&mut self, addr: u16, vals: &Vec<u8>, privileged: bool)
        requires
            old(self).wf(),
            addr + vals@.len() <= MEM_SIZE,
        ensures
            final(self).wf(),
            forall|i: int|
                0 <= i < vals@.len() ==> final(self)@[addr + i] == (if writable(
                    (addr + i) as u16,
                    privileged,
                ) {
                    vals@[i]
                } else {
                    old(self)@[addr + i]
                }),
            forall|j: int|
                0 <= j < MEM_SIZE && !(addr <= j < addr + vals@.len()) ==> final(self)@[j] == old(
                    self,
                )@[j],
    {
        let n = vals.len();
        let mut i: usize = 0;
        while i < n
            invariant
                i <= n,
                self.wf(),
                forall|j: int|
                    addr <= j < addr + i ==> self@[j] == (if writable(j as u16, privileged) {
                        vals@[j - addr]
                    } else {
                        old(self)@[j]
                    }),
                forall|j: int|
                    0 <= j < MEM_SIZE && !(addr <= j < addr + i) ==> self@[j] == old(self)@[j],
            decreases n - i,
        {
            self.set(addr + (i as u16), vals[i], privileged);
            i += 1;
        }
        proof {
            assert forall|i2: int|
                0 <= i2 < vals@.len() implies self@[addr + i2] == (if writable(
                (addr + i2) as u16,
                privileged,
            ) {
                vals@[i2]
            } else {
                old(self)@[addr + i2]
            }) by {
                assert(self@[addr + i2] == (if writable((addr + i2) as u16, privileged) {
                    vals@[(addr + i2) - addr]
                } else {
                    old(self)@[addr + i2]
                }));
            }
        }
    }
}

} // verus!
