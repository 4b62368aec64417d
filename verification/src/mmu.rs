use vstd::prelude::*;

use crate::bus::Address;
use crate::fault::InvalidMemoryAccess;
use crate::state::{
    flag_set, lemma_and_mask_le, mem_u32, wadd, CpuState, F_MEMMAP_ENABLE, R_PC,
};
use crate::Cpu;
use crate::{EXEC, READ, WRITE};

verus! {

broadcast use crate::cpu_view_is_st;

/// Where virtual address `addr` lands under the two-level tables rooted at
/// `memmap`, when an access needs the permission bits `permissions`.
/// The top byte of `addr` indexes the top table; a zero slot there, or a leaf
/// without its present bit, faults with `UsedFreePage`. The next byte indexes
/// the leaf table; the leaf's high nibble must grant every requested
/// permission bit, else the access faults with `InvalidPermissions`. The low
/// 28 bits of the leaf are the physical base, to which the low 16 bits of
/// `addr` are added.
pub open spec fn spec_translate(
    mem: Map<u32, u8>,
    memmap: u32,
    addr: u32,
    permissions: u8,
) -> Result<u32, InvalidMemoryAccess> {
    let t2 = mem_u32(mem, wadd(memmap, addr >> 24));
    if t2 == 0 {
        Err(InvalidMemoryAccess::UsedFreePage)
    } else {
        let leaf = mem_u32(mem, wadd(t2, (addr >> 16) & 0xff));
        let p = ((leaf >> 28) & 0xf) as u8;
        if p & 0x08 == 0 {
            Err(InvalidMemoryAccess::UsedFreePage)
        } else if p & permissions != permissions {
            Err(InvalidMemoryAccess::InvalidPermissions(p, permissions))
        } else {
            Ok((((leaf & 0x0fffffff) + (addr & 0xffff))) as u32)
        }
    }
}

/// What an access to virtual address `addr` resolves to in state `s`: the
/// identity map while translation is disabled, the page tables otherwise.
pub open spec fn spec_check(s: CpuState, addr: u32, permissions: u8) -> Result<
    u32,
    InvalidMemoryAccess,
> {
    if flag_set(s.flags, F_MEMMAP_ENABLE) {
        spec_translate(s.mem, s.memmap, addr, permissions)
    } else {
        Ok(addr)
    }
}

/// The byte a data read of virtual address `addr` yields in state `s`.
pub open spec fn spec_read(s: CpuState, addr: u32) -> Result<u8, InvalidMemoryAccess> {
    match spec_check(s, addr, READ) {
        Ok(pa) => Ok(s.mem[pa]),
        Err(e) => Err(e),
    }
}

/// The state after a data write of `data` to virtual address `addr`, or the
/// fault that stops it. A write that translates to an address where the bus
/// drops writes leaves memory unchanged, and is no fault of the core's.
pub open spec fn spec_write(s: CpuState, addr: u32, data: u8) -> (CpuState, Result<
    (),
    InvalidMemoryAccess,
>) {
    match spec_check(s, addr, WRITE) {
        Ok(pa) => (
            CpuState {
                mem: if s.writable.contains(pa) {
                    s.mem.insert(pa, data)
                } else {
                    s.mem
                },
                ..s
            },
            Ok(()),
        ),
        Err(e) => (s, Err(e)),
    }
}

/// One instruction-stream byte: the program counter is translated with the
/// execute permission, the byte is read, and the program counter advances by
/// one. On a fault the program counter does not move.
pub open spec fn spec_fetch(s: CpuState) -> (CpuState, Result<u8, InvalidMemoryAccess>) {
    match spec_check(s, s.xs[R_PC as int], EXEC) {
        Ok(pa) => (
            CpuState { xs: s.xs.update(R_PC as int, wadd(s.xs[R_PC as int], 1)), ..s },
            Ok(s.mem[pa]),
        ),
        Err(e) => (s, Err(e)),
    }
}

/// A 32-bit little-endian immediate fetched byte by byte from the instruction
/// stream. A fault mid-way leaves the program counter where the fault found
/// it: the bytes already consumed stay consumed.
pub open spec fn spec_fetch_u32(s: CpuState) -> (CpuState, Result<u32, InvalidMemoryAccess>) {
    let (s0, r0) = spec_fetch(s);
    match r0 {
        Err(e) => (s0, Err(e)),
        Ok(b0) => {
            let (s1, r1) = spec_fetch(s0);
            match r1 {
                Err(e) => (s1, Err(e)),
                Ok(b1) => {
                    let (s2, r2) = spec_fetch(s1);
                    match r2 {
                        Err(e) => (s2, Err(e)),
                        Ok(b2) => {
                            let (s3, r3) = spec_fetch(s2);
                            match r3 {
                                Err(e) => (s3, Err(e)),
                                Ok(b3) => (
                                    s3,
                                    Ok(
                                        (b0 as u32) | ((b1 as u32) << 8) | ((b2 as u32) << 16) | (
                                        (b3 as u32) << 24),
                                    ),
                                ),
                            }
                        },
                    }
                },
            }
        },
    }
}

/// A 32-bit little-endian word assembled from four data reads at `addr`,
/// `addr + 1`, `addr + 2`, `addr + 3`, each translated on its own.
pub open spec fn spec_read_u32(s: CpuState, addr: u32) -> Result<u32, InvalidMemoryAccess> {
    match spec_read(s, addr) {
        Err(e) => Err(e),
        Ok(b0) => match spec_read(s, wadd(addr, 1)) {
            Err(e) => Err(e),
            Ok(b1) => match spec_read(s, wadd(addr, 2)) {
                Err(e) => Err(e),
                Ok(b2) => match spec_read(s, wadd(addr, 3)) {
                    Err(e) => Err(e),
                    Ok(b3) => Ok(
                        (b0 as u32) | ((b1 as u32) << 8) | ((b2 as u32) << 16) | ((b3 as u32)
                            << 24),
                    ),
                },
            },
        },
    }
}

impl<T> Cpu<T> where T: Address {
    /// Resolve a virtual address for an access needing `permissions`,
    /// consulting the page tables when translation is enabled. Never mutates
    /// the machine: translation is a pure function of the flags word, the
    /// `memmap` register, the bus contents and the arguments.
    pub fn check_memory(&mut self, addr: u32, permissions: u8) -> (r: Result<
        u32,
        InvalidMemoryAccess,
    >)
        ensures
            final(self)@ == old(self)@,
            r == spec_check(old(self)@, addr, permissions),
    {
        let ghost s0 = self.st();
        if self.flags & (1u32 << F_MEMMAP_ENABLE) != 0 {
            let t = self.memmap.wrapping_add(addr >> 24);
            let b0 = self.addressing.read(t);
            let b1 = self.addressing.read(t.wrapping_add(1));
            let b2 = self.addressing.read(t.wrapping_add(2));
            let b3 = self.addressing.read(t.wrapping_add(3));
            let t2 = (b0 as u32) | ((b1 as u32) << 8) | ((b2 as u32) << 16) | ((b3 as u32) << 24);
            proof {
                assert(self.st() =~= s0);
                assert(t2 == mem_u32(s0.mem, wadd(s0.memmap, addr >> 24)));
            }
            if t2 == 0 {
                return Err(InvalidMemoryAccess::UsedFreePage);
            }
            let l = t2.wrapping_add((addr >> 16) & 0xff);
            let c0 = self.addressing.read(l);
            let c1 = self.addressing.read(l.wrapping_add(1));
            let c2 = self.addressing.read(l.wrapping_add(2));
            let c3 = self.addressing.read(l.wrapping_add(3));
            let leaf = (c0 as u32) | ((c1 as u32) << 8) | ((c2 as u32) << 16) | ((c3 as u32) << 24);
            proof {
                assert(self.st() =~= s0);
                assert(leaf == mem_u32(s0.mem, wadd(t2, (addr >> 16) & 0xff)));
            }
            let p = ((leaf >> 28) & 0xf) as u8;
            if p & 0x08 == 0 {
                Err(InvalidMemoryAccess::UsedFreePage)
            } else if p & permissions != permissions {
                Err(InvalidMemoryAccess::InvalidPermissions(p, permissions))
            } else {
                proof {
                    lemma_and_mask_le();
                }
                Ok((leaf & 0x0fffffff) + (addr & 0xffff))
            }
        } else {
            Ok(addr)
        }
    }

    /// Read one byte from virtual address `addr` through the translator.
    pub fn read(&mut self, addr: u32) -> (r: Result<u8, InvalidMemoryAccess>)
        ensures
            final(self)@ == old(self)@,
            r == spec_read(old(self)@, addr),
    {
        let pa = match self.check_memory(addr, READ) {
            Ok(pa) => pa,
            Err(e) => {
                return Err(e);
            },
        };
        let b = self.addressing.read(pa);
        proof {
            assert(self.st() =~= old(self).st());
        }
        Ok(b)
    }

    /// Write one byte to virtual address `addr` through the translator.
    pub fn write(&mut self, addr: u32, data: u8) -> (r: Result<(), InvalidMemoryAccess>)
        ensures
            (final(self)@, r) == spec_write(old(self)@, addr, data),
    {
        let pa = match self.check_memory(addr, WRITE) {
            Ok(pa) => pa,
            Err(e) => {
                return Err(e);
            },
        };
        self.addressing.write(pa, data);
        proof {
            assert(self.st() =~= spec_write(old(self).st(), addr, data).0);
        }
        Ok(())
    }

    /// Fetch one instruction-stream byte at the program counter, with the
    /// execute permission, and advance the program counter past it.
    pub fn exec(&mut self) -> (r: Result<u8, InvalidMemoryAccess>)
        ensures
            (final(self)@, r) == spec_fetch(old(self)@),
    {
        let pa = match self.check_memory(self.xs[R_PC], EXEC) {
            Ok(pa) => pa,
            Err(e) => {
                return Err(e);
            },
        };
        let b = self.addressing.read(pa);
        self.xs[R_PC] = self.xs[R_PC].wrapping_add(1);
        proof {
            assert(self.st() =~= spec_fetch(old(self).st()).0);
        }
        Ok(b)
    }

    /// Fetch a 32-bit little-endian immediate from the instruction stream.
    pub(crate) fn fetch_u32(&mut self) -> (r: Result<u32, InvalidMemoryAccess>)
        ensures
            (final(self)@, r) == spec_fetch_u32(old(self)@),
    {
        let b0 = match self.exec() {
            Ok(b) => b,
            Err(e) => {
                return Err(e);
            },
        };
        let b1 = match self.exec() {
            Ok(b) => b,
            Err(e) => {
                return Err(e);
            },
        };
        let b2 = match self.exec() {
            Ok(b) => b,
            Err(e) => {
                return Err(e);
            },
        };
        let b3 = match self.exec() {
            Ok(b) => b,
            Err(e) => {
                return Err(e);
            },
        };
        Ok((b0 as u32) | ((b1 as u32) << 8) | ((b2 as u32) << 16) | ((b3 as u32) << 24))
    }

    /// Read a 32-bit little-endian word through the translator.
    pub(crate) fn read_u32(&mut self, addr: u32) -> (r: Result<u32, InvalidMemoryAccess>)
        ensures
            final(self)@ == old(self)@,
            r == spec_read_u32(old(self)@, addr),
    {
        let b0 = match self.read(addr) {
            Ok(b) => b,
            Err(e) => {
                return Err(e);
            },
        };
        let b1 = match self.read(addr.wrapping_add(1)) {
            Ok(b) => b,
            Err(e) => {
                return Err(e);
            },
        };
        let b2 = match self.read(addr.wrapping_add(2)) {
            Ok(b) => b,
            Err(e) => {
                return Err(e);
            },
        };
        let b3 = match self.read(addr.wrapping_add(3)) {
            Ok(b) => b,
            Err(e) => {
                return Err(e);
            },
        };
        Ok((b0 as u32) | ((b1 as u32) << 8) | ((b2 as u32) << 16) | ((b3 as u32) << 24))
    }
}

} // verus!
