use vstd::prelude::*;

use crate::alu::spec_update_flags_int;
use crate::bus::Address;
use crate::fault::InvalidMemoryAccess;
use crate::fpu::spec_update_flags_float;
use crate::mmu::{spec_fetch_u32, spec_read_u32, spec_write};
use crate::state::{wadd, CpuState};
use crate::Cpu;

verus! {

broadcast use crate::cpu_view_is_st;

/// Four data writes laying `data` down little-endian at `addr`. A fault
/// mid-way keeps the bytes already written: stores are not transactional.
pub open spec fn spec_store_u32(s: CpuState, addr: u32, data: u32) -> (CpuState, Result<
    (),
    InvalidMemoryAccess,
>) {
    let (s0, r0) = spec_write(s, addr, data as u8);
    match r0 {
        Err(e) => (s0, Err(e)),
        Ok(_) => {
            let (s1, r1) = spec_write(s0, wadd(addr, 1), (data >> 8) as u8);
            match r1 {
                Err(e) => (s1, Err(e)),
                Ok(_) => {
                    let (s2, r2) = spec_write(s1, wadd(addr, 2), (data >> 16) as u8);
                    match r2 {
                        Err(e) => (s2, Err(e)),
                        Ok(_) => spec_write(s2, wadd(addr, 3), (data >> 24) as u8),
                    }
                },
            }
        },
    }
}

/// Two data writes laying the low 16 bits of `data` down little-endian.
pub open spec fn spec_store_u16(s: CpuState, addr: u32, data: u32) -> (CpuState, Result<
    (),
    InvalidMemoryAccess,
>) {
    let (s0, r0) = spec_write(s, addr, data as u8);
    match r0 {
        Err(e) => (s0, Err(e)),
        Ok(_) => spec_write(s0, wadd(addr, 1), (data >> 8) as u8),
    }
}

/// Load a 32-bit immediate from the instruction stream into `x0`.
pub open spec fn spec_load_lit_int(s: CpuState, x0: int) -> (CpuState, Result<
    (),
    InvalidMemoryAccess,
>) {
    let (s1, r) = spec_fetch_u32(s);
    match r {
        Err(e) => (s1, Err(e)),
        Ok(data) => (
            CpuState {
                xs: s1.xs.update(x0, data),
                flags: spec_update_flags_int(s1.flags, data),
                ..s1
            },
            Ok(()),
        ),
    }
}

/// Load a 32-bit immediate from the instruction stream into float `f0`.
pub open spec fn spec_load_lit_float(s: CpuState, f0: int) -> (CpuState, Result<
    (),
    InvalidMemoryAccess,
>) {
    let (s1, r) = spec_fetch_u32(s);
    match r {
        Err(e) => (s1, Err(e)),
        Ok(data) => (
            CpuState {
                fs: s1.fs.update(f0, data),
                flags: spec_update_flags_float(s1.flags, data),
                ..s1
            },
            Ok(()),
        ),
    }
}

/// Load `x0` from the 32-bit word at the immediate address that follows.
pub open spec fn spec_load_int(s: CpuState, x0: int) -> (CpuState, Result<
    (),
    InvalidMemoryAccess,
>) {
    let (s1, r) = spec_fetch_u32(s);
    match r {
        Err(e) => (s1, Err(e)),
        Ok(addr) => match spec_read_u32(s1, addr) {
            Err(e) => (s1, Err(e)),
            Ok(data) => (
                CpuState {
                    xs: s1.xs.update(x0, data),
                    flags: spec_update_flags_int(s1.flags, data),
                    ..s1
                },
                Ok(()),
            ),
        },
    }
}

/// Load float `f0` from the 32-bit word at the immediate address.
pub open spec fn spec_load_float(s: CpuState, f0: int) -> (CpuState, Result<
    (),
    InvalidMemoryAccess,
>) {
    let (s1, r) = spec_fetch_u32(s);
    match r {
        Err(e) => (s1, Err(e)),
        Ok(addr) => match spec_read_u32(s1, addr) {
            Err(e) => (s1, Err(e)),
            Ok(data) => (
                CpuState {
                    fs: s1.fs.update(f0, data),
                    flags: spec_update_flags_float(s1.flags, data),
                    ..s1
                },
                Ok(()),
            ),
        },
    }
}

/// Load `x0` from the 32-bit word at the address held in register `a`.
pub open spec fn spec_load_indirect_int(s: CpuState, x0: int, a: int) -> (CpuState, Result<
    (),
    InvalidMemoryAccess,
>) {
    match spec_read_u32(s, s.xs[a]) {
        Err(e) => (s, Err(e)),
        Ok(data) => (
            CpuState { xs: s.xs.update(x0, data), flags: spec_update_flags_int(s.flags, data), ..s },
            Ok(()),
        ),
    }
}

/// Load float `f0` from the 32-bit word at the address held in register `a`.
pub open spec fn spec_load_indirect_float(s: CpuState, f0: int, a: int) -> (CpuState, Result<
    (),
    InvalidMemoryAccess,
>) {
    match spec_read_u32(s, s.xs[a]) {
        Err(e) => (s, Err(e)),
        Ok(data) => (
            CpuState {
                fs: s.fs.update(f0, data),
                flags: spec_update_flags_float(s.flags, data),
                ..s
            },
            Ok(()),
        ),
    }
}

/// Store `x0` as a 32-bit word at the immediate address that follows.
pub open spec fn spec_store_int(s: CpuState, x0: int) -> (CpuState, Result<
    (),
    InvalidMemoryAccess,
>) {
    let (s1, r) = spec_fetch_u32(s);
    match r {
        Err(e) => (s1, Err(e)),
        Ok(addr) => spec_store_u32(s1, addr, s1.xs[x0]),
    }
}

/// Store the low 16 bits of `x0` at the immediate address.
pub open spec fn spec_store_short(s: CpuState, x0: int) -> (CpuState, Result<
    (),
    InvalidMemoryAccess,
>) {
    let (s1, r) = spec_fetch_u32(s);
    match r {
        Err(e) => (s1, Err(e)),
        Ok(addr) => spec_store_u16(s1, addr, s1.xs[x0]),
    }
}

/// Store the low byte of `x0` at the immediate address.
pub open spec fn spec_store_byte(s: CpuState, x0: int) -> (CpuState, Result<
    (),
    InvalidMemoryAccess,
>) {
    let (s1, r) = spec_fetch_u32(s);
    match r {
        Err(e) => (s1, Err(e)),
        Ok(addr) => spec_write(s1, addr, s1.xs[x0] as u8),
    }
}

/// Store float `f0` as a 32-bit word at the immediate address.
pub open spec fn spec_store_float(s: CpuState, f0: int) -> (CpuState, Result<
    (),
    InvalidMemoryAccess,
>) {
    let (s1, r) = spec_fetch_u32(s);
    match r {
        Err(e) => (s1, Err(e)),
        Ok(addr) => spec_store_u32(s1, addr, s1.fs[f0]),
    }
}

/// Store `x0` as a 32-bit word at the address held in register `a`.
pub open spec fn spec_store_indirect_int(s: CpuState, x0: int, a: int) -> (CpuState, Result<
    (),
    InvalidMemoryAccess,
>) {
    spec_store_u32(s, s.xs[a], s.xs[x0])
}

/// Store the low 16 bits of `x0` at the address held in register `a`.
pub open spec fn spec_store_indirect_short(s: CpuState, x0: int, a: int) -> (CpuState, Result<
    (),
    InvalidMemoryAccess,
>) {
    spec_store_u16(s, s.xs[a], s.xs[x0])
}

/// Store the low byte of `x0` at the address held in register `a`.
pub open spec fn spec_store_indirect_byte(s: CpuState, x0: int, a: int) -> (CpuState, Result<
    (),
    InvalidMemoryAccess,
>) {
    spec_write(s, s.xs[a], s.xs[x0] as u8)
}

/// Store float `f0` as a 32-bit word at the address held in register `a`.
pub open spec fn spec_store_indirect_float(s: CpuState, f0: int, a: int) -> (CpuState, Result<
    (),
    InvalidMemoryAccess,
>) {
    spec_store_u32(s, s.xs[a], s.fs[f0])
}

impl<T> Cpu<T> where T: Address {
    /// Write `data` little-endian as four bytes at `addr`.
    pub(crate) fn write_u32(&mut self, addr: u32, data: u32) -> (r: Result<
        (),
        InvalidMemoryAccess,
    >)
        ensures
            (final(self)@, r) == spec_store_u32(old(self)@, addr, data),
    {
        self.write(addr, data as u8)?;
        self.write(addr.wrapping_add(1), (data >> 8) as u8)?;
        self.write(addr.wrapping_add(2), (data >> 16) as u8)?;
        self.write(addr.wrapping_add(3), (data >> 24) as u8)
    }

    /// Write the low 16 bits of `data` little-endian at `addr`.
    pub(crate) fn write_u16(&mut self, addr: u32, data: u32) -> (r: Result<
        (),
        InvalidMemoryAccess,
    >)
        ensures
            (final(self)@, r) == spec_store_u16(old(self)@, addr, data),
    {
        self.write(addr, data as u8)?;
        self.write(addr.wrapping_add(1), (data >> 8) as u8)
    }

    /// Load a 32-bit immediate into `x0` and rederive the integer flags.
    pub fn load_lit_int(&mut self, x0: usize) -> (r: Result<(), InvalidMemoryAccess>)
        requires
            x0 < 16,
        ensures
            (final(self)@, r) == spec_load_lit_int(old(self)@, x0 as int),
    {
        let data = match self.fetch_u32() {
            Ok(d) => d,
            Err(e) => {
                return Err(e);
            },
        };
        self.xs[x0] = data;
        self.update_flags_int(data);
        Ok(())
    }

    /// Load a 32-bit immediate into float `f0` and rederive the float flags.
    pub fn load_lit_float(&mut self, f0: usize) -> (r: Result<(), InvalidMemoryAccess>)
        requires
            f0 < 16,
        ensures
            (final(self)@, r) == spec_load_lit_float(old(self)@, f0 as int),
    {
        let data = match self.fetch_u32() {
            Ok(d) => d,
            Err(e) => {
                return Err(e);
            },
        };
        self.fs[f0] = data;
        self.update_flags_float(data);
        Ok(())
    }

    /// Load `x0` from the word at the immediate address.
    pub fn load_int(&mut self, x0: usize) -> (r: Result<(), InvalidMemoryAccess>)
        requires
            x0 < 16,
        ensures
            (final(self)@, r) == spec_load_int(old(self)@, x0 as int),
    {
        let addr = match self.fetch_u32() {
            Ok(a) => a,
            Err(e) => {
                return Err(e);
            },
        };
        let data = match self.read_u32(addr) {
            Ok(d) => d,
            Err(e) => {
                return Err(e);
            },
        };
        self.xs[x0] = data;
        self.update_flags_int(data);
        Ok(())
    }

    /// Load float `f0` from the word at the immediate address.
    pub fn load_float(&mut self, f0: usize) -> (r: Result<(), InvalidMemoryAccess>)
        requires
            f0 < 16,
        ensures
            (final(self)@, r) == spec_load_float(old(self)@, f0 as int),
    {
        let addr = match self.fetch_u32() {
            Ok(a) => a,
            Err(e) => {
                return Err(e);
            },
        };
        let data = match self.read_u32(addr) {
            Ok(d) => d,
            Err(e) => {
                return Err(e);
            },
        };
        self.fs[f0] = data;
        self.update_flags_float(data);
        Ok(())
    }

    /// Load `x0` from the word at the address held in register `a`.
    pub fn load_indirect_int(&mut self, x0: usize, a: usize) -> (r: Result<
        (),
        InvalidMemoryAccess,
    >)
        requires
            x0 < 16,
            a < 16,
        ensures
            (final(self)@, r) == spec_load_indirect_int(old(self)@, x0 as int, a as int),
    {
        let addr = self.xs[a];
        let data = match self.read_u32(addr) {
            Ok(d) => d,
            Err(e) => {
                return Err(e);
            },
        };
        self.xs[x0] = data;
        self.update_flags_int(data);
        Ok(())
    }

    /// Load float `f0` from the word at the address held in register `a`.
    pub fn load_indirect_float(&mut self, f0: usize, a: usize) -> (r: Result<
        (),
        InvalidMemoryAccess,
    >)
        requires
            f0 < 16,
            a < 16,
        ensures
            (final(self)@, r) == spec_load_indirect_float(old(self)@, f0 as int, a as int),
    {
        let addr = self.xs[a];
        let data = match self.read_u32(addr) {
            Ok(d) => d,
            Err(e) => {
                return Err(e);
            },
        };
        self.fs[f0] = data;
        self.update_flags_float(data);
        Ok(())
    }

    /// Store `x0` at the immediate address.
    pub fn store_int(&mut self, x0: usize) -> (r: Result<(), InvalidMemoryAccess>)
        requires
            x0 < 16,
        ensures
            (final(self)@, r) == spec_store_int(old(self)@, x0 as int),
    {
        let addr = match self.fetch_u32() {
            Ok(a) => a,
            Err(e) => {
                return Err(e);
            },
        };
        self.write_u32(addr, self.xs[x0])
    }

    /// Store the low 16 bits of `x0` at the immediate address.
    pub fn store_short(&mut self, x0: usize) -> (r: Result<(), InvalidMemoryAccess>)
        requires
            x0 < 16,
        ensures
            (final(self)@, r) == spec_store_short(old(self)@, x0 as int),
    {
        let addr = match self.fetch_u32() {
            Ok(a) => a,
            Err(e) => {
                return Err(e);
            },
        };
        self.write_u16(addr, self.xs[x0])
    }

    /// Store the low byte of `x0` at the immediate address.
    pub fn store_byte(&mut self, x0: usize) -> (r: Result<(), InvalidMemoryAccess>)
        requires
            x0 < 16,
        ensures
            (final(self)@, r) == spec_store_byte(old(self)@, x0 as int),
    {
        let addr = match self.fetch_u32() {
            Ok(a) => a,
            Err(e) => {
                return Err(e);
            },
        };
        self.write(addr, self.xs[x0] as u8)
    }

    /// Store float `f0` at the immediate address.
    pub fn store_float(&mut self, f0: usize) -> (r: Result<(), InvalidMemoryAccess>)
        requires
            f0 < 16,
        ensures
            (final(self)@, r) == spec_store_float(old(self)@, f0 as int),
    {
        let addr = match self.fetch_u32() {
            Ok(a) => a,
            Err(e) => {
                return Err(e);
            },
        };
        self.write_u32(addr, self.fs[f0])
    }

    /// Store `x0` at the address held in register `a`.
    pub fn store_indirect_int(&mut self, x0: usize, a: usize) -> (r: Result<
        (),
        InvalidMemoryAccess,
    >)
        requires
            x0 < 16,
            a < 16,
        ensures
            (final(self)@, r) == spec_store_indirect_int(old(self)@, x0 as int, a as int),
    {
        let addr = self.xs[a];
        self.write_u32(addr, self.xs[x0])
    }

    /// Store the low 16 bits of `x0` at the address held in register `a`.
    pub fn store_indirect_short(&mut self, x0: usize, a: usize) -> (r: Result<
        (),
        InvalidMemoryAccess,
    >)
        requires
            x0 < 16,
            a < 16,
        ensures
            (final(self)@, r) == spec_store_indirect_short(old(self)@, x0 as int, a as int),
    {
        let addr = self.xs[a];
        self.write_u16(addr, self.xs[x0])
    }

    /// Store the low byte of `x0` at the address held in register `a`.
    pub fn store_indirect_byte(&mut self, x0: usize, a: usize) -> (r: Result<
        (),
        InvalidMemoryAccess,
    >)
        requires
            x0 < 16,
            a < 16,
        ensures
            (final(self)@, r) == spec_store_indirect_byte(old(self)@, x0 as int, a as int),
    {
        let addr = self.xs[a];
        self.write(addr, self.xs[x0] as u8)
    }

    /// Store float `f0` at the address held in register `a`.
    pub fn store_indirect_float(&mut self, f0: usize, a: usize) -> (r: Result<
        (),
        InvalidMemoryAccess,
    >)
        requires
            f0 < 16,
            a < 16,
        ensures
            (final(self)@, r) == spec_store_indirect_float(old(self)@, f0 as int, a as int),
    {
        let addr = self.xs[a];
        self.write_u32(addr, self.fs[f0])
    }
}

} // verus!
