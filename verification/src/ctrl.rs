use vstd::prelude::*;

use crate::bus::Address;
use crate::fault::InvalidMemoryAccess;
use crate::mmu::{spec_fetch_u32, spec_read, spec_write};
use crate::state::{
    cleared, flag_set, wadd, with_flag, wsub, CpuState, F_CARRY, F_INTERRUPT_ENABLE,
    F_MEMMAP_ENABLE, F_USER_RING, R_BASE, R_PC, R_SP,
};
use crate::Cpu;

verus! {

broadcast use crate::cpu_view_is_st;

/// The state after the carry flag is forced to `val`.
pub open spec fn spec_set_carry(s: CpuState, val: bool) -> CpuState {
    CpuState { flags: with_flag(cleared(s.flags, 1u32 << F_CARRY), F_CARRY, val), ..s }
}

/// The state and outcome of writing the user-ring flag: refused once the
/// machine is already in the user ring, so the flag is one-way from user code.
pub open spec fn spec_set_user_ring(s: CpuState, val: bool) -> (CpuState, Result<
    (),
    InvalidMemoryAccess,
>) {
    if flag_set(s.flags, F_USER_RING) {
        (s, Err(InvalidMemoryAccess::UnprivilegedOpcode))
    } else {
        (
            CpuState { flags: with_flag(cleared(s.flags, 1u32 << F_USER_RING), F_USER_RING, val), ..s },
            Ok(()),
        )
    }
}

/// The state and outcome of writing the translation-enable flag: a privileged
/// operation, refused from the user ring with the target flag untouched.
pub open spec fn spec_set_memmap_enable(s: CpuState, val: bool) -> (CpuState, Result<
    (),
    InvalidMemoryAccess,
>) {
    if flag_set(s.flags, F_USER_RING) {
        (s, Err(InvalidMemoryAccess::UnprivilegedOpcode))
    } else {
        (
            CpuState {
                flags: with_flag(cleared(s.flags, 1u32 << F_MEMMAP_ENABLE), F_MEMMAP_ENABLE, val),
                ..s
            },
            Ok(()),
        )
    }
}

/// The state and outcome of writing the interrupt-enable flag: a privileged
/// operation, refused from the user ring with the target flag untouched.
pub open spec fn spec_set_interrupt_enable(s: CpuState, val: bool) -> (CpuState, Result<
    (),
    InvalidMemoryAccess,
>) {
    if flag_set(s.flags, F_USER_RING) {
        (s, Err(InvalidMemoryAccess::UnprivilegedOpcode))
    } else {
        (
            CpuState {
                flags: with_flag(
                    cleared(s.flags, 1u32 << F_INTERRUPT_ENABLE),
                    F_INTERRUPT_ENABLE,
                    val,
                ),
                ..s
            },
            Ok(()),
        )
    }
}

/// One byte pushed: written at the stack pointer, which then moves down one.
/// A faulting write leaves the stack pointer where it was.
pub open spec fn spec_push_byte(s: CpuState, b: u8) -> (CpuState, Result<
    (),
    InvalidMemoryAccess,
>) {
    let (s1, r) = spec_write(s, s.xs[R_SP as int], b);
    match r {
        Err(e) => (s1, Err(e)),
        Ok(_) => (
            CpuState { xs: s1.xs.update(R_SP as int, wsub(s1.xs[R_SP as int], 1)), ..s1 },
            Ok(()),
        ),
    }
}

/// A 32-bit word pushed high byte first, so that it lies in memory
/// little-endian, low byte at the lowest address.
pub open spec fn spec_push_u32(s: CpuState, data: u32) -> (CpuState, Result<
    (),
    InvalidMemoryAccess,
>) {
    let (s0, r0) = spec_push_byte(s, (data >> 24) as u8);
    match r0 {
        Err(e) => (s0, Err(e)),
        Ok(_) => {
            let (s1, r1) = spec_push_byte(s0, (data >> 16) as u8);
            match r1 {
                Err(e) => (s1, Err(e)),
                Ok(_) => {
                    let (s2, r2) = spec_push_byte(s1, (data >> 8) as u8);
                    match r2 {
                        Err(e) => (s2, Err(e)),
                        Ok(_) => spec_push_byte(s2, data as u8),
                    }
                },
            }
        },
    }
}

/// One byte of a stack frame read back: the base pointer moves up one first,
/// then the byte at it is read. A faulting read leaves the base pointer
/// already advanced.
pub open spec fn spec_pop_byte(s: CpuState) -> (CpuState, Result<u8, InvalidMemoryAccess>) {
    let s1 = CpuState { xs: s.xs.update(R_BASE as int, wadd(s.xs[R_BASE as int], 1)), ..s };
    match spec_read(s1, s1.xs[R_BASE as int]) {
        Ok(b) => (s1, Ok(b)),
        Err(e) => (s1, Err(e)),
    }
}

/// `call`: a 32-bit target immediate is fetched; the base pointer and then
/// the program counter (already past the immediate) are pushed, four bytes
/// each; the base pointer takes the post-push stack pointer and control
/// transfers to the target. A fault mid-way keeps the partial pushes.
pub open spec fn spec_call(s: CpuState) -> (CpuState, Result<(), InvalidMemoryAccess>) {
    let (s1, r) = spec_fetch_u32(s);
    match r {
        Err(e) => (s1, Err(e)),
        Ok(addr) => {
            let (s2, r2) = spec_push_u32(s1, s1.xs[R_BASE as int]);
            match r2 {
                Err(e) => (s2, Err(e)),
                Ok(_) => {
                    let (s3, r3) = spec_push_u32(s2, s2.xs[R_PC as int]);
                    match r3 {
                        Err(e) => (s3, Err(e)),
                        Ok(_) => (
                            CpuState {
                                xs: s3.xs.update(R_BASE as int, s3.xs[R_SP as int]).update(
                                    R_PC as int,
                                    addr,
                                ),
                                ..s3
                            },
                            Ok(()),
                        ),
                    }
                },
            }
        },
    }
}

/// `ret`: the saved program counter (at BP+1..BP+4, low byte first) and the
/// saved base pointer (at BP+5..BP+8) are read back relative to the base
/// pointer; the stack pointer then takes the old base pointer's final
/// position and the base pointer its saved value. A fault mid-way keeps the
/// partial reassembly of the program counter.
pub open spec fn spec_ret(s: CpuState) -> (CpuState, Result<(), InvalidMemoryAccess>) {
    let s0 = CpuState { xs: s.xs.update(R_PC as int, 0u32), ..s };
    let (s1, r1) = spec_pop_byte(s0);
    match r1 {
        Err(e) => (s1, Err(e)),
        Ok(b0) => {
            let t1 = CpuState {
                xs: s1.xs.update(R_PC as int, s1.xs[R_PC as int] | (b0 as u32)),
                ..s1
            };
            let (s2, r2) = spec_pop_byte(t1);
            match r2 {
                Err(e) => (s2, Err(e)),
                Ok(b1) => {
                    let t2 = CpuState {
                        xs: s2.xs.update(R_PC as int, s2.xs[R_PC as int] | ((b1 as u32) << 8)),
                        ..s2
                    };
                    let (s3, r3) = spec_pop_byte(t2);
                    match r3 {
                        Err(e) => (s3, Err(e)),
                        Ok(b2) => {
                            let t3 = CpuState {
                                xs: s3.xs.update(
                                    R_PC as int,
                                    s3.xs[R_PC as int] | ((b2 as u32) << 16),
                                ),
                                ..s3
                            };
                            let (s4, r4) = spec_pop_byte(t3);
                            match r4 {
                                Err(e) => (s4, Err(e)),
                                Ok(b3) => {
                                    let t4 = CpuState {
                                        xs: s4.xs.update(
                                            R_PC as int,
                                            s4.xs[R_PC as int] | ((b3 as u32) << 24),
                                        ),
                                        ..s4
                                    };
                                    spec_ret_base(t4)
                                },
                            }
                        },
                    }
                },
            }
        },
    }
}

/// The second half of `ret`: the four saved base-pointer bytes are read into
/// a scratch word, then the stack pointer takes the base pointer's position
/// and the base pointer the reassembled value.
pub open spec fn spec_ret_base(s: CpuState) -> (CpuState, Result<(), InvalidMemoryAccess>) {
    let (s1, r1) = spec_pop_byte(s);
    match r1 {
        Err(e) => (s1, Err(e)),
        Ok(b0) => {
            let (s2, r2) = spec_pop_byte(s1);
            match r2 {
                Err(e) => (s2, Err(e)),
                Ok(b1) => {
                    let (s3, r3) = spec_pop_byte(s2);
                    match r3 {
                        Err(e) => (s3, Err(e)),
                        Ok(b2) => {
                            let (s4, r4) = spec_pop_byte(s3);
                            match r4 {
                                Err(e) => (s4, Err(e)),
                                Ok(b3) => {
                                    let data = (b0 as u32) | ((b1 as u32) << 8) | ((b2 as u32)
                                        << 16) | ((b3 as u32) << 24);
                                    (
                                        CpuState {
                                            xs: s4.xs.update(R_SP as int, s4.xs[R_BASE as int]).update(
                                                R_BASE as int,
                                                data,
                                            ),
                                            ..s4
                                        },
                                        Ok(()),
                                    )
                                },
                            }
                        },
                    }
                },
            }
        },
    }
}

/// A conditional branch: the 32-bit target is always fetched first, so the
/// program counter is past the immediate either way; it takes the target
/// only when flag bit `flag` is set.
pub open spec fn spec_branch_true(s: CpuState, flag: u32) -> (CpuState, Result<
    (),
    InvalidMemoryAccess,
>) {
    let (s1, r) = spec_fetch_u32(s);
    match r {
        Err(e) => (s1, Err(e)),
        Ok(addr) => (
            if flag_set(s1.flags, flag) {
                CpuState { xs: s1.xs.update(R_PC as int, addr), ..s1 }
            } else {
                s1
            },
            Ok(()),
        ),
    }
}

/// The mirror branch: taken when flag bit `flag` is clear.
pub open spec fn spec_branch_false(s: CpuState, flag: u32) -> (CpuState, Result<
    (),
    InvalidMemoryAccess,
>) {
    let (s1, r) = spec_fetch_u32(s);
    match r {
        Err(e) => (s1, Err(e)),
        Ok(addr) => (
            if !flag_set(s1.flags, flag) {
                CpuState { xs: s1.xs.update(R_PC as int, addr), ..s1 }
            } else {
                s1
            },
            Ok(()),
        ),
    }
}

/// The privileged move into a control register: refused outright from the
/// user ring, with no register mutated. From the system ring, selector 0
/// writes the flags word, 1 the translation-table base, 2 the interrupt
/// mask (truncated to 8 bits); other selectors do nothing.
pub open spec fn spec_privileged_move(s: CpuState, x0: int, p: int) -> (CpuState, Result<
    (),
    InvalidMemoryAccess,
>) {
    if flag_set(s.flags, F_USER_RING) {
        (s, Err(InvalidMemoryAccess::UnprivilegedOpcode))
    } else if p == 0 {
        (CpuState { flags: s.xs[x0], ..s }, Ok(()))
    } else if p == 1 {
        (CpuState { memmap: s.xs[x0], ..s }, Ok(()))
    } else if p == 2 {
        (CpuState { interrupt_mask: s.xs[x0] as u8, ..s }, Ok(()))
    } else {
        (s, Ok(()))
    }
}

/// The unprivileged move out of a control register: reading control state is
/// unrestricted. Selector 0 reads the flags word, 1 the translation-table
/// base, 2 the interrupt mask widened; other selectors do nothing. The
/// result flags are not rederived.
pub open spec fn spec_unprivileged_move(s: CpuState, p: int, x0: int) -> CpuState {
    if p == 0 {
        CpuState { xs: s.xs.update(x0, s.flags), ..s }
    } else if p == 1 {
        CpuState { xs: s.xs.update(x0, s.memmap), ..s }
    } else if p == 2 {
        CpuState { xs: s.xs.update(x0, s.interrupt_mask as u32), ..s }
    } else {
        s
    }
}

impl<T> Cpu<T> where T: Address {
    /// Whether flag bit `flag` is set.
    pub fn get_flag(&self, flag: u32) -> (r: bool)
        requires
            flag < 32,
        ensures
            r == flag_set(self@.flags, flag),
    {
        self.flags & (1u32 << flag) != 0
    }

    /// Or flag bit `flag` in when `val` holds. Never clears: callers that
    /// need clear-before-set semantics clear their subset first.
    pub fn set_flag(&mut self, flag: u32, val: bool)
        requires
            flag < 32,
        ensures
            final(self)@ == (CpuState { flags: with_flag(old(self)@.flags, flag, val), ..old(self)@ }),
    {
        self.flags = self.flags | ((if val {
            1u32
        } else {
            0u32
        }) << flag);
    }

    /// Force the carry flag to `val`.
    pub fn set_carry(&mut self, val: bool)
        ensures
            final(self)@ == spec_set_carry(old(self)@, val),
    {
        self.flags = self.flags & !(1u32 << F_CARRY);
        self.set_flag(F_CARRY, val);
    }

    /// Write the user-ring flag. Allowed only from the system ring: once the
    /// machine runs in the user ring the flag cannot be written again.
    pub fn set_user_ring(&mut self, val: bool) -> (r: Result<(), InvalidMemoryAccess>)
        ensures
            (final(self)@, r) == spec_set_user_ring(old(self)@, val),
    {
        if !self.get_flag(F_USER_RING) {
            self.flags = self.flags & !(1u32 << F_USER_RING);
            self.set_flag(F_USER_RING, val);
            Ok(())
        } else {
            Err(InvalidMemoryAccess::UnprivilegedOpcode)
        }
    }

    /// Write the translation-enable flag; privileged.
    pub fn set_memmap_enable(&mut self, val: bool) -> (r: Result<(), InvalidMemoryAccess>)
        ensures
            (final(self)@, r) == spec_set_memmap_enable(old(self)@, val),
    {
        if !self.get_flag(F_USER_RING) {
            self.flags = self.flags & !(1u32 << F_MEMMAP_ENABLE);
            self.set_flag(F_MEMMAP_ENABLE, val);
            Ok(())
        } else {
            Err(InvalidMemoryAccess::UnprivilegedOpcode)
        }
    }

    /// Write the interrupt-enable flag; privileged.
    pub fn set_interrupt_enable(&mut self, val: bool) -> (r: Result<(), InvalidMemoryAccess>)
        ensures
            (final(self)@, r) == spec_set_interrupt_enable(old(self)@, val),
    {
        if !self.get_flag(F_USER_RING) {
            self.flags = self.flags & !(1u32 << F_INTERRUPT_ENABLE);
            self.set_flag(F_INTERRUPT_ENABLE, val);
            Ok(())
        } else {
            Err(InvalidMemoryAccess::UnprivilegedOpcode)
        }
    }

    /// Push one byte: write at the stack pointer, then move it down one.
    fn push_byte(&mut self, b: u8) -> (r: Result<(), InvalidMemoryAccess>)
        ensures
            (final(self)@, r) == spec_push_byte(old(self)@, b),
    {
        self.write(self.xs[R_SP], b)?;
        self.xs[R_SP] = self.xs[R_SP].wrapping_sub(1);
        Ok(())
    }

    /// Push a 32-bit word, high byte first.
    fn push_u32(&mut self, data: u32) -> (r: Result<(), InvalidMemoryAccess>)
        ensures
            (final(self)@, r) == spec_push_u32(old(self)@, data),
    {
        self.push_byte((data >> 24) as u8)?;
        self.push_byte((data >> 16) as u8)?;
        self.push_byte((data >> 8) as u8)?;
        self.push_byte(data as u8)
    }

    /// Advance the base pointer by one and read the byte there.
    fn pop_byte(&mut self) -> (r: Result<u8, InvalidMemoryAccess>)
        ensures
            (final(self)@, r) == spec_pop_byte(old(self)@),
    {
        self.xs[R_BASE] = self.xs[R_BASE].wrapping_add(1);
        self.read(self.xs[R_BASE])
    }

    /// `call`: fetch the 32-bit target, push the base pointer and the
    /// program counter, rebase the frame and transfer control.
    pub fn call(&mut self) -> (r: Result<(), InvalidMemoryAccess>)
        ensures
            (final(self)@, r) == spec_call(old(self)@),
    {
        let addr = match self.fetch_u32() {
            Ok(a) => a,
            Err(e) => {
                return Err(e);
            },
        };
        let data = self.xs[R_BASE];
        self.push_u32(data)?;
        let data = self.xs[R_PC];
        self.push_u32(data)?;
        self.xs[R_BASE] = self.xs[R_SP];
        self.xs[R_PC] = addr;
        Ok(())
    }

    /// `ret`: read the saved program counter and base pointer back relative
    /// to the base pointer, then restore the stack and base pointers.
    pub fn ret(&mut self) -> (r: Result<(), InvalidMemoryAccess>)
        ensures
            (final(self)@, r) == spec_ret(old(self)@),
    {
        self.xs[R_PC] = 0;
        let b = self.pop_byte()?;
        self.xs[R_PC] = self.xs[R_PC] | (b as u32);
        let b = self.pop_byte()?;
        self.xs[R_PC] = self.xs[R_PC] | ((b as u32) << 8);
        let b = self.pop_byte()?;
        self.xs[R_PC] = self.xs[R_PC] | ((b as u32) << 16);
        let b = self.pop_byte()?;
        self.xs[R_PC] = self.xs[R_PC] | ((b as u32) << 24);
        let b0 = self.pop_byte()?;
        let b1 = self.pop_byte()?;
        let b2 = self.pop_byte()?;
        let b3 = self.pop_byte()?;
        let data = (b0 as u32) | ((b1 as u32) << 8) | ((b2 as u32) << 16) | ((b3 as u32) << 24);
        self.xs[R_SP] = self.xs[R_BASE];
        self.xs[R_BASE] = data;
        Ok(())
    }

    /// Branch to the fetched target when flag bit `flag` is set.
    pub fn branch_true(&mut self, flag: u32) -> (r: Result<(), InvalidMemoryAccess>)
        requires
            flag < 32,
        ensures
            (final(self)@, r) == spec_branch_true(old(self)@, flag),
    {
        let addr = match self.fetch_u32() {
            Ok(a) => a,
            Err(e) => {
                return Err(e);
            },
        };
        if self.get_flag(flag) {
            self.xs[R_PC] = addr;
        }
        Ok(())
    }

    /// Branch to the fetched target when flag bit `flag` is clear.
    pub fn branch_false(&mut self, flag: u32) -> (r: Result<(), InvalidMemoryAccess>)
        requires
            flag < 32,
        ensures
            (final(self)@, r) == spec_branch_false(old(self)@, flag),
    {
        let addr = match self.fetch_u32() {
            Ok(a) => a,
            Err(e) => {
                return Err(e);
            },
        };
        if !self.get_flag(flag) {
            self.xs[R_PC] = addr;
        }
        Ok(())
    }

    /// Write control register `p` from `x0`; privileged.
    pub fn privileged_move(&mut self, x0: usize, p: usize) -> (r: Result<(), InvalidMemoryAccess>)
        requires
            x0 < 16,
            p < 16,
        ensures
            (final(self)@, r) == spec_privileged_move(old(self)@, x0 as int, p as int),
    {
        if self.get_flag(F_USER_RING) {
            return Err(InvalidMemoryAccess::UnprivilegedOpcode);
        }
        if p == 0 {
            self.flags = self.xs[x0];
        } else if p == 1 {
            self.memmap = self.xs[x0];
        } else if p == 2 {
            self.interrupt_mask = self.xs[x0] as u8;
        }
        Ok(())
    }

    /// Read control register `p` into `x0`; unrestricted.
    pub fn unprivileged_move(&mut self, p: usize, x0: usize)
        requires
            p < 16,
            x0 < 16,
        ensures
            final(self)@ == spec_unprivileged_move(old(self)@, p as int, x0 as int),
    {
        if p == 0 {
            self.xs[x0] = self.flags;
        } else if p == 1 {
            self.xs[x0] = self.memmap;
        } else if p == 2 {
            self.xs[x0] = self.interrupt_mask as u32;
        }
    }
}

} // verus!
