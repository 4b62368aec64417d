use vstd::prelude::*;

use crate::alu::{
    spec_and, spec_bsl, spec_bsr, spec_iadd, spec_idiv, spec_imod, spec_imul, spec_isub,
    spec_move_int, spec_or, spec_xor,
};
use crate::bus::Address;
use crate::ctrl::{
    spec_branch_false, spec_branch_true, spec_call, spec_privileged_move, spec_ret,
    spec_set_carry, spec_set_interrupt_enable, spec_set_memmap_enable, spec_set_user_ring,
    spec_unprivileged_move,
};
use crate::fault::InvalidMemoryAccess;
use crate::fpu::{
    spec_fadd, spec_fdiv, spec_fmul, spec_fsub, spec_move_float, spec_move_float_int,
    spec_move_int_float, spec_transmute_float_int, spec_transmute_int_float,
};
use crate::mem_ops::{
    spec_load_indirect_float, spec_load_indirect_int, spec_load_float, spec_load_int,
    spec_load_lit_float, spec_load_lit_int, spec_store_byte, spec_store_float,
    spec_store_indirect_byte, spec_store_indirect_float, spec_store_indirect_int,
    spec_store_indirect_short, spec_store_int, spec_store_short,
};
use crate::mmu::spec_fetch;
use crate::state::{
    cleared, flag_set, lemma_and_mask_le, CpuState, F_CARRY, F_INFINITE, F_INTERRUPT_ENABLE,
    F_MEMMAP_ENABLE, F_NAN, F_NEGATIVE, F_OVERFLOW, F_PARITY, F_USER_RING, F_ZERO, R_BASE, R_INT,
    R_SP,
};
use crate::Cpu;

verus! {

broadcast use crate::cpu_view_is_st;

/// The zero-operand class `00xxxxxx`: branches on a flag being set or clear
/// (each consuming a 32-bit target), carry and control-flag writes, entering
/// the user ring, `call` and `ret`. Unassigned sub-codes do nothing.
pub open spec fn spec_decode_zero_op(s: CpuState, opcode: u8) -> (CpuState, Result<
    (),
    InvalidMemoryAccess,
>) {
    let sub = opcode & 0x3f;
    if sub == 0x00 {
        spec_branch_true(s, F_ZERO)
    } else if sub == 0x01 {
        spec_branch_true(s, F_OVERFLOW)
    } else if sub == 0x02 {
        spec_branch_true(s, F_CARRY)
    } else if sub == 0x03 {
        spec_branch_true(s, F_NEGATIVE)
    } else if sub == 0x04 {
        spec_branch_true(s, F_PARITY)
    } else if sub == 0x05 {
        spec_branch_true(s, F_NAN)
    } else if sub == 0x06 {
        spec_branch_true(s, F_INFINITE)
    } else if sub == 0x07 {
        spec_branch_true(s, F_MEMMAP_ENABLE)
    } else if sub == 0x08 {
        spec_branch_false(s, F_ZERO)
    } else if sub == 0x09 {
        spec_branch_false(s, F_OVERFLOW)
    } else if sub == 0x0a {
        spec_branch_false(s, F_CARRY)
    } else if sub == 0x0b {
        spec_branch_false(s, F_NEGATIVE)
    } else if sub == 0x0c {
        spec_branch_false(s, F_PARITY)
    } else if sub == 0x0d {
        spec_branch_false(s, F_NAN)
    } else if sub == 0x0e {
        spec_branch_false(s, F_INFINITE)
    } else if sub == 0x0f {
        spec_branch_false(s, F_MEMMAP_ENABLE)
    } else if sub == 0x10 {
        (spec_set_carry(s, false), Ok(()))
    } else if sub == 0x11 {
        (spec_set_carry(s, true), Ok(()))
    } else if sub == 0x12 {
        spec_set_memmap_enable(s, false)
    } else if sub == 0x13 {
        spec_set_memmap_enable(s, true)
    } else if sub == 0x14 {
        spec_set_interrupt_enable(s, false)
    } else if sub == 0x15 {
        spec_set_interrupt_enable(s, true)
    } else if sub == 0x17 {
        spec_set_user_ring(s, true)
    } else if sub == 0x18 {
        spec_call(s)
    } else if sub == 0x19 {
        spec_ret(s)
    } else {
        (s, Ok(()))
    }
}

/// The one-register-plus-immediate class `01ccrrrr`: load an integer or
/// float immediate, or load from the immediate address.
pub open spec fn spec_decode_one_reg(s: CpuState, opcode: u8) -> (CpuState, Result<
    (),
    InvalidMemoryAccess,
>) {
    let reg = (opcode & 0x0f) as int;
    let sub = opcode & 0x30;
    if sub == 0x00 {
        spec_load_lit_int(s, reg)
    } else if sub == 0x10 {
        spec_load_lit_float(s, reg)
    } else if sub == 0x20 {
        spec_load_int(s, reg)
    } else {
        spec_load_float(s, reg)
    }
}

/// The two-register class `10cccccc 0bffffssss`: a second byte carries the
/// register pair. Sub-codes select integer and float arithmetic, bitwise
/// operations, shifts, moves and transmutes, indirect loads and stores, and
/// the control-register moves. A divide or remainder whose divisor register
/// holds zero does nothing: the architecture leaves division by zero
/// undefined and this core declines it. Unassigned sub-codes do nothing.
pub open spec fn spec_decode_two_reg(s: CpuState, opcode: u8) -> (CpuState, Result<
    (),
    InvalidMemoryAccess,
>) {
    let (s1, r) = spec_fetch(s);
    match r {
        Err(e) => (s1, Err(e)),
        Ok(data) => {
            let fst = ((data & 0xf0) >> 4) as int;
            let snd = (data & 0x0f) as int;
            let sub = opcode & 0x3f;
            if sub == 0x00 {
                (spec_iadd(s1, fst, snd), Ok(()))
            } else if sub == 0x01 {
                (spec_isub(s1, fst, snd), Ok(()))
            } else if sub == 0x02 {
                (spec_imul(s1, fst, snd), Ok(()))
            } else if sub == 0x03 {
                (
                    if s1.xs[snd] != 0 {
                        spec_idiv(s1, fst, snd)
                    } else {
                        s1
                    },
                    Ok(()),
                )
            } else if sub == 0x04 {
                (
                    if s1.xs[snd] != 0 {
                        spec_imod(s1, fst, snd)
                    } else {
                        s1
                    },
                    Ok(()),
                )
            } else if sub == 0x05 {
                (spec_fadd(s1, fst, snd), Ok(()))
            } else if sub == 0x06 {
                (spec_fsub(s1, fst, snd), Ok(()))
            } else if sub == 0x07 {
                (spec_fmul(s1, fst, snd), Ok(()))
            } else if sub == 0x08 {
                (spec_fdiv(s1, fst, snd), Ok(()))
            } else if sub == 0x09 {
                (spec_bsl(s1, fst, snd), Ok(()))
            } else if sub == 0x0a {
                (spec_bsr(s1, fst, snd), Ok(()))
            } else if sub == 0x0b {
                (spec_and(s1, fst, snd), Ok(()))
            } else if sub == 0x0c {
                (spec_or(s1, fst, snd), Ok(()))
            } else if sub == 0x0d {
                (spec_xor(s1, fst, snd), Ok(()))
            } else if sub == 0x0e {
                (spec_move_int(s1, fst, snd), Ok(()))
            } else if sub == 0x0f {
                (spec_move_float(s1, fst, snd), Ok(()))
            } else if sub == 0x10 {
                (spec_move_int_float(s1, fst, snd), Ok(()))
            } else if sub == 0x11 {
                (spec_move_float_int(s1, fst, snd), Ok(()))
            } else if sub == 0x12 {
                (spec_transmute_int_float(s1, fst, snd), Ok(()))
            } else if sub == 0x13 {
                (spec_transmute_float_int(s1, fst, snd), Ok(()))
            } else if sub == 0x14 {
                spec_load_indirect_int(s1, fst, snd)
            } else if sub == 0x15 {
                spec_load_indirect_float(s1, fst, snd)
            } else if sub == 0x16 {
                spec_store_indirect_int(s1, fst, snd)
            } else if sub == 0x17 {
                spec_store_indirect_short(s1, fst, snd)
            } else if sub == 0x18 {
                spec_store_indirect_byte(s1, fst, snd)
            } else if sub == 0x19 {
                spec_store_indirect_float(s1, fst, snd)
            } else if sub == 0x1a {
                spec_privileged_move(s1, fst, snd)
            } else if sub == 0x1b {
                (spec_unprivileged_move(s1, fst, snd), Ok(()))
            } else {
                (s1, Ok(()))
            }
        },
    }
}

/// The store class `11ccrrrr`: store the register (word, short, byte, or
/// float word) at the immediate address that follows.
pub open spec fn spec_decode_store(s: CpuState, opcode: u8) -> (CpuState, Result<
    (),
    InvalidMemoryAccess,
>) {
    let reg = (opcode & 0x0f) as int;
    let sub = opcode & 0x30;
    if sub == 0x00 {
        spec_store_int(s, reg)
    } else if sub == 0x10 {
        spec_store_short(s, reg)
    } else if sub == 0x20 {
        spec_store_byte(s, reg)
    } else {
        spec_store_float(s, reg)
    }
}

/// One instruction: the opcode byte is fetched and dispatched on its two-bit
/// class prefix. A fault anywhere leaves the partial state the fault found.
pub open spec fn spec_decode(s: CpuState) -> (CpuState, Result<(), InvalidMemoryAccess>) {
    let (s1, r) = spec_fetch(s);
    match r {
        Err(e) => (s1, Err(e)),
        Ok(opcode) => {
            let class = opcode & 0xc0;
            if class == 0x00 {
                spec_decode_zero_op(s1, opcode)
            } else if class == 0x40 {
                spec_decode_one_reg(s1, opcode)
            } else if class == 0x80 {
                spec_decode_two_reg(s1, opcode)
            } else {
                spec_decode_store(s1, opcode)
            }
        },
    }
}

/// Entering a pending interrupt: the last-interrupt register takes the id.
/// A machine in the user ring leaves it — entering a handler clears the
/// user-ring flag implicitly, the only way the flag ever clears — and
/// switches stacks: the stack pointer and the saved system stack pointer
/// swap, so the outgoing user stack pointer is kept for the handler to
/// restore, and the base pointer is set to zero, this machine's convention
/// for a handler frame chain's root. The handler-address lookup is an open
/// implementation point of this architecture and no control transfer is
/// performed here.
pub open spec fn spec_call_interrupt(s: CpuState, interrupt: u32) -> CpuState {
    let s1 = CpuState { xs: s.xs.update(R_INT as int, interrupt), ..s };
    if flag_set(s1.flags, F_USER_RING) {
        CpuState {
            xs: s1.xs.update(R_SP as int, s1.system_sp).update(R_BASE as int, 0u32),
            system_sp: s1.xs[R_SP as int],
            flags: cleared(s1.flags, 1u32 << F_USER_RING),
            ..s1
        }
    } else {
        s1
    }
}

/// One tick: with the interrupt-enable flag set and a pending interrupt, the
/// oldest pending interrupt is dequeued and entered; otherwise one
/// instruction is decoded and executed, and a fault raised by it becomes the
/// matching non-maskable interrupt.
pub open spec fn spec_step(s: CpuState) -> CpuState {
    if s.queue.len() != 0 && flag_set(s.flags, F_INTERRUPT_ENABLE) {
        spec_call_interrupt(
            CpuState { queue: s.queue.subrange(1, s.queue.len() as int), ..s },
            s.queue[0],
        )
    } else {
        spec_decode(s).0
    }
}

/// An offered IRQ: appended to the queue when its bit of the 8-bit interrupt
/// mask is set; ids with no mask bit (8 and up) and masked ids are dropped.
pub open spec fn spec_irq(s: CpuState, id: u8) -> CpuState {
    if id < 8 && (s.interrupt_mask >> id) & 1 != 0 {
        CpuState { queue: s.queue.push(id as u32), ..s }
    } else {
        s
    }
}

impl<T> Cpu<T> where T: Address {
    /// Fetch, decode and execute one instruction.
    pub fn decode_instruction(&mut self) -> (r: Result<(), InvalidMemoryAccess>)
        ensures
            (final(self)@, r) == spec_decode(old(self)@),
    {
        proof {
            lemma_and_mask_le();
        }
        let opcode = match self.exec() {
            Ok(b) => b,
            Err(e) => {
                return Err(e);
            },
        };
        let class = opcode & 0xc0;
        if class == 0x00 {
            let sub = opcode & 0x3f;
            if sub == 0x00 {
                self.branch_true(F_ZERO)
            } else if sub == 0x01 {
                self.branch_true(F_OVERFLOW)
            } else if sub == 0x02 {
                self.branch_true(F_CARRY)
            } else if sub == 0x03 {
                self.branch_true(F_NEGATIVE)
            } else if sub == 0x04 {
                self.branch_true(F_PARITY)
            } else if sub == 0x05 {
                self.branch_true(F_NAN)
            } else if sub == 0x06 {
                self.branch_true(F_INFINITE)
            } else if sub == 0x07 {
                self.branch_true(F_MEMMAP_ENABLE)
            } else if sub == 0x08 {
                self.branch_false(F_ZERO)
            } else if sub == 0x09 {
                self.branch_false(F_OVERFLOW)
            } else if sub == 0x0a {
                self.branch_false(F_CARRY)
            } else if sub == 0x0b {
                self.branch_false(F_NEGATIVE)
            } else if sub == 0x0c {
                self.branch_false(F_PARITY)
            } else if sub == 0x0d {
                self.branch_false(F_NAN)
            } else if sub == 0x0e {
                self.branch_false(F_INFINITE)
            } else if sub == 0x0f {
                self.branch_false(F_MEMMAP_ENABLE)
            } else if sub == 0x10 {
                self.set_carry(false);
                Ok(())
            } else if sub == 0x11 {
                self.set_carry(true);
                Ok(())
            } else if sub == 0x12 {
                self.set_memmap_enable(false)
            } else if sub == 0x13 {
                self.set_memmap_enable(true)
            } else if sub == 0x14 {
                self.set_interrupt_enable(false)
            } else if sub == 0x15 {
                self.set_interrupt_enable(true)
            } else if sub == 0x17 {
                self.set_user_ring(true)
            } else if sub == 0x18 {
                self.call()
            } else if sub == 0x19 {
                self.ret()
            } else {
                Ok(())
            }
        } else if class == 0x40 {
            let reg = (opcode & 0x0f) as usize;
            let sub = opcode & 0x30;
            if sub == 0x00 {
                self.load_lit_int(reg)
            } else if sub == 0x10 {
                self.load_lit_float(reg)
            } else if sub == 0x20 {
                self.load_int(reg)
            } else {
                self.load_float(reg)
            }
        } else if class == 0x80 {
            let data = match self.exec() {
                Ok(b) => b,
                Err(e) => {
                    return Err(e);
                },
            };
            let fst = ((data & 0xf0) >> 4) as usize;
            let snd = (data & 0x0f) as usize;
            let sub = opcode & 0x3f;
            if sub == 0x00 {
                self.iadd(fst, snd);
                Ok(())
            } else if sub == 0x01 {
                self.isub(fst, snd);
                Ok(())
            } else if sub == 0x02 {
                self.imul(fst, snd);
                Ok(())
            } else if sub == 0x03 {
                if self.xs[snd] != 0 {
                    self.idiv(fst, snd);
                }
                Ok(())
            } else if sub == 0x04 {
                if self.xs[snd] != 0 {
                    self.imod(fst, snd);
                }
                Ok(())
            } else if sub == 0x05 {
                self.fadd(fst, snd);
                Ok(())
            } else if sub == 0x06 {
                self.fsub(fst, snd);
                Ok(())
            } else if sub == 0x07 {
                self.fmul(fst, snd);
                Ok(())
            } else if sub == 0x08 {
                self.fdiv(fst, snd);
                Ok(())
            } else if sub == 0x09 {
                self.bsl(fst, snd);
                Ok(())
            } else if sub == 0x0a {
                self.bsr(fst, snd);
                Ok(())
            } else if sub == 0x0b {
                self.and(fst, snd);
                Ok(())
            } else if sub == 0x0c {
                self.or(fst, snd);
                Ok(())
            } else if sub == 0x0d {
                self.xor(fst, snd);
                Ok(())
            } else if sub == 0x0e {
                self.move_int(fst, snd);
                Ok(())
            } else if sub == 0x0f {
                self.move_float(fst, snd);
                Ok(())
            } else if sub == 0x10 {
                self.move_int_float(fst, snd);
                Ok(())
            } else if sub == 0x11 {
                self.move_float_int(fst, snd);
                Ok(())
            } else if sub == 0x12 {
                self.transmute_int_float(fst, snd);
                Ok(())
            } else if sub == 0x13 {
                self.transmute_float_int(fst, snd);
                Ok(())
            } else if sub == 0x14 {
                self.load_indirect_int(fst, snd)
            } else if sub == 0x15 {
                self.load_indirect_float(fst, snd)
            } else if sub == 0x16 {
                self.store_indirect_int(fst, snd)
            } else if sub == 0x17 {
                self.store_indirect_short(fst, snd)
            } else if sub == 0x18 {
                self.store_indirect_byte(fst, snd)
            } else if sub == 0x19 {
                self.store_indirect_float(fst, snd)
            } else if sub == 0x1a {
                self.privileged_move(fst, snd)
            } else if sub == 0x1b {
                self.unprivileged_move(fst, snd);
                Ok(())
            } else {
                Ok(())
            }
        } else {
            let reg = (opcode & 0x0f) as usize;
            let sub = opcode & 0x30;
            if sub == 0x00 {
                self.store_int(reg)
            } else if sub == 0x10 {
                self.store_short(reg)
            } else if sub == 0x20 {
                self.store_byte(reg)
            } else {
                self.store_float(reg)
            }
        }
    }

    /// Enter a pending interrupt: record its id in the last-interrupt
    /// register and, from the user ring, leave the ring and switch to the
    /// system stack, saving the user stack pointer in its place.
    fn call_interrupt(&mut self, interrupt: u32)
        ensures
            final(self)@ == spec_call_interrupt(old(self)@, interrupt),
    {
        self.xs[R_INT] = interrupt;
        if self.get_flag(F_USER_RING) {
            let user_sp = self.xs[R_SP];
            self.xs[R_SP] = self.system_sp;
            self.system_sp = user_sp;
            self.xs[R_BASE] = 0;
            self.flags = self.flags & !(1u32 << F_USER_RING);
        }
    }

    /// Advance one tick: service one pending interrupt if the enable flag
    /// allows, else execute one instruction, converting any fault it raises
    /// into the matching non-maskable interrupt id.
    pub fn step(&mut self)
        ensures
            final(self)@ == spec_step(old(self)@),
    {
        if self.interrupt_queue.len() != 0 && self.get_flag(F_INTERRUPT_ENABLE) {
            let interrupt = match self.interrupt_queue.pop_front() {
                Some(i) => i,
                None => {
                    return ;
                },
            };
            self.call_interrupt(interrupt);
        } else {
            match self.decode_instruction() {
                Ok(_) => (),
                Err(e) => self.nmi(
                    match e {
                        InvalidMemoryAccess::UsedFreePage => 0x00000000,
                        InvalidMemoryAccess::InvalidPermissions(_, _) => 0x00000001,
                        InvalidMemoryAccess::UnprivilegedOpcode => 0x00000002,
                    },
                ),
            }
        }
    }

    /// Offer an IRQ: ids whose interrupt-mask bit is set join the queue,
    /// masked ids are dropped.
    pub fn irq(&mut self, id: u8)
        ensures
            final(self)@ == spec_irq(old(self)@, id),
    {
        if id < 8 && (self.interrupt_mask >> id) & 1 != 0 {
            self.interrupt_queue.push_back(id as u32);
        }
    }

    /// Offer a non-maskable interrupt id. Reserved: NMIs arise inside the
    /// engine, and delivery policy for external ones is not part of this
    /// architecture yet, so the machine is left untouched.
    pub fn nmi(&mut self, id: u32)
        ensures
            final(self)@ == old(self)@,
    {
    }
}

} // verus!
