//! The core of an emulator for a fictional 32-bit CISC-style processor:
//! a fetch/decode/execute engine over a variable-length bytecode, a two-level
//! page-table memory management unit with per-page permissions, and a masked,
//! queued interrupt mechanism with user/system ring separation.

use std::collections::VecDeque;
use vstd::prelude::*;

pub mod alu;
pub mod bus;
pub mod ctrl;
pub mod decode;
pub mod fault;
pub mod fpu;
pub mod laws;
pub mod mem_ops;
pub mod mmu;
pub mod state;

use crate::bus::Address;
use crate::state::CpuState;

verus! {

/// Permission bit requested for a data read.
pub const READ: u8 = 0b100;

/// Permission bit requested for a data write.
pub const WRITE: u8 = 0b010;

/// Permission bit requested for an instruction fetch.
pub const EXEC: u8 = 0b001;

/// The processor: sixteen 32-bit integer registers (the program counter is
/// x13, the stack base pointer x14, the stack pointer x15, and x12 holds the
/// last-interrupt id), sixteen single-precision floating-point registers kept
/// as their raw IEEE 754 bit patterns, a 32-bit flags word, the control
/// registers, the queue of pending interrupts, and the memory bus.
pub struct Cpu<T> where T: Address {
    xs: [u32; 16],
    // The bit patterns of the sixteen floating-point registers.
    fs: [u32; 16],
    flags: u32,
    // Bits that are 0 keep the matching IRQ id out of the queue.
    interrupt_mask: u8,
    // Base address of the top-level translation table.
    memmap: u32,
    // System-ring stack pointer, saved across ring transitions.
    system_sp: u32,
    interrupt_queue: VecDeque<u32>,
    addressing: T,
}

impl<T> Cpu<T> where T: Address {
    pub open(crate) spec fn st(&self) -> CpuState {
        CpuState {
            xs: self.xs@,
            fs: self.fs@,
            flags: self.flags,
            interrupt_mask: self.interrupt_mask,
            memmap: self.memmap,
            system_sp: self.system_sp,
            queue: self.interrupt_queue@,
            mem: self.addressing.contents(),
            writable: Set::new(|a: u32| self.addressing.writable(a)),
        }
    }
}

impl<T> View for Cpu<T> where T: Address {
    type V = CpuState;

    closed spec fn view(&self) -> CpuState {
        self.st()
    }
}

/// Inside the crate the abstract view of a machine coincides with the state
/// assembled from its fields.
pub(crate) broadcast proof fn cpu_view_is_st<T: Address>(c: Cpu<T>)
    ensures
        #[trigger] c.view() == c.st(),
{
}

impl<T> Cpu<T> where T: Address {
    /// A fresh machine over the given bus: zeroed registers and flags, an
    /// all-enabled interrupt mask, and an empty queue.
    pub fn new(t: T) -> (c: Cpu<T>)
        ensures
            c@.xs == Seq::new(16, |i: int| 0u32),
            c@.fs == Seq::new(16, |i: int| 0u32),
            c@.flags == 0u32,
            c@.interrupt_mask == 0xffu8,
            c@.memmap == 0u32,
            c@.system_sp == 0u32,
            c@.queue == Seq::<u32>::empty(),
            c@.mem == t.contents(),
            c@.writable == Set::new(|a: u32| t.writable(a)),
    {
        let c = Cpu {
            xs: [0u32; 16],
            fs: [0u32; 16],
            flags: 0,
            interrupt_mask: 0xff,
            memmap: 0,
            system_sp: 0,
            interrupt_queue: VecDeque::new(),
            addressing: t,
        };
        proof {
            assert(c@.xs =~= Seq::new(16, |i: int| 0u32));
            assert(c@.fs =~= Seq::new(16, |i: int| 0u32));
            assert(c@.queue =~= Seq::<u32>::empty());
        }
        c
    }

    /// Integer register `i`.
    pub fn x(&self, i: usize) -> (r: u32)
        requires
            i < 16,
        ensures
            r == self@.xs[i as int],
    {
        self.xs[i]
    }

    /// Write integer register `i`; a host-level poke with no flag effects.
    pub fn set_x(&mut self, i: usize, v: u32)
        requires
            i < 16,
        ensures
            final(self)@ == (CpuState { xs: old(self)@.xs.update(i as int, v), ..old(self)@ }),
    {
        self.xs[i] = v;
    }

    /// The bit pattern of floating-point register `i`.
    pub fn f_bits(&self, i: usize) -> (r: u32)
        requires
            i < 16,
        ensures
            r == self@.fs[i as int],
    {
        self.fs[i]
    }

    /// Write the bit pattern of floating-point register `i`.
    pub fn set_f_bits(&mut self, i: usize, v: u32)
        requires
            i < 16,
        ensures
            final(self)@ == (CpuState { fs: old(self)@.fs.update(i as int, v), ..old(self)@ }),
    {
        self.fs[i] = v;
    }

    /// The whole flags word.
    pub fn flags_word(&self) -> (r: u32)
        ensures
            r == self@.flags,
    {
        self.flags
    }

    /// Overwrite the whole flags word; a host-level poke that bypasses the
    /// privilege checks instructions are subject to.
    pub fn set_flags_word(&mut self, v: u32)
        ensures
            final(self)@ == (CpuState { flags: v, ..old(self)@ }),
    {
        self.flags = v;
    }

    /// The translation-table base register.
    pub fn memmap_reg(&self) -> (r: u32)
        ensures
            r == self@.memmap,
    {
        self.memmap
    }

    /// Write the translation-table base register; a host-level poke.
    pub fn set_memmap_reg(&mut self, v: u32)
        ensures
            final(self)@ == (CpuState { memmap: v, ..old(self)@ }),
    {
        self.memmap = v;
    }

    /// The 8-bit interrupt mask.
    pub fn interrupt_mask_reg(&self) -> (r: u8)
        ensures
            r == self@.interrupt_mask,
    {
        self.interrupt_mask
    }

    /// Write the interrupt mask; a host-level poke.
    pub fn set_interrupt_mask(&mut self, m: u8)
        ensures
            final(self)@ == (CpuState { interrupt_mask: m, ..old(self)@ }),
    {
        self.interrupt_mask = m;
    }

    /// The saved system-ring stack pointer.
    pub fn system_sp_reg(&self) -> (r: u32)
        ensures
            r == self@.system_sp,
    {
        self.system_sp
    }

    /// Write the saved system-ring stack pointer; a host-level poke.
    pub fn set_system_sp(&mut self, v: u32)
        ensures
            final(self)@ == (CpuState { system_sp: v, ..old(self)@ }),
    {
        self.system_sp = v;
    }

    /// How many interrupts are pending.
    pub fn pending_interrupts(&self) -> (r: usize)
        ensures
            r == self@.queue.len(),
    {
        self.interrupt_queue.len()
    }

    /// Read a byte straight off the bus, bypassing translation; for hosts
    /// loading programs and tests inspecting physical memory.
    pub fn peek_mem(&mut self, addr: u32) -> (r: u8)
        ensures
            final(self)@ == old(self)@,
            r == old(self)@.mem[addr],
    {
        let b = self.addressing.read(addr);
        proof {
            assert(self.st() =~= old(self).st());
        }
        b
    }

    /// Write a byte straight onto the bus, bypassing translation; for hosts
    /// loading programs into physical memory.
    pub fn poke_mem(&mut self, addr: u32, data: u8)
        ensures
            final(self)@ == (CpuState {
                mem: if old(self)@.writable.contains(addr) {
                    old(self)@.mem.insert(addr, data)
                } else {
                    old(self)@.mem
                },
                ..old(self)@
            }),
    {
        self.addressing.write(addr, data);
        proof {
            assert(self.st() =~= (CpuState {
                mem: if old(self).st().writable.contains(addr) {
                    old(self).st().mem.insert(addr, data)
                } else {
                    old(self).st().mem
                },
                ..old(self).st()
            }));
        }
    }
}

} // verus!
