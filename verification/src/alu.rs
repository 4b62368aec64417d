use vstd::prelude::*;

use crate::bus::Address;
use crate::state::{
    cleared, flag_set, with_flag, wmul, CpuState, F_CARRY, F_NEGATIVE, F_OVERFLOW, F_PARITY,
    F_ZERO, MASK_ARITH, MASK_INT, MASK_SHIFT,
};
use crate::Cpu;

verus! {

broadcast use crate::cpu_view_is_st;

/// The flags word after an integer result `x`: zero, negative and parity are
/// rederived from `x`, the rest keep their bits.
pub open spec fn spec_update_flags_int(flags: u32, x: u32) -> u32 {
    let f = cleared(flags, MASK_INT);
    let f = with_flag(f, F_ZERO, x == 0);
    let f = with_flag(f, F_NEGATIVE, x & 0x80000000 != 0);
    with_flag(f, F_PARITY, x & 1 != 0)
}

/// Add-with-carry: `x0 += x1 + CARRY`, performed in a 64-bit intermediate.
/// Zero, negative, carry, overflow and parity are rederived from the
/// intermediate; carry is its bit 32, overflow the two's-complement test on
/// the operands' sign bits against the result's.
pub open spec fn spec_iadd(s: CpuState, x0: int, x1: int) -> CpuState {
    let a = s.xs[x0];
    let b = s.xs[x1];
    let res = (a + b + (if flag_set(s.flags, F_CARRY) {
        1u64
    } else {
        0u64
    })) as u64;
    let f = cleared(s.flags, MASK_ARITH);
    let f = with_flag(f, F_ZERO, res as u32 == 0);
    let f = with_flag(f, F_NEGATIVE, res & 0x80000000 != 0);
    let f = with_flag(f, F_CARRY, res & 0x100000000 != 0);
    let f = with_flag(
        f,
        F_OVERFLOW,
        (a & 0x80000000) == (b & 0x80000000) && (a & 0x80000000) != ((res as u32) & 0x80000000),
    );
    let f = with_flag(f, F_PARITY, res & 1 != 0);
    CpuState { xs: s.xs.update(x0, res as u32), flags: f, ..s }
}

/// Subtract: add-with-carry of the complemented second operand, the operand
/// restored afterwards. Callers pre-set CARRY to pick two's-complement
/// subtraction (1) or subtract-with-borrow (0).
pub open spec fn spec_isub(s: CpuState, x0: int, x1: int) -> CpuState {
    let s1 = CpuState { xs: s.xs.update(x1, !s.xs[x1]), ..s };
    let s2 = spec_iadd(s1, x0, x1);
    CpuState { xs: s2.xs.update(x1, !s2.xs[x1]), ..s2 }
}

/// Truncating multiply; only zero, negative and parity are rederived.
pub open spec fn spec_imul(s: CpuState, x0: int, x1: int) -> CpuState {
    let res = wmul(s.xs[x0], s.xs[x1]);
    CpuState { xs: s.xs.update(x0, res), flags: spec_update_flags_int(s.flags, res), ..s }
}

/// Truncating divide; only zero, negative and parity are rederived.
pub open spec fn spec_idiv(s: CpuState, x0: int, x1: int) -> CpuState {
    let res = (s.xs[x0] / s.xs[x1]) as u32;
    CpuState { xs: s.xs.update(x0, res), flags: spec_update_flags_int(s.flags, res), ..s }
}

/// Remainder; only zero, negative and parity are rederived.
pub open spec fn spec_imod(s: CpuState, x0: int, x1: int) -> CpuState {
    let res = (s.xs[x0] % s.xs[x1]) as u32;
    CpuState { xs: s.xs.update(x0, res), flags: spec_update_flags_int(s.flags, res), ..s }
}

/// Shift left in a 64-bit intermediate; a shift amount of 32 or more gives
/// zero. The old carry is ored into bit 0 of the intermediate before the
/// result is extracted, and carry is rederived (from bit 32 of the
/// intermediate) only when the shift amount is exactly 1.
pub open spec fn spec_bsl(s: CpuState, x0: int, x1: int) -> CpuState {
    let res = (if s.xs[x1] < 32 {
        (s.xs[x0] as u64) << s.xs[x1]
    } else {
        0u64
    }) | (if flag_set(s.flags, F_CARRY) {
        1u64
    } else {
        0u64
    });
    let f = cleared(s.flags, MASK_SHIFT);
    let f = with_flag(f, F_ZERO, res as u32 == 0);
    let f = with_flag(f, F_NEGATIVE, res & 0x80000000 != 0);
    let f = if s.xs[x1] == 1 {
        with_flag(f, F_CARRY, res & 0x100000000 != 0)
    } else {
        f
    };
    let f = with_flag(f, F_PARITY, res & 1 != 0);
    CpuState { xs: s.xs.update(x0, res as u32), flags: f, ..s }
}

/// Shift right in a 64-bit intermediate; a shift amount of 32 or more gives
/// zero. The old carry is ored into bit 0 of the intermediate, and carry is
/// rederived (from the operand's original bit 0) only when the shift amount
/// is exactly 1.
pub open spec fn spec_bsr(s: CpuState, x0: int, x1: int) -> CpuState {
    let res = (if s.xs[x1] < 32 {
        (s.xs[x0] as u64) >> s.xs[x1]
    } else {
        0u64
    }) | (if flag_set(s.flags, F_CARRY) {
        1u64
    } else {
        0u64
    });
    let f = cleared(s.flags, MASK_SHIFT);
    let f = with_flag(f, F_ZERO, res as u32 == 0);
    let f = with_flag(f, F_NEGATIVE, res & 0x80000000 != 0);
    let f = if s.xs[x1] == 1 {
        with_flag(f, F_CARRY, s.xs[x0] & 1 != 0)
    } else {
        f
    };
    let f = with_flag(f, F_PARITY, res & 1 != 0);
    CpuState { xs: s.xs.update(x0, res as u32), flags: f, ..s }
}

/// Bitwise and; only zero, negative and parity are rederived.
pub open spec fn spec_and(s: CpuState, x0: int, x1: int) -> CpuState {
    let res = s.xs[x0] & s.xs[x1];
    CpuState { xs: s.xs.update(x0, res), flags: spec_update_flags_int(s.flags, res), ..s }
}

/// Bitwise or; only zero, negative and parity are rederived.
pub open spec fn spec_or(s: CpuState, x0: int, x1: int) -> CpuState {
    let res = s.xs[x0] | s.xs[x1];
    CpuState { xs: s.xs.update(x0, res), flags: spec_update_flags_int(s.flags, res), ..s }
}

/// Bitwise xor; only zero, negative and parity are rederived.
pub open spec fn spec_xor(s: CpuState, x0: int, x1: int) -> CpuState {
    let res = s.xs[x0] ^ s.xs[x1];
    CpuState { xs: s.xs.update(x0, res), flags: spec_update_flags_int(s.flags, res), ..s }
}

/// Integer move; the destination's flags are rederived.
pub open spec fn spec_move_int(s: CpuState, x0: int, x1: int) -> CpuState {
    let res = s.xs[x1];
    CpuState { xs: s.xs.update(x0, res), flags: spec_update_flags_int(s.flags, res), ..s }
}

impl<T> Cpu<T> where T: Address {
    /// Rederive zero, negative and parity from the integer result `x`.
    pub(crate) fn update_flags_int(&mut self, x: u32)
        ensures
            final(self)@ == (CpuState {
                flags: spec_update_flags_int(old(self)@.flags, x),
                ..old(self)@
            }),
    {
        self.flags = self.flags & !MASK_INT;
        self.set_flag(F_ZERO, x == 0);
        self.set_flag(F_NEGATIVE, x & 0x80000000 != 0);
        self.set_flag(F_PARITY, x & 1 != 0);
    }

    /// Add-with-carry: `x0 += x1 + CARRY`, flags rederived.
    pub fn iadd(&mut self, x0: usize, x1: usize)
        requires
            x0 < 16,
            x1 < 16,
        ensures
            final(self)@ == spec_iadd(old(self)@, x0 as int, x1 as int),
    {
        let a = self.xs[x0];
        let b = self.xs[x1];
        let res = (a as u64) + (b as u64) + (if self.get_flag(F_CARRY) {
            1u64
        } else {
            0u64
        });
        self.flags = self.flags & !MASK_ARITH;
        self.set_flag(F_ZERO, res as u32 == 0);
        self.set_flag(F_NEGATIVE, res & 0x80000000 != 0);
        self.set_flag(F_CARRY, res & 0x100000000 != 0);
        self.set_flag(
            F_OVERFLOW,
            (a & 0x80000000) == (b & 0x80000000) && (a & 0x80000000) != ((res as u32) & 0x80000000),
        );
        self.set_flag(F_PARITY, res & 1 != 0);
        self.xs[x0] = res as u32;
        proof {
            assert(self.st() =~= spec_iadd(old(self).st(), x0 as int, x1 as int));
        }
    }

    /// Subtract via add-with-carry of the complemented operand.
    pub fn isub(&mut self, x0: usize, x1: usize)
        requires
            x0 < 16,
            x1 < 16,
        ensures
            final(self)@ == spec_isub(old(self)@, x0 as int, x1 as int),
    {
        self.xs[x1] = !self.xs[x1];
        self.iadd(x0, x1);
        self.xs[x1] = !self.xs[x1];
        proof {
            assert(self.st() =~= spec_isub(old(self).st(), x0 as int, x1 as int));
        }
    }

    /// Truncating multiply.
    pub fn imul(&mut self, x0: usize, x1: usize)
        requires
            x0 < 16,
            x1 < 16,
        ensures
            final(self)@ == spec_imul(old(self)@, x0 as int, x1 as int),
    {
        let res = self.xs[x0].wrapping_mul(self.xs[x1]);
        self.xs[x0] = res;
        self.update_flags_int(res);
        proof {
            assert(self.st() =~= spec_imul(old(self).st(), x0 as int, x1 as int));
        }
    }

    /// Truncating divide. The divisor register must not hold zero: the
    /// architecture leaves division by zero undefined and the core never
    /// divides by zero on its own.
    pub fn idiv(&mut self, x0: usize, x1: usize)
        requires
            x0 < 16,
            x1 < 16,
            old(self)@.xs[x1 as int] != 0,
        ensures
            final(self)@ == spec_idiv(old(self)@, x0 as int, x1 as int),
    {
        let res = self.xs[x0] / self.xs[x1];
        self.xs[x0] = res;
        self.update_flags_int(res);
        proof {
            assert(self.st() =~= spec_idiv(old(self).st(), x0 as int, x1 as int));
        }
    }

    /// Remainder. The divisor register must not hold zero.
    pub fn imod(&mut self, x0: usize, x1: usize)
        requires
            x0 < 16,
            x1 < 16,
            old(self)@.xs[x1 as int] != 0,
        ensures
            final(self)@ == spec_imod(old(self)@, x0 as int, x1 as int),
    {
        let res = self.xs[x0] % self.xs[x1];
        self.xs[x0] = res;
        self.update_flags_int(res);
        proof {
            assert(self.st() =~= spec_imod(old(self).st(), x0 as int, x1 as int));
        }
    }

    /// Shift left through the 64-bit intermediate.
    pub fn bsl(&mut self, x0: usize, x1: usize)
        requires
            x0 < 16,
            x1 < 16,
        ensures
            final(self)@ == spec_bsl(old(self)@, x0 as int, x1 as int),
    {
        let res = (if self.xs[x1] < 32 {
            (self.xs[x0] as u64) << self.xs[x1]
        } else {
            0u64
        }) | (if self.get_flag(F_CARRY) {
            1u64
        } else {
            0u64
        });
        self.flags = self.flags & !MASK_SHIFT;
        self.set_flag(F_ZERO, res as u32 == 0);
        self.set_flag(F_NEGATIVE, res & 0x80000000 != 0);
        if self.xs[x1] == 1 {
            self.set_flag(F_CARRY, res & 0x100000000 != 0);
        }
        self.set_flag(F_PARITY, res & 1 != 0);
        self.xs[x0] = res as u32;
        proof {
            assert(self.st() =~= spec_bsl(old(self).st(), x0 as int, x1 as int));
        }
    }

    /// Shift right through the 64-bit intermediate.
    pub fn bsr(&mut self, x0: usize, x1: usize)
        requires
            x0 < 16,
            x1 < 16,
        ensures
            final(self)@ == spec_bsr(old(self)@, x0 as int, x1 as int),
    {
        let res = (if self.xs[x1] < 32 {
            (self.xs[x0] as u64) >> self.xs[x1]
        } else {
            0u64
        }) | (if self.get_flag(F_CARRY) {
            1u64
        } else {
            0u64
        });
        self.flags = self.flags & !MASK_SHIFT;
        self.set_flag(F_ZERO, res as u32 == 0);
        self.set_flag(F_NEGATIVE, res & 0x80000000 != 0);
        if self.xs[x1] == 1 {
            self.set_flag(F_CARRY, self.xs[x0] & 1 != 0);
        }
        self.set_flag(F_PARITY, res & 1 != 0);
        self.xs[x0] = res as u32;
        proof {
            assert(self.st() =~= spec_bsr(old(self).st(), x0 as int, x1 as int));
        }
    }

    /// Bitwise and.
    pub fn and(&mut self, x0: usize, x1: usize)
        requires
            x0 < 16,
            x1 < 16,
        ensures
            final(self)@ == spec_and(old(self)@, x0 as int, x1 as int),
    {
        let res = self.xs[x0] & self.xs[x1];
        self.xs[x0] = res;
        self.update_flags_int(res);
        proof {
            assert(self.st() =~= spec_and(old(self).st(), x0 as int, x1 as int));
        }
    }

    /// Bitwise or.
    pub fn or(&mut self, x0: usize, x1: usize)
        requires
            x0 < 16,
            x1 < 16,
        ensures
            final(self)@ == spec_or(old(self)@, x0 as int, x1 as int),
    {
        let res = self.xs[x0] | self.xs[x1];
        self.xs[x0] = res;
        self.update_flags_int(res);
        proof {
            assert(self.st() =~= spec_or(old(self).st(), x0 as int, x1 as int));
        }
    }

    /// Bitwise xor.
    pub fn xor(&mut self, x0: usize, x1: usize)
        requires
            x0 < 16,
            x1 < 16,
        ensures
            final(self)@ == spec_xor(old(self)@, x0 as int, x1 as int),
    {
        let res = self.xs[x0] ^ self.xs[x1];
        self.xs[x0] = res;
        self.update_flags_int(res);
        proof {
            assert(self.st() =~= spec_xor(old(self).st(), x0 as int, x1 as int));
        }
    }

    /// Integer register move.
    pub fn move_int(&mut self, x0: usize, x1: usize)
        requires
            x0 < 16,
            x1 < 16,
        ensures
            final(self)@ == spec_move_int(old(self)@, x0 as int, x1 as int),
    {
        let res = self.xs[x1];
        self.xs[x0] = res;
        self.update_flags_int(res);
        proof {
            assert(self.st() =~= spec_move_int(old(self).st(), x0 as int, x1 as int));
        }
    }
}

} // verus!
