use vstd::prelude::*;

use crate::bus::Address;
use crate::state::{
    cleared, with_flag, CpuState, F_INFINITE, F_NAN, F_NEGATIVE, F_ZERO, MASK_FLOAT,
};
use crate::Cpu;
use rustc_apfloat::ieee::Single;
use rustc_apfloat::Float;
use rustc_apfloat::Round;

verus! {

broadcast use crate::cpu_view_is_st;

// The floating-point registers hold raw IEEE 754 binary32 bit patterns, so
// the result flags are plain bit tests: sign is bit 31, and an all-ones
// exponent field marks an infinity (zero significand) or a NaN (non-zero).
/// Whether `b` encodes a (positive or negative) zero.
pub open spec fn f32_zero(b: u32) -> bool {
    b & 0x7fffffff == 0
}

/// Whether `b` has its sign bit set.
pub open spec fn f32_negative(b: u32) -> bool {
    b & 0x80000000 != 0
}

/// Whether `b` encodes a NaN.
pub open spec fn f32_nan(b: u32) -> bool {
    ((b >> 23) & 0xff) == 0xff && (b & 0x007fffff) != 0
}

/// Whether `b` encodes an infinity.
pub open spec fn f32_infinite(b: u32) -> bool {
    ((b >> 23) & 0xff) == 0xff && (b & 0x007fffff) == 0
}

/// The flags word after a floating-point result `b`: zero, negative, NaN and
/// infinite are rederived from the bit pattern, the rest keep their bits.
pub open spec fn spec_update_flags_float(flags: u32, b: u32) -> u32 {
    let f = cleared(flags, MASK_FLOAT);
    let f = with_flag(f, F_ZERO, f32_zero(b));
    let f = with_flag(f, F_NEGATIVE, f32_negative(b));
    let f = with_flag(f, F_NAN, f32_nan(b));
    with_flag(f, F_INFINITE, f32_infinite(b))
}

// The bit patterns the IEEE 754 binary32 operations return, under
// round-to-nearest-ties-to-even: functions of the operand bits alone.
pub uninterp spec fn f32_add_bits(a: u32, b: u32) -> u32;

pub uninterp spec fn f32_sub_bits(a: u32, b: u32) -> u32;

pub uninterp spec fn f32_mul_bits(a: u32, b: u32) -> u32;

pub uninterp spec fn f32_div_bits(a: u32, b: u32) -> u32;

/// The two's-complement bits of the 32-bit signed integer a binary32 value
/// converts to, rounding toward zero, saturating, with NaN mapped to zero.
pub uninterp spec fn f32_to_int_bits(a: u32) -> u32;

/// The binary32 bit pattern nearest (ties to even) the 32-bit signed integer
/// whose two's-complement bits are `a`.
pub uninterp spec fn int_to_f32_bits(a: u32) -> u32;

/// Relies on rustc_apfloat: `Single::add_r` is IEEE 754 binary32 addition,
/// a function of the operand bit patterns alone.
#[verifier::external_body]
fn apf_add(a: u32, b: u32) -> (r: u32)
    ensures
        r == f32_add_bits(a, b),
{
    let x = Single::from_bits(a as u128);
    let y = Single::from_bits(b as u128);
    x.add_r(y, Round::NearestTiesToEven).value.to_bits() as u32
}

/// Relies on rustc_apfloat: `Single::sub_r` is IEEE 754 binary32 subtraction,
/// a function of the operand bit patterns alone.
#[verifier::external_body]
fn apf_sub(a: u32, b: u32) -> (r: u32)
    ensures
        r == f32_sub_bits(a, b),
{
    let x = Single::from_bits(a as u128);
    let y = Single::from_bits(b as u128);
    x.sub_r(y, Round::NearestTiesToEven).value.to_bits() as u32
}

/// Relies on rustc_apfloat: `Single::mul_r` is IEEE 754 binary32
/// multiplication, a function of the operand bit patterns alone.
#[verifier::external_body]
fn apf_mul(a: u32, b: u32) -> (r: u32)
    ensures
        r == f32_mul_bits(a, b),
{
    let x = Single::from_bits(a as u128);
    let y = Single::from_bits(b as u128);
    x.mul_r(y, Round::NearestTiesToEven).value.to_bits() as u32
}

/// Relies on rustc_apfloat: `Single::div_r` is IEEE 754 binary32 division,
/// a function of the operand bit patterns alone.
#[verifier::external_body]
fn apf_div(a: u32, b: u32) -> (r: u32)
    ensures
        r == f32_div_bits(a, b),
{
    let x = Single::from_bits(a as u128);
    let y = Single::from_bits(b as u128);
    x.div_r(y, Round::NearestTiesToEven).value.to_bits() as u32
}

/// Relies on rustc_apfloat: `Single::to_i128` rounds toward zero, saturates
/// at the width's bounds, and maps NaN to zero — a function of the bits alone.
#[verifier::external_body]
fn apf_to_i32(a: u32) -> (r: u32)
    ensures
        r == f32_to_int_bits(a),
{
    let x = Single::from_bits(a as u128);
    x.to_i128(32).value as i32 as u32
}

/// Relies on rustc_apfloat: `Single::from_i128` converts a signed integer to
/// the nearest binary32 value — a function of the bits alone.
#[verifier::external_body]
fn apf_from_i32(a: u32) -> (r: u32)
    ensures
        r == int_to_f32_bits(a),
{
    Single::from_i128((a as i32) as i128).value.to_bits() as u32
}

/// Floating-point add: `f0 += f1`, float flags rederived.
pub open spec fn spec_fadd(s: CpuState, f0: int, f1: int) -> CpuState {
    let res = f32_add_bits(s.fs[f0], s.fs[f1]);
    CpuState { fs: s.fs.update(f0, res), flags: spec_update_flags_float(s.flags, res), ..s }
}

/// Floating-point subtract: `f0 -= f1`, float flags rederived.
pub open spec fn spec_fsub(s: CpuState, f0: int, f1: int) -> CpuState {
    let res = f32_sub_bits(s.fs[f0], s.fs[f1]);
    CpuState { fs: s.fs.update(f0, res), flags: spec_update_flags_float(s.flags, res), ..s }
}

/// Floating-point multiply: `f0 *= f1`, float flags rederived.
pub open spec fn spec_fmul(s: CpuState, f0: int, f1: int) -> CpuState {
    let res = f32_mul_bits(s.fs[f0], s.fs[f1]);
    CpuState { fs: s.fs.update(f0, res), flags: spec_update_flags_float(s.flags, res), ..s }
}

/// Floating-point divide: `f0 /= f1`, float flags rederived.
pub open spec fn spec_fdiv(s: CpuState, f0: int, f1: int) -> CpuState {
    let res = f32_div_bits(s.fs[f0], s.fs[f1]);
    CpuState { fs: s.fs.update(f0, res), flags: spec_update_flags_float(s.flags, res), ..s }
}

/// Floating-point register move; the destination file's flags are rederived.
pub open spec fn spec_move_float(s: CpuState, f0: int, f1: int) -> CpuState {
    let res = s.fs[f1];
    CpuState { fs: s.fs.update(f0, res), flags: spec_update_flags_float(s.flags, res), ..s }
}

/// Value conversion float to int: `x0` receives the signed integer nearest
/// toward zero to the float in `f1`; integer flags rederived.
pub open spec fn spec_move_int_float(s: CpuState, x0: int, f1: int) -> CpuState {
    let res = f32_to_int_bits(s.fs[f1]);
    CpuState {
        xs: s.xs.update(x0, res),
        flags: crate::alu::spec_update_flags_int(s.flags, res),
        ..s
    }
}

/// Value conversion int to float: `f0` receives the float nearest the signed
/// integer in `x1`; float flags rederived.
pub open spec fn spec_move_float_int(s: CpuState, f0: int, x1: int) -> CpuState {
    let res = int_to_f32_bits(s.xs[x1]);
    CpuState { fs: s.fs.update(f0, res), flags: spec_update_flags_float(s.flags, res), ..s }
}

/// Bit reinterpretation float to int; integer flags rederived.
pub open spec fn spec_transmute_int_float(s: CpuState, x0: int, f1: int) -> CpuState {
    let res = s.fs[f1];
    CpuState {
        xs: s.xs.update(x0, res),
        flags: crate::alu::spec_update_flags_int(s.flags, res),
        ..s
    }
}

/// Bit reinterpretation int to float; float flags rederived.
pub open spec fn spec_transmute_float_int(s: CpuState, f0: int, x1: int) -> CpuState {
    let res = s.xs[x1];
    CpuState { fs: s.fs.update(f0, res), flags: spec_update_flags_float(s.flags, res), ..s }
}

impl<T> Cpu<T> where T: Address {
    /// Rederive zero, negative, NaN and infinite from the float result `b`.
    pub(crate) fn update_flags_float(&mut self, b: u32)
        ensures
            final(self)@ == (CpuState {
                flags: spec_update_flags_float(old(self)@.flags, b),
                ..old(self)@
            }),
    {
        self.flags = self.flags & !MASK_FLOAT;
        self.set_flag(F_ZERO, b & 0x7fffffff == 0);
        self.set_flag(F_NEGATIVE, b & 0x80000000 != 0);
        self.set_flag(F_NAN, ((b >> 23) & 0xff) == 0xff && (b & 0x007fffff) != 0);
        self.set_flag(F_INFINITE, ((b >> 23) & 0xff) == 0xff && (b & 0x007fffff) == 0);
    }

    /// Floating-point add: `f0 += f1`.
    pub fn fadd(&mut self, f0: usize, f1: usize)
        requires
            f0 < 16,
            f1 < 16,
        ensures
            final(self)@ == spec_fadd(old(self)@, f0 as int, f1 as int),
    {
        let res = apf_add(self.fs[f0], self.fs[f1]);
        self.fs[f0] = res;
        self.update_flags_float(res);
        proof {
            assert(self.st() =~= spec_fadd(old(self).st(), f0 as int, f1 as int));
        }
    }

    /// Floating-point subtract: `f0 -= f1`.
    pub fn fsub(&mut self, f0: usize, f1: usize)
        requires
            f0 < 16,
            f1 < 16,
        ensures
            final(self)@ == spec_fsub(old(self)@, f0 as int, f1 as int),
    {
        let res = apf_sub(self.fs[f0], self.fs[f1]);
        self.fs[f0] = res;
        self.update_flags_float(res);
        proof {
            assert(self.st() =~= spec_fsub(old(self).st(), f0 as int, f1 as int));
        }
    }

    /// Floating-point multiply: `f0 *= f1`.
    pub fn fmul(&mut self, f0: usize, f1: usize)
        requires
            f0 < 16,
            f1 < 16,
        ensures
            final(self)@ == spec_fmul(old(self)@, f0 as int, f1 as int),
    {
        let res = apf_mul(self.fs[f0], self.fs[f1]);
        self.fs[f0] = res;
        self.update_flags_float(res);
        proof {
            assert(self.st() =~= spec_fmul(old(self).st(), f0 as int, f1 as int));
        }
    }

    /// Floating-point divide: `f0 /= f1`.
    pub fn fdiv(&mut self, f0: usize, f1: usize)
        requires
            f0 < 16,
            f1 < 16,
        ensures
            final(self)@ == spec_fdiv(old(self)@, f0 as int, f1 as int),
    {
        let res = apf_div(self.fs[f0], self.fs[f1]);
        self.fs[f0] = res;
        self.update_flags_float(res);
        proof {
            assert(self.st() =~= spec_fdiv(old(self).st(), f0 as int, f1 as int));
        }
    }

    /// Floating-point register move.
    pub fn move_float(&mut self, f0: usize, f1: usize)
        requires
            f0 < 16,
            f1 < 16,
        ensures
            final(self)@ == spec_move_float(old(self)@, f0 as int, f1 as int),
    {
        let res = self.fs[f1];
        self.fs[f0] = res;
        self.update_flags_float(res);
        proof {
            assert(self.st() =~= spec_move_float(old(self).st(), f0 as int, f1 as int));
        }
    }

    /// Value conversion float to int.
    pub fn move_int_float(&mut self, x0: usize, f1: usize)
        requires
            x0 < 16,
            f1 < 16,
        ensures
            final(self)@ == spec_move_int_float(old(self)@, x0 as int, f1 as int),
    {
        let res = apf_to_i32(self.fs[f1]);
        self.xs[x0] = res;
        self.update_flags_int(res);
        proof {
            assert(self.st() =~= spec_move_int_float(old(self).st(), x0 as int, f1 as int));
        }
    }

    /// Value conversion int to float.
    pub fn move_float_int(&mut self, f0: usize, x1: usize)
        requires
            f0 < 16,
            x1 < 16,
        ensures
            final(self)@ == spec_move_float_int(old(self)@, f0 as int, x1 as int),
    {
        let res = apf_from_i32(self.xs[x1]);
        self.fs[f0] = res;
        self.update_flags_float(res);
        proof {
            assert(self.st() =~= spec_move_float_int(old(self).st(), f0 as int, x1 as int));
        }
    }

    /// Bit reinterpretation float to int.
    pub fn transmute_int_float(&mut self, x0: usize, f1: usize)
        requires
            x0 < 16,
            f1 < 16,
        ensures
            final(self)@ == spec_transmute_int_float(old(self)@, x0 as int, f1 as int),
    {
        let res = self.fs[f1];
        self.xs[x0] = res;
        self.update_flags_int(res);
        proof {
            assert(self.st() =~= spec_transmute_int_float(old(self).st(), x0 as int, f1 as int));
        }
    }

    /// Bit reinterpretation int to float.
    pub fn transmute_float_int(&mut self, f0: usize, x1: usize)
        requires
            f0 < 16,
            x1 < 16,
        ensures
            final(self)@ == spec_transmute_float_int(old(self)@, f0 as int, x1 as int),
    {
        let res = self.xs[x1];
        self.fs[f0] = res;
        self.update_flags_float(res);
        proof {
            assert(self.st() =~= spec_transmute_float_int(old(self).st(), f0 as int, x1 as int));
        }
    }
}

} // verus!
