use vstd::prelude::*;

verus! {

// Bit positions of the named flags inside the 32-bit flags word.
pub const F_INTERRUPT_ENABLE: u32 = 3;
pub const F_ZERO: u32 = 4;
pub const F_OVERFLOW: u32 = 5;
pub const F_CARRY: u32 = 6;
pub const F_PARITY: u32 = 7;
pub const F_NEGATIVE: u32 = 8;
pub const F_NAN: u32 = 9;
pub const F_INFINITE: u32 = 10;
pub const F_USER_RING: u32 = 11;
pub const F_MEMMAP_ENABLE: u32 = 12;

// Conventional roles of the integer registers.
pub const R_INT: usize = 12;
pub const R_PC: usize = 13;
pub const R_BASE: usize = 14;
pub const R_SP: usize = 15;

/// The machine as the contracts see it: the sixteen integer registers, the
/// sixteen floating-point registers as raw IEEE 754 bit patterns, the flags
/// word, the control registers, the pending-interrupt queue, and the bus:
/// its byte contents and the set of addresses where a write takes effect.
#[verifier::ext_equal]
pub ghost struct CpuState {
    pub xs: Seq<u32>,
    pub fs: Seq<u32>,
    pub flags: u32,
    pub interrupt_mask: u8,
    pub memmap: u32,
    pub system_sp: u32,
    pub queue: Seq<u32>,
    pub mem: Map<u32, u8>,
    pub writable: Set<u32>,
}

// The flag subsets an operation zeroes en bloc before setting its own bits.
pub const MASK_ARITH: u32 = (1u32 << F_ZERO) | (1u32 << F_OVERFLOW) | (1u32 << F_CARRY) | (1u32
    << F_NEGATIVE) | (1u32 << F_PARITY);

pub const MASK_SHIFT: u32 = (1u32 << F_ZERO) | (1u32 << F_CARRY) | (1u32 << F_NEGATIVE) | (1u32
    << F_PARITY);

pub const MASK_INT: u32 = (1u32 << F_ZERO) | (1u32 << F_NEGATIVE) | (1u32 << F_PARITY);

pub const MASK_FLOAT: u32 = (1u32 << F_ZERO) | (1u32 << F_NEGATIVE) | (1u32 << F_NAN) | (1u32
    << F_INFINITE);

/// Whether flag bit `f` is set in `flags`.
pub open spec fn flag_set(flags: u32, f: u32) -> bool {
    flags & (1u32 << f) != 0
}

/// The flags word with bit `f` ored in when `val` holds; bits are never
/// cleared here, mirroring the one-way flag assignment the accessors use.
pub open spec fn with_flag(flags: u32, f: u32, val: bool) -> u32 {
    flags | ((if val { 1u32 } else { 0u32 }) << f)
}

/// The flags word with every bit of `mask` cleared.
pub open spec fn cleared(flags: u32, mask: u32) -> u32 {
    flags & !mask
}

/// 32-bit wrapping addition.
pub open spec fn wadd(a: u32, b: u32) -> u32 {
    if a + b > u32::MAX {
        (a + b - 0x1_0000_0000) as u32
    } else {
        (a + b) as u32
    }
}

/// 32-bit wrapping subtraction.
pub open spec fn wsub(a: u32, b: u32) -> u32 {
    if a - b < 0 {
        (a - b + 0x1_0000_0000) as u32
    } else {
        (a - b) as u32
    }
}

/// 32-bit wrapping (truncating) multiplication.
pub open spec fn wmul(a: u32, b: u32) -> u32 {
    ((a as nat * b as nat) % 0x1_0000_0000 as nat) as u32
}

/// The little-endian 32-bit word formed by the four bus bytes at `a`.
pub open spec fn mem_u32(mem: Map<u32, u8>, a: u32) -> u32 {
    (mem[a] as u32)
    | ((mem[wadd(a, 1)] as u32) << 8)
    | ((mem[wadd(a, 2)] as u32) << 16)
    | ((mem[wadd(a, 3)] as u32) << 24)
}

/// Masking can only lower a value: `x & m` never exceeds `m`; and a masked
/// high nibble, shifted down, is below 16.
pub proof fn lemma_and_mask_le()
    by (bit_vector)
    ensures
        forall|x: u32, m: u32| #[trigger] (x & m) <= m,
        forall|x: u8, m: u8| #[trigger] (x & m) <= m,
        forall|x: u8| #[trigger] ((x & 0xf0) >> 4) < 16,
{
}

} // verus!
