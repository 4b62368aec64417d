use vstd::prelude::*;

use crate::alu::{spec_iadd, spec_isub};
use crate::ctrl::{
    spec_call, spec_privileged_move, spec_pop_byte, spec_push_u32, spec_ret, spec_ret_base,
    spec_set_carry, spec_set_interrupt_enable, spec_set_memmap_enable, spec_set_user_ring,
};
use crate::decode::spec_irq;
use crate::fault::InvalidMemoryAccess;
use crate::mmu::{spec_check, spec_fetch_u32, spec_read};
use crate::state::{
    cleared, flag_set, wadd, with_flag, CpuState, F_CARRY, F_MEMMAP_ENABLE, F_USER_RING, R_BASE,
    R_PC, R_SP,
};

verus! {

/// Clearing a flag bit and oring it back in yields exactly the requested
/// value, whatever the rest of the word holds.
proof fn lemma_set_get_flag(f: u32, fl: u32, v: bool)
    by (bit_vector)
    requires
        fl < 32,
    ensures
        flag_set(with_flag(cleared(f, 1u32 << fl), fl, v), fl) == v,
{
}

/// Adding `b` with carry `c1`, truncating, then adding the complement of `b`
/// with carry `c2` undoes the addition exactly when the two carries sum to
/// one: `!b + 1` is the two's complement of `b`.
proof fn lemma_add_complement_cancels(a: u32, b: u32, c1: u64, c2: u64)
    by (bit_vector)
    requires
        c1 + c2 == 1,
        c1 <= 1,
    ensures
        ((((a as u64) + (b as u64) + c1) as u32) as u64 + ((!b) as u64) + c2) as u32 == a,
{
}

/// Complementing twice is the identity.
proof fn lemma_double_complement(x: u32)
    by (bit_vector)
    ensures
        !(!x) == x,
{
}

/// Translation depends on nothing but the bus contents, the table base and
/// the flags word: two states agreeing on those translate every address
/// alike. In particular, two successive translations of the same address —
/// translation never mutates the machine — yield the same result unless the
/// table bytes change in between.
pub proof fn lemma_translation_deterministic(s1: CpuState, s2: CpuState, addr: u32, permissions: u8)
    requires
        s1.mem == s2.mem,
        s1.memmap == s2.memmap,
        s1.flags == s2.flags,
    ensures
        spec_check(s1, addr, permissions) == spec_check(s2, addr, permissions),
{
}

/// Every privileged operation, attempted while the user-ring flag is set,
/// faults with `UnprivilegedOpcode` and mutates nothing: not its target
/// flag, register or control register, nor anything else in the machine.
pub proof fn lemma_privileged_refused_in_user_ring(s: CpuState, val: bool, x0: int, p: int)
    requires
        flag_set(s.flags, F_USER_RING),
    ensures
        spec_set_memmap_enable(s, val) == (
            s,
            Err::<(), InvalidMemoryAccess>(InvalidMemoryAccess::UnprivilegedOpcode),
        ),
        spec_set_interrupt_enable(s, val) == (
            s,
            Err::<(), InvalidMemoryAccess>(InvalidMemoryAccess::UnprivilegedOpcode),
        ),
        spec_set_user_ring(s, val) == (
            s,
            Err::<(), InvalidMemoryAccess>(InvalidMemoryAccess::UnprivilegedOpcode),
        ),
        spec_privileged_move(s, x0, p) == (
            s,
            Err::<(), InvalidMemoryAccess>(InvalidMemoryAccess::UnprivilegedOpcode),
        ),
{
}

/// Add then subtract is the identity: after `iadd(x0, x1)`, forcing the
/// carry flag to the complement of what it was before the addition and
/// running `isub(x0, x1)` restores the destination register's original bits
/// exactly, and leaves the operand register's bits untouched throughout.
/// (With the carry clear before the addition this is plain `x0 + x1` undone
/// by the two's-complement subtraction that a pre-set carry selects.)
pub proof fn lemma_iadd_isub_identity(s: CpuState, x0: int, x1: int)
    requires
        s.xs.len() == 16,
        0 <= x0 < 16,
        0 <= x1 < 16,
        x0 != x1,
    ensures
        ({
            let s1 = spec_iadd(s, x0, x1);
            let s2 = spec_set_carry(s1, !flag_set(s.flags, F_CARRY));
            let s3 = spec_isub(s2, x0, x1);
            s3.xs[x0] == s.xs[x0] && s3.xs[x1] == s.xs[x1]
        }),
{
    let a = s.xs[x0];
    let b = s.xs[x1];
    let c1: u64 = if flag_set(s.flags, F_CARRY) {
        1u64
    } else {
        0u64
    };
    let c2: u64 = if !flag_set(s.flags, F_CARRY) {
        1u64
    } else {
        0u64
    };
    let s1 = spec_iadd(s, x0, x1);
    let s2 = spec_set_carry(s1, !flag_set(s.flags, F_CARRY));
    lemma_set_get_flag(s1.flags, F_CARRY, !flag_set(s.flags, F_CARRY));
    assert(flag_set(s2.flags, F_CARRY) == !flag_set(s.flags, F_CARRY));
    lemma_add_complement_cancels(a, b, c1, c2);
    lemma_double_complement(b);
    let s3 = spec_isub(s2, x0, x1);
    assert(s3.xs[x0] == a);
    assert(s3.xs[x1] == b);
}

/// An IRQ whose id has no set bit in the interrupt mask — a masked id, or an
/// id past the 8-bit mask — leaves the machine, its queue included, exactly
/// as it was.
pub proof fn lemma_masked_irq_dropped(s: CpuState, id: u8)
    requires
        id >= 8 || (s.interrupt_mask >> id) & 1 == 0,
    ensures
        spec_irq(s, id) == s,
{
}

/// A 32-bit word survives being cut into its four little-endian bytes and
/// reassembled, both in the accumulate-from-zero shape `ret` uses for the
/// program counter and in the plain ored shape it uses for the base pointer.
proof fn lemma_u32_bytes_roundtrip(x: u32)
    by (bit_vector)
    ensures
        ((((0u32 | ((x as u8) as u32)) | ((((x >> 8) as u8) as u32) << 8)) | ((((x >> 16) as u8)
            as u32) << 16)) | ((((x >> 24) as u8) as u32) << 24)) == x,
        (((x as u8) as u32) | ((((x >> 8) as u8) as u32) << 8) | ((((x >> 16) as u8) as u32) << 16)
            | ((((x >> 24) as u8) as u32) << 24)) == x,
{
}

/// With translation disabled, fetching a 32-bit immediate always succeeds
/// and only moves the program counter four bytes forward.
proof fn lemma_fetch_u32_untranslated(s: CpuState)
    requires
        s.xs.len() == 16,
        !flag_set(s.flags, F_MEMMAP_ENABLE),
    ensures
        ({
            let (s1, r) = spec_fetch_u32(s);
            r is Ok && s1 =~= (CpuState {
                xs: s.xs.update(R_PC as int, wadd(s.xs[R_PC as int], 4)),
                ..s
            })
        }),
{
    let (s1, r) = spec_fetch_u32(s);
    assert(s1.xs =~= s.xs.update(R_PC as int, wadd(s.xs[R_PC as int], 4)));
}

/// With translation disabled, a stack that does not wrap and whose four
/// bytes the bus backs takes a pushed word exactly: the stack pointer drops
/// by four and the four bytes lie below the old stack pointer, high byte at
/// the top.
proof fn lemma_push_u32_ok(s: CpuState, data: u32)
    requires
        s.xs.len() == 16,
        !flag_set(s.flags, F_MEMMAP_ENABLE),
        s.xs[R_SP as int] >= 4,
        forall|i: u32|
            s.xs[R_SP as int] - 4 < i <= s.xs[R_SP as int] ==> s.writable.contains(i),
    ensures
        ({
            let (s1, r) = spec_push_u32(s, data);
            let sp = s.xs[R_SP as int];
            r is Ok && s1 =~= (CpuState {
                xs: s.xs.update(R_SP as int, (sp - 4) as u32),
                mem: s.mem.insert(sp, (data >> 24) as u8).insert(
                    (sp - 1) as u32,
                    (data >> 16) as u8,
                ).insert((sp - 2) as u32, (data >> 8) as u8).insert((sp - 3) as u32, data as u8),
                ..s
            })
        }),
{
    let (s1, r) = spec_push_u32(s, data);
    let sp = s.xs[R_SP as int];
    assert(s1.xs =~= s.xs.update(R_SP as int, (sp - 4) as u32));
}

/// The return half of the round trip, under any translation state: if
/// reading back the eight frame bytes above the base pointer succeeds and
/// yields the two words `call` saves — the return-site program counter low
/// byte first at BP+1..BP+4, the saved base pointer at BP+5..BP+8 — then
/// `ret` succeeds, the program counter takes the return site, the base
/// pointer its saved value, and the stack pointer the frame's top, eight
/// above the old base pointer. `ret` only reads, so memory is untouched.
/// `lemma_call_ret_roundtrip` composes this with `call`'s writes over the
/// identity map, where the frame bytes are known to read back unchanged.
pub proof fn lemma_ret_restores_frame(s: CpuState, pc_saved: u32, bp_saved: u32)
    requires
        s.xs.len() == 16,
        spec_read(s, wadd(s.xs[R_BASE as int], 1)) == Ok::<u8, InvalidMemoryAccess>(
            pc_saved as u8,
        ),
        spec_read(s, wadd(s.xs[R_BASE as int], 2)) == Ok::<u8, InvalidMemoryAccess>(
            (pc_saved >> 8) as u8,
        ),
        spec_read(s, wadd(s.xs[R_BASE as int], 3)) == Ok::<u8, InvalidMemoryAccess>(
            (pc_saved >> 16) as u8,
        ),
        spec_read(s, wadd(s.xs[R_BASE as int], 4)) == Ok::<u8, InvalidMemoryAccess>(
            (pc_saved >> 24) as u8,
        ),
        spec_read(s, wadd(s.xs[R_BASE as int], 5)) == Ok::<u8, InvalidMemoryAccess>(
            bp_saved as u8,
        ),
        spec_read(s, wadd(s.xs[R_BASE as int], 6)) == Ok::<u8, InvalidMemoryAccess>(
            (bp_saved >> 8) as u8,
        ),
        spec_read(s, wadd(s.xs[R_BASE as int], 7)) == Ok::<u8, InvalidMemoryAccess>(
            (bp_saved >> 16) as u8,
        ),
        spec_read(s, wadd(s.xs[R_BASE as int], 8)) == Ok::<u8, InvalidMemoryAccess>(
            (bp_saved >> 24) as u8,
        ),
    ensures
        ({
            let (s1, r) = spec_ret(s);
            r is Ok && s1.xs[R_PC as int] == pc_saved && s1.xs[R_BASE as int] == bp_saved
                && s1.xs[R_SP as int] == wadd(s.xs[R_BASE as int], 8) && s1.mem == s.mem
        }),
{
    let bp = s.xs[R_BASE as int];
    assert(wadd(wadd(bp, 1), 1) == wadd(bp, 2));
    assert(wadd(wadd(bp, 2), 1) == wadd(bp, 3));
    assert(wadd(wadd(bp, 3), 1) == wadd(bp, 4));
    assert(wadd(wadd(bp, 4), 1) == wadd(bp, 5));
    assert(wadd(wadd(bp, 5), 1) == wadd(bp, 6));
    assert(wadd(wadd(bp, 6), 1) == wadd(bp, 7));
    assert(wadd(wadd(bp, 7), 1) == wadd(bp, 8));
    lemma_u32_bytes_roundtrip(pc_saved);
    lemma_u32_bytes_roundtrip(bp_saved);
    let (s1, r) = spec_ret(s);
    assert(r is Ok);
}

/// `call` followed immediately by `ret` is a round trip: however the stack
/// pointer was moved in between, `ret` returns the program counter to just
/// past `call`'s four-byte immediate (`call`'s own opcode byte was consumed
/// before it, so this is the call site plus five) and restores the base and
/// stack pointers to their pre-call values exactly — provided translation is
/// off, the frame's eight bytes sit on bus addresses that take writes, and
/// the stack pointer is at least eight so the frame does not wrap.
#[verifier::rlimit(100)]
pub proof fn lemma_call_ret_roundtrip(s: CpuState, sp_during: u32)
    requires
        s.xs.len() == 16,
        !flag_set(s.flags, F_MEMMAP_ENABLE),
        s.xs[R_SP as int] >= 8,
        forall|i: u32|
            s.xs[R_SP as int] - 8 < i <= s.xs[R_SP as int] ==> s.writable.contains(i),
    ensures
        ({
            let (s1, r1) = spec_call(s);
            let s2 = CpuState { xs: s1.xs.update(R_SP as int, sp_during), ..s1 };
            let (s3, r3) = spec_ret(s2);
            r1 is Ok && r3 is Ok && s3.xs[R_PC as int] == wadd(s.xs[R_PC as int], 4)
                && s3.xs[R_BASE as int] == s.xs[R_BASE as int] && s3.xs[R_SP as int] == s.xs[
                R_SP as int]
        }),
{
    let sp = s.xs[R_SP as int];
    let bp0 = s.xs[R_BASE as int];
    let pc4 = wadd(s.xs[R_PC as int], 4);

    lemma_fetch_u32_untranslated(s);
    let (sa, ra) = spec_fetch_u32(s);
    let target = ra->Ok_0;

    lemma_push_u32_ok(sa, bp0);
    let (sb, rb) = spec_push_u32(sa, bp0);
    assert(sb.xs[R_PC as int] == pc4);
    assert(sb.xs[R_SP as int] == sp - 4);

    lemma_push_u32_ok(sb, pc4);
    let (sc, rc) = spec_push_u32(sb, pc4);
    assert(sc.xs[R_SP as int] == sp - 8);

    let (s1, r1) = spec_call(s);
    assert(r1 is Ok);
    assert(s1 =~= (CpuState {
        xs: sc.xs.update(R_BASE as int, sc.xs[R_SP as int]).update(R_PC as int, target),
        ..sc
    }));
    assert(s1.xs[R_BASE as int] == sp - 8);

    let s2 = CpuState { xs: s1.xs.update(R_SP as int, sp_during), ..s1 };
    assert(s2.xs[R_BASE as int] == sp - 8);

    // The eight frame bytes as the pushes left them, low addresses last.
    let m = s2.mem;
    assert(m[(sp - 7) as u32] == pc4 as u8);
    assert(m[(sp - 6) as u32] == (pc4 >> 8) as u8);
    assert(m[(sp - 5) as u32] == (pc4 >> 16) as u8);
    assert(m[(sp - 4) as u32] == (pc4 >> 24) as u8);
    assert(m[(sp - 3) as u32] == bp0 as u8);
    assert(m[(sp - 2) as u32] == (bp0 >> 8) as u8);
    assert(m[(sp - 1) as u32] == (bp0 >> 16) as u8);
    assert(m[sp] == (bp0 >> 24) as u8);

    let (s3, r3) = spec_ret(s2);
    lemma_u32_bytes_roundtrip(pc4);
    lemma_u32_bytes_roundtrip(bp0);
    assert(r3 is Ok);
    assert(s3.xs[R_PC as int] == pc4);
    assert(s3.xs[R_BASE as int] == bp0);
    assert(s3.xs[R_SP as int] == sp);
}

} // verus!
