use vcpu::bus::SimpleAddress;
use vcpu::fault::InvalidMemoryAccess;
use vcpu::state::{
    F_CARRY, F_INFINITE, F_INTERRUPT_ENABLE, F_MEMMAP_ENABLE, F_NAN, F_NEGATIVE, F_USER_RING,
    F_ZERO, R_BASE, R_INT, R_PC, R_SP,
};
use vcpu::Cpu;

fn fresh() -> Cpu<SimpleAddress> {
    Cpu::new(SimpleAddress::default())
}

#[test]
fn add_then_sub_restores_register() {
    let mut cpu = fresh();
    cpu.set_x(0, 123456);
    cpu.set_x(1, 987);
    cpu.iadd(0, 1);
    assert_eq!(cpu.x(0), 124443);
    // The carry was clear before the add, so set it for the subtraction.
    cpu.set_carry(true);
    cpu.isub(0, 1);
    assert_eq!(cpu.x(0), 123456);
    assert_eq!(cpu.x(1), 987);
}

#[test]
fn translation_is_repeatable() {
    let mut cpu = fresh();
    cpu.set_flags_word(1 << F_MEMMAP_ENABLE);
    cpu.set_memmap_reg(0x1234);
    cpu.poke_mem(0x1234, 0x0a);
    cpu.poke_mem(0x1235, 0x0b);
    cpu.poke_mem(0x0b0a, 0x00);
    cpu.poke_mem(0x0b0b, 0xee);
    cpu.poke_mem(0x0b0d, 0xe0);
    cpu.poke_mem(0xeebc, 0x77);
    let first = cpu.read(0xbc).unwrap();
    let second = cpu.read(0xbc).unwrap();
    assert_eq!(first, 0x77);
    assert_eq!(second, 0x77);
}

#[test]
fn privilege_violation_leaves_flag_untouched() {
    let mut cpu = fresh();
    cpu.set_user_ring(true).unwrap();
    let r = cpu.set_memmap_enable(true);
    assert_eq!(r, Err(InvalidMemoryAccess::UnprivilegedOpcode));
    assert!(!cpu.get_flag(F_MEMMAP_ENABLE));
}

#[test]
fn privileged_operations_fault_in_user_ring() {
    let mut cpu = fresh();
    cpu.set_interrupt_mask(0x0f);
    cpu.set_user_ring(true).unwrap();
    assert_eq!(
        cpu.set_interrupt_enable(true),
        Err(InvalidMemoryAccess::UnprivilegedOpcode)
    );
    assert!(!cpu.get_flag(F_INTERRUPT_ENABLE));
    assert_eq!(
        cpu.set_user_ring(true),
        Err(InvalidMemoryAccess::UnprivilegedOpcode)
    );
    cpu.set_x(0, 0xff);
    assert_eq!(
        cpu.privileged_move(0, 2),
        Err(InvalidMemoryAccess::UnprivilegedOpcode)
    );
    assert_eq!(cpu.interrupt_mask_reg(), 0x0f);
}

#[test]
fn masked_irq_leaves_queue_unchanged() {
    let mut cpu = fresh();
    cpu.set_interrupt_mask(0b1111_1101);
    cpu.irq(1);
    assert_eq!(cpu.pending_interrupts(), 0);
    cpu.irq(0);
    assert_eq!(cpu.pending_interrupts(), 1);
    // Ids past the 8-bit mask have no bit and are dropped.
    cpu.irq(9);
    assert_eq!(cpu.pending_interrupts(), 1);
}

#[test]
fn used_free_page_faults() {
    let mut cpu = fresh();
    cpu.set_flags_word(1 << F_MEMMAP_ENABLE);
    cpu.set_memmap_reg(0x1000);
    // Top-level slot is zero: the page was never mapped.
    assert_eq!(cpu.read(0x5), Err(InvalidMemoryAccess::UsedFreePage));
    // A leaf without its present bit faults the same way.
    cpu.poke_mem(0x1000, 0x0a);
    cpu.poke_mem(0x1001, 0x0b);
    cpu.poke_mem(0x0b0a, 0x00);
    cpu.poke_mem(0x0b0b, 0xee);
    cpu.poke_mem(0x0b0d, 0x60); // perms 0x6: read and write, not present
    assert_eq!(cpu.read(0x5), Err(InvalidMemoryAccess::UsedFreePage));
}

#[test]
fn missing_permission_faults_with_nibbles() {
    let mut cpu = fresh();
    cpu.set_flags_word(1 << F_MEMMAP_ENABLE);
    cpu.set_memmap_reg(0x1234);
    cpu.poke_mem(0x1234, 0x0a);
    cpu.poke_mem(0x1235, 0x0b);
    cpu.poke_mem(0x0b0a, 0x00);
    cpu.poke_mem(0x0b0b, 0xee);
    cpu.poke_mem(0x0b0d, 0xe0); // perms 0xe: present, read, write, no execute
    cpu.set_x(R_PC, 0xbc);
    assert_eq!(
        cpu.exec(),
        Err(InvalidMemoryAccess::InvalidPermissions(0xe, 0x1))
    );
}

#[test]
fn step_executes_one_instruction() {
    let mut cpu = fresh();
    // iadd x0, x1
    cpu.poke_mem(0x0000, 0x80);
    cpu.poke_mem(0x0001, 0x01);
    cpu.set_x(0, 2);
    cpu.set_x(1, 3);
    cpu.step();
    assert_eq!(cpu.x(0), 5);
    assert_eq!(cpu.x(R_PC), 2);
}

#[test]
fn step_services_pending_interrupt_first() {
    let mut cpu = fresh();
    cpu.set_flags_word(1 << F_INTERRUPT_ENABLE);
    cpu.irq(3);
    assert_eq!(cpu.pending_interrupts(), 1);
    cpu.step();
    assert_eq!(cpu.x(R_INT), 3);
    assert_eq!(cpu.pending_interrupts(), 0);
}

#[test]
fn interrupt_from_user_ring_switches_stack() {
    let mut cpu = fresh();
    cpu.set_flags_word((1 << F_INTERRUPT_ENABLE) | (1 << F_USER_RING));
    cpu.set_system_sp(0x1000);
    cpu.set_x(R_SP, 0x500);
    cpu.set_x(R_BASE, 0x4f0);
    cpu.irq(2);
    cpu.step();
    assert_eq!(cpu.x(R_INT), 2);
    // The stack pointers swap, so the user stack pointer is preserved.
    assert_eq!(cpu.x(R_SP), 0x1000);
    assert_eq!(cpu.system_sp_reg(), 0x500);
    assert_eq!(cpu.x(R_BASE), 0);
    // Entering the handler is the one thing that clears the user ring:
    // privileged operations work again.
    assert!(!cpu.get_flag(F_USER_RING));
    cpu.set_memmap_enable(false).unwrap();
}

#[test]
fn step_survives_faulting_instruction() {
    let mut cpu = fresh();
    // Translation on with an empty table: the opcode fetch itself faults,
    // the fault becomes an NMI and the machine stands still.
    cpu.set_flags_word(1 << F_MEMMAP_ENABLE);
    cpu.set_memmap_reg(0x1000);
    cpu.set_x(R_PC, 0x40);
    cpu.step();
    assert_eq!(cpu.x(R_PC), 0x40);
}

#[test]
fn nmi_is_reserved_and_inert() {
    let mut cpu = fresh();
    cpu.nmi(5);
    assert_eq!(cpu.pending_interrupts(), 0);
}

#[test]
fn branch_taken_and_not_taken() {
    let mut cpu = fresh();
    // Branch-if-zero to 0x2010.
    cpu.poke_mem(0x0000, 0x00);
    cpu.poke_mem(0x0001, 0x10);
    cpu.poke_mem(0x0002, 0x20);
    cpu.set_flags_word(1 << F_ZERO);
    cpu.step();
    assert_eq!(cpu.x(R_PC), 0x2010);

    let mut cpu = fresh();
    cpu.poke_mem(0x0000, 0x00);
    cpu.poke_mem(0x0001, 0x10);
    cpu.poke_mem(0x0002, 0x20);
    cpu.step();
    assert_eq!(cpu.x(R_PC), 5);
}

#[test]
fn integer_ops_expected_values() {
    let mut cpu = fresh();
    cpu.set_x(0, 6);
    cpu.set_x(1, 7);
    cpu.imul(0, 1);
    assert_eq!(cpu.x(0), 42);
    cpu.set_x(1, 5);
    cpu.imod(0, 1);
    assert_eq!(cpu.x(0), 2);
    cpu.set_x(0, 42);
    cpu.idiv(0, 1);
    assert_eq!(cpu.x(0), 8);
    cpu.set_x(0, 0b1100);
    cpu.set_x(1, 0b1010);
    cpu.and(0, 1);
    assert_eq!(cpu.x(0), 0b1000);
    cpu.set_x(0, 0b1100);
    cpu.or(0, 1);
    assert_eq!(cpu.x(0), 0b1110);
    cpu.set_x(0, 0b1100);
    cpu.xor(0, 1);
    assert_eq!(cpu.x(0), 0b0110);
    cpu.move_int(2, 0);
    assert_eq!(cpu.x(2), 0b0110);
}

#[test]
fn bsr_rederives_carry_on_single_shift() {
    let mut cpu = fresh();
    cpu.set_x(0, 8);
    cpu.set_x(1, 2);
    cpu.bsr(0, 1);
    assert_eq!(cpu.x(0), 2);
    cpu.set_x(0, 1);
    cpu.set_x(1, 1);
    cpu.bsr(0, 1);
    assert_eq!(cpu.x(0), 0);
    assert!(cpu.get_flag(F_CARRY));
}

#[test]
fn float_add_computes() {
    let mut cpu = fresh();
    cpu.set_f_bits(0, 1.5f32.to_bits());
    cpu.set_f_bits(1, 2.25f32.to_bits());
    cpu.fadd(0, 1);
    assert_eq!(cpu.f_bits(0), 3.75f32.to_bits());
}

#[test]
fn float_sub_computes() {
    let mut cpu = fresh();
    cpu.set_f_bits(0, 5.0f32.to_bits());
    cpu.set_f_bits(1, 2.0f32.to_bits());
    cpu.fsub(0, 1);
    assert_eq!(cpu.f_bits(0), 3.0f32.to_bits());
    assert!(!cpu.get_flag(F_NEGATIVE));
    cpu.set_f_bits(0, 2.0f32.to_bits());
    cpu.set_f_bits(1, 5.0f32.to_bits());
    cpu.fsub(0, 1);
    assert_eq!(cpu.f_bits(0), (-3.0f32).to_bits());
    assert!(cpu.get_flag(F_NEGATIVE));
}

#[test]
fn float_mul_computes() {
    let mut cpu = fresh();
    cpu.set_f_bits(0, 3.0f32.to_bits());
    cpu.set_f_bits(1, 2.0f32.to_bits());
    cpu.fmul(0, 1);
    assert_eq!(cpu.f_bits(0), 6.0f32.to_bits());
}

#[test]
fn float_div_computes_and_flags() {
    let mut cpu = fresh();
    cpu.set_f_bits(0, 7.0f32.to_bits());
    cpu.set_f_bits(1, 2.0f32.to_bits());
    cpu.fdiv(0, 1);
    assert_eq!(cpu.f_bits(0), 3.5f32.to_bits());

    // Division by zero gives an infinity; zero over zero a NaN.
    cpu.set_f_bits(2, 1.0f32.to_bits());
    cpu.set_f_bits(3, 0.0f32.to_bits());
    cpu.fdiv(2, 3);
    assert!(cpu.get_flag(F_INFINITE));
    cpu.set_f_bits(4, 0.0f32.to_bits());
    cpu.fdiv(4, 3);
    assert!(cpu.get_flag(F_NAN));
}

#[test]
fn float_zero_flag() {
    let mut cpu = fresh();
    cpu.set_f_bits(0, 0.0f32.to_bits());
    cpu.set_f_bits(1, 0.0f32.to_bits());
    cpu.fadd(0, 1);
    assert!(cpu.get_flag(F_ZERO));
}

#[test]
fn float_int_conversions() {
    let mut cpu = fresh();
    // Toward zero: -2.5 becomes -2.
    cpu.set_f_bits(1, (-2.5f32).to_bits());
    cpu.move_int_float(0, 1);
    assert_eq!(cpu.x(0), (-2i32) as u32);
    // 7 becomes 7.0.
    cpu.set_x(2, 7);
    cpu.move_float_int(3, 2);
    assert_eq!(cpu.f_bits(3), 7.0f32.to_bits());
}

#[test]
fn transmutes_copy_bits() {
    let mut cpu = fresh();
    cpu.set_f_bits(1, 0xdeadbeef);
    cpu.transmute_int_float(0, 1);
    assert_eq!(cpu.x(0), 0xdeadbeef);
    cpu.set_x(2, 0x3f800000);
    cpu.transmute_float_int(3, 2);
    assert_eq!(cpu.f_bits(3), 1.0f32.to_bits());
    cpu.move_float(4, 3);
    assert_eq!(cpu.f_bits(4), 1.0f32.to_bits());
}

#[test]
fn control_register_moves() {
    let mut cpu = fresh();
    cpu.set_x(0, 0x5678);
    cpu.privileged_move(0, 1).unwrap();
    assert_eq!(cpu.memmap_reg(), 0x5678);
    cpu.set_x(1, 0x3c);
    cpu.privileged_move(1, 2).unwrap();
    assert_eq!(cpu.interrupt_mask_reg(), 0x3c);
    cpu.unprivileged_move(1, 4);
    assert_eq!(cpu.x(4), 0x5678);
    cpu.unprivileged_move(2, 5);
    assert_eq!(cpu.x(5), 0x3c);
}

#[test]
fn fault_message() {
    let e = InvalidMemoryAccess::UsedFreePage;
    assert_eq!(e.message(), "Invalid memory access");
}

#[test]
fn step_runs_load_and_store_program() {
    let mut cpu = fresh();
    // load x0, #0x11223344 ; store [0x8000], x0
    cpu.poke_mem(0x0000, 0x40);
    cpu.poke_mem(0x0001, 0x44);
    cpu.poke_mem(0x0002, 0x33);
    cpu.poke_mem(0x0003, 0x22);
    cpu.poke_mem(0x0004, 0x11);
    cpu.poke_mem(0x0005, 0xc0);
    cpu.poke_mem(0x0006, 0x00);
    cpu.poke_mem(0x0007, 0x80);
    cpu.poke_mem(0x0008, 0x00);
    cpu.poke_mem(0x0009, 0x00);
    cpu.step();
    assert_eq!(cpu.x(0), 0x11223344);
    cpu.step();
    assert_eq!(cpu.x(R_PC), 10);
    assert_eq!(cpu.peek_mem(0x8000), 0x44);
    assert_eq!(cpu.peek_mem(0x8001), 0x33);
    assert_eq!(cpu.peek_mem(0x8002), 0x22);
    assert_eq!(cpu.peek_mem(0x8003), 0x11);
}

#[test]
fn step_call_and_ret_opcodes() {
    let mut cpu = fresh();
    // call 0x0100 ; at 0x0100: ret
    cpu.poke_mem(0x0000, 0x18);
    cpu.poke_mem(0x0001, 0x00);
    cpu.poke_mem(0x0002, 0x01);
    cpu.poke_mem(0x0100, 0x19);
    cpu.set_x(R_BASE, 0xbfff);
    cpu.set_x(R_SP, 0xbfc8);
    cpu.step();
    assert_eq!(cpu.x(R_PC), 0x0100);
    assert_eq!(cpu.x(R_BASE), 0xbfc0);
    cpu.step();
    assert_eq!(cpu.x(R_PC), 5);
    assert_eq!(cpu.x(R_BASE), 0xbfff);
    assert_eq!(cpu.x(R_SP), 0xbfc8);
}

#[test]
fn step_privileged_opcode_faults_in_user_ring() {
    let mut cpu = fresh();
    // Enter the user ring, then execute "set MEMMAP_ENABLE".
    cpu.set_flags_word(1 << F_USER_RING);
    cpu.poke_mem(0x0000, 0x13);
    cpu.step();
    assert!(!cpu.get_flag(F_MEMMAP_ENABLE));
    assert_eq!(cpu.x(R_PC), 1);
}

#[test]
fn division_by_zero_opcode_is_declined() {
    let mut cpu = fresh();
    // idiv x0, x1 with x1 = 0: the instruction does nothing.
    cpu.poke_mem(0x0000, 0x83);
    cpu.poke_mem(0x0001, 0x01);
    cpu.set_x(0, 9);
    cpu.set_x(1, 0);
    cpu.step();
    assert_eq!(cpu.x(0), 9);
    assert_eq!(cpu.x(R_PC), 2);
}
