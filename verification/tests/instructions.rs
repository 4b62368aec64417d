use vcpu::bus::SimpleAddress;
use vcpu::state::{F_CARRY, F_MEMMAP_ENABLE, F_NEGATIVE, F_OVERFLOW, R_BASE, R_PC, R_SP};
use vcpu::Cpu;

fn fresh() -> Cpu<SimpleAddress> {
    Cpu::new(SimpleAddress::default())
}

#[test]
fn cpu_add() {
    let mut cpu = fresh();

    // Simple add
    cpu.set_x(0, 5);
    cpu.set_x(1, 10);
    cpu.iadd(0, 1);
    assert_eq!(cpu.x(0), 15);
    assert!(!cpu.get_flag(F_CARRY));
    assert!(!cpu.get_flag(F_OVERFLOW));
    assert!(!cpu.get_flag(F_NEGATIVE));

    // Overflow
    cpu.set_x(0, (1 << 31) - 1);
    cpu.set_x(1, 1);
    cpu.iadd(0, 1);
    assert_eq!(cpu.x(0), 0x80000000);
    assert!(!cpu.get_flag(F_CARRY));
    assert!(cpu.get_flag(F_OVERFLOW));
    assert!(cpu.get_flag(F_NEGATIVE));

    // Carry
    cpu.set_x(0, 0xffffffff);
    cpu.set_x(1, 0);
    cpu.set_flag(F_CARRY, true);
    cpu.iadd(0, 1);
    assert_eq!(cpu.x(0), 0);
    assert!(cpu.get_flag(F_CARRY));
    assert!(!cpu.get_flag(F_OVERFLOW));
    assert!(!cpu.get_flag(F_NEGATIVE));
}

#[test]
fn cpu_bsl() {
    let mut cpu = fresh();

    // Simple bitshift
    cpu.set_x(0, 3);
    cpu.set_x(1, 2);
    cpu.bsl(0, 1);
    assert_eq!(cpu.x(0), 12);
    assert!(!cpu.get_flag(F_CARRY));

    // Overflow
    cpu.set_x(0, 3);
    cpu.set_x(1, 32);
    cpu.bsl(0, 1);
    assert_eq!(cpu.x(0), 0);
    assert!(!cpu.get_flag(F_CARRY));

    // Carry
    cpu.set_x(0, 0xffffffff);
    cpu.set_x(1, 1);
    cpu.bsl(0, 1);
    assert_eq!(cpu.x(0), 0xfffffffe);
    assert!(cpu.get_flag(F_CARRY));
}

#[test]
fn cpu_load_int() {
    let mut cpu = fresh();

    // Set up memory
    cpu.poke_mem(0xff00, 0xd0);
    cpu.poke_mem(0xff01, 0xc0);
    cpu.poke_mem(0xff02, 0xb0);
    cpu.poke_mem(0xff03, 0xa0);

    // Load literal
    cpu.set_x(R_PC, 0xff00);
    cpu.load_lit_int(0).unwrap();
    assert_eq!(cpu.x(0), 0xa0b0c0d0);

    // Set up memory
    cpu.poke_mem(0x0000, 0x00);
    cpu.poke_mem(0x0001, 0xff);
    cpu.poke_mem(0x0002, 0x00);
    cpu.poke_mem(0x0003, 0x00);

    // Simple addressing
    cpu.set_x(R_PC, 0x00);
    cpu.load_int(1).unwrap();
    assert_eq!(cpu.x(1), 0xa0b0c0d0);

    // Indirect addressing
    cpu.set_x(1, 0xff00);
    cpu.set_x(0, 0x00);
    cpu.load_indirect_int(0, 1).unwrap();
    assert_eq!(cpu.x(0), 0xa0b0c0d0);
}

#[test]
fn cpu_load_float() {
    let mut cpu = fresh();

    // Set up memory
    let data = 0.618f32.to_bits();
    cpu.poke_mem(0xff00, data as u8);
    cpu.poke_mem(0xff01, (data >> 8) as u8);
    cpu.poke_mem(0xff02, (data >> 16) as u8);
    cpu.poke_mem(0xff03, (data >> 24) as u8);

    // Load literal
    cpu.set_x(R_PC, 0xff00);
    cpu.load_lit_float(0).unwrap();
    assert_eq!(cpu.f_bits(0), 0.618f32.to_bits());

    // Set up memory
    cpu.poke_mem(0x0000, 0x00);
    cpu.poke_mem(0x0001, 0xff);
    cpu.poke_mem(0x0002, 0x00);
    cpu.poke_mem(0x0003, 0x00);

    // Simple addressing
    cpu.set_x(R_PC, 0x00);
    cpu.load_float(1).unwrap();
    assert_eq!(cpu.f_bits(1), 0.618f32.to_bits());

    // Indirect addressing
    cpu.set_x(1, 0xff00);
    cpu.set_x(0, 0x00);
    cpu.load_indirect_float(0, 1).unwrap();
    assert_eq!(cpu.f_bits(0), 0.618f32.to_bits());
}

#[test]
fn cpu_store_int() {
    let mut cpu = fresh();

    // Set up memory
    cpu.set_x(0, 0xa0b0c0d0);
    cpu.poke_mem(0x0000, 0x00);
    cpu.poke_mem(0x0001, 0xff);
    cpu.poke_mem(0x0002, 0x00);
    cpu.poke_mem(0x0003, 0x00);
    cpu.set_x(R_PC, 0x0000);

    // Simple addressing
    cpu.store_int(0).unwrap();
    assert_eq!(cpu.peek_mem(0xff00), 0xd0);
    assert_eq!(cpu.peek_mem(0xff01), 0xc0);
    assert_eq!(cpu.peek_mem(0xff02), 0xb0);
    assert_eq!(cpu.peek_mem(0xff03), 0xa0);

    // Indirect addressing
    cpu.set_x(1, 0xfe00);
    cpu.store_indirect_int(0, 1).unwrap();
    assert_eq!(cpu.peek_mem(0xfe00), 0xd0);
    assert_eq!(cpu.peek_mem(0xfe01), 0xc0);
    assert_eq!(cpu.peek_mem(0xfe02), 0xb0);
    assert_eq!(cpu.peek_mem(0xfe03), 0xa0);
}

#[test]
fn cpu_store_short() {
    let mut cpu = fresh();

    // Set up memory
    cpu.set_x(0, 0xa0b0);
    cpu.poke_mem(0x0000, 0x00);
    cpu.poke_mem(0x0001, 0xff);
    cpu.poke_mem(0x0002, 0x00);
    cpu.poke_mem(0x0003, 0x00);
    cpu.set_x(R_PC, 0x0000);

    // Simple addressing
    cpu.store_short(0).unwrap();
    assert_eq!(cpu.peek_mem(0xff00), 0xb0);
    assert_eq!(cpu.peek_mem(0xff01), 0xa0);

    // Indirect addressing
    cpu.set_x(1, 0xfe00);
    cpu.store_indirect_short(0, 1).unwrap();
    assert_eq!(cpu.peek_mem(0xfe00), 0xb0);
    assert_eq!(cpu.peek_mem(0xfe01), 0xa0);
}

#[test]
fn cpu_store_byte() {
    let mut cpu = fresh();

    // Set up memory
    cpu.set_x(0, 0xa0);
    cpu.poke_mem(0x0000, 0x00);
    cpu.poke_mem(0x0001, 0xff);
    cpu.poke_mem(0x0002, 0x00);
    cpu.poke_mem(0x0003, 0x00);
    cpu.set_x(R_PC, 0x0000);

    // Simple addressing
    cpu.store_byte(0).unwrap();
    assert_eq!(cpu.peek_mem(0xff00), 0xa0);

    // Indirect addressing
    cpu.set_x(1, 0xfe00);
    cpu.store_indirect_int(0, 1).unwrap();
    assert_eq!(cpu.peek_mem(0xfe00), 0xa0);
}

#[test]
fn cpu_store_float() {
    let mut cpu = fresh();

    // Set up memory
    cpu.set_f_bits(0, 0.618f32.to_bits());
    cpu.poke_mem(0x0000, 0x00);
    cpu.poke_mem(0x0001, 0xff);
    cpu.poke_mem(0x0002, 0x00);
    cpu.poke_mem(0x0003, 0x00);
    cpu.set_x(R_PC, 0x0000);

    // Simple addressing
    cpu.store_float(0).unwrap();
    // 0x3f1e353f
    assert_eq!(cpu.peek_mem(0xff00), 0x3f);
    assert_eq!(cpu.peek_mem(0xff01), 0x35);
    assert_eq!(cpu.peek_mem(0xff02), 0x1e);
    assert_eq!(cpu.peek_mem(0xff03), 0x3f);

    // Indirect addressing
    cpu.set_x(1, 0xfe00);
    cpu.store_indirect_float(0, 1).unwrap();
    assert_eq!(cpu.peek_mem(0xfe00), 0x3f);
    assert_eq!(cpu.peek_mem(0xfe01), 0x35);
    assert_eq!(cpu.peek_mem(0xfe02), 0x1e);
    assert_eq!(cpu.peek_mem(0xfe03), 0x3f);
}

#[test]
fn cpu_call_ret() {
    let mut cpu = fresh();

    // Set up registers and memory
    cpu.set_x(R_PC, 0x1234);
    cpu.set_x(R_BASE, 0xbfff);
    cpu.set_x(R_SP, 0xbfc8);
    cpu.poke_mem(0x1234, 0x42);
    cpu.poke_mem(0x1235, 0xaf);
    cpu.poke_mem(0x1236, 0x00);
    cpu.poke_mem(0x1237, 0x00);

    // "Call" the function
    cpu.call().unwrap();
    assert_eq!(cpu.x(R_PC), 0xaf42);
    assert_eq!(cpu.x(R_BASE), 0xbfc0);

    // Simulate the stack being used and "return" from the function
    cpu.set_x(R_SP, 0xbf89);
    cpu.ret().unwrap();
    assert_eq!(cpu.x(R_PC), 0x1238);
    assert_eq!(cpu.x(R_BASE), 0xbfff);
    assert_eq!(cpu.x(R_SP), 0xbfc8);
}

#[test]
fn cpu_memmap() {
    let mut cpu = fresh();
    cpu.set_flags_word(cpu.flags_word() | (1 << F_MEMMAP_ENABLE));
    cpu.set_memmap_reg(0x1234);
    cpu.poke_mem(0x1234, 0x0a);
    cpu.poke_mem(0x1235, 0x0b);
    cpu.poke_mem(0x1236, 0x00);
    cpu.poke_mem(0x1237, 0x00);
    cpu.poke_mem(0x0b0a, 0x00);
    cpu.poke_mem(0x0b0b, 0xee);
    cpu.poke_mem(0x0b0c, 0x00);
    cpu.poke_mem(0x0b0d, 0xe0);
    cpu.write(0x000000bc, 0x42).unwrap();
    assert_eq!(cpu.peek_mem(0x0000eebc), 0x42);
    assert_eq!(cpu.read(0xbc).unwrap(), 0x42);
    assert!(cpu.exec().is_err());
}
