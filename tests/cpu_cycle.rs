use ironboy_core::bus::Bus;
use ironboy_core::cpu::Cpu;
use ironboy_core::registers::Registers;
use ironboy_core::Mode;

fn get_cpu() -> Cpu {
    let bus = Bus::new();
    let mut registers = Registers::new(Mode::Monochrome, true);
    registers.pc = 0xC000;
    Cpu::new(bus, registers)
}

#[test]
fn x02_ld_bc_u16() {
    let mut cpu = get_cpu();
    cpu.bus.mem_write(cpu.registers.pc, 0x01);
    cpu.bus.mem_write_16(cpu.registers.pc + 1, 0x1234);
    cpu.cycle().unwrap();

    assert_eq!(cpu.registers.bc(), 0x1234);
}

#[test]
fn x03_ld_bc_a() {
    let mut cpu = get_cpu();
    cpu.bus.mem_write(cpu.registers.pc, 0x02);
    cpu.registers.set_bc(0xC001);
    cpu.registers.a = 0x03;
    cpu.cycle().unwrap();

    assert_eq!(cpu.bus.mem_read(cpu.registers.bc()), cpu.registers.a);
}

#[test]
fn x06_test_ld_b_u8() {
    let mut cpu = get_cpu();
    cpu.bus.mem_write(cpu.registers.pc, 0x06);
    cpu.bus.mem_write(cpu.registers.pc + 1, 0x12);
    cpu.cycle().unwrap();

    assert_eq!(cpu.registers.b, 0x12);
}

#[test]
fn xe0_ff00_u8_a() {
    let mut cpu = get_cpu();
    cpu.bus.mem_write(cpu.registers.pc, 0xE0);
    cpu.bus.mem_write(cpu.registers.pc + 1, 0x80);
    cpu.registers.a = 0x22;
    cpu.cycle().unwrap();

    assert_eq!(cpu.bus.mem_read(0xFF80), 0x22);
}

#[test]
fn xe2_ff00_c_a() {
    let mut cpu = get_cpu();
    cpu.bus.mem_write(cpu.registers.pc, 0xE2);
    cpu.registers.c = 0x80;
    cpu.registers.a = 0x22;
    cpu.cycle().unwrap();

    assert_eq!(cpu.bus.mem_read(0xFF80), 0x22);
}
