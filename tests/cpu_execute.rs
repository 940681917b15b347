use ironboy_core::bus::Bus;
use ironboy_core::cpu::Cpu;
use ironboy_core::registers::Registers;
use ironboy_core::Mode;

fn get_cpu() -> Cpu {
    let registers = Registers::new(Mode::Monochrome, true);
    let bus = Bus::new();
    Cpu::new(bus, registers)
}

#[test]
fn execute_nop() {
    let mut cpu = get_cpu();
    let opcode: u8 = 0x00;
    let tcylcles = cpu.execute(opcode).unwrap();
    assert_eq!(tcylcles, 4)
}

#[test]
fn execute_ld_bc_with_u16() {
    let mut cpu = get_cpu();
    let opcode: u8 = 0x01;
    cpu.bus.mem_write_16(cpu.registers.pc, 0x4423);

    let tcylcles = cpu.execute(opcode).unwrap();
    assert_eq!(tcylcles, 12);
    assert_eq!(cpu.registers.bc(), 0x4423);
}

#[test]
fn execute_ld_value_at_bc_with_a() {
    let mut cpu = get_cpu();
    let opcode: u8 = 0x02;
    cpu.registers.a = 0x44;

    let tcylcles = cpu.execute(opcode).unwrap();
    assert_eq!(tcylcles, 8);
    assert_eq!(cpu.bus.mem_read(cpu.registers.bc()), 0x44);
}

#[test]
fn execute_inc_bc() {
    let mut cpu = get_cpu();
    let opcode: u8 = 0x03;
    cpu.registers.set_bc(0x4544);

    let tcylcles = cpu.execute(opcode).unwrap();
    assert_eq!(tcylcles, 8);
    assert_eq!(cpu.registers.bc(), 0x4545);
}

#[test]
fn execute_inc_b() {
    let mut cpu = get_cpu();
    let opcode: u8 = 0x04;

    cpu.registers.f = 0;
    cpu.registers.b = 0x45;
    let tcylcles = cpu.execute(opcode).unwrap();
    assert_eq!(tcylcles, 4);
    assert_eq!(cpu.registers.b, 0x46);
    assert_eq!(cpu.registers.f, 0b0000_0000);

    cpu.registers.f = 0;
    cpu.registers.b = 0b0001_1111;
    let tcylcles = cpu.execute(opcode).unwrap();
    assert_eq!(tcylcles, 4);
    assert_eq!(cpu.registers.b, 0x20);
    assert_eq!(cpu.registers.f, 0b0010_0000);

    cpu.registers.f = 0;
    cpu.registers.b = 0xFF;
    let tcylcles = cpu.execute(opcode).unwrap();
    assert_eq!(tcylcles, 4);
    assert_eq!(cpu.registers.b, 0);
    assert_eq!(cpu.registers.f, 0b1010_0000);
}

#[test]
fn execute_dec_b() {
    let mut cpu = get_cpu();
    let opcode: u8 = 0x05;

    cpu.registers.f = 0;
    cpu.registers.b = 0x31;
    let tcylcles = cpu.execute(opcode).unwrap();
    assert_eq!(tcylcles, 4);
    assert_eq!(cpu.registers.b, 0x30);
    assert_eq!(cpu.registers.f, 0b0100_0000);

    cpu.registers.f = 0;
    cpu.registers.b = 0x01;
    let tcylcles = cpu.execute(opcode).unwrap();
    assert_eq!(tcylcles, 4);
    assert_eq!(cpu.registers.b, 0);
    assert_eq!(cpu.registers.f, 0b1100_0000);

    cpu.registers.f = 0;
    cpu.registers.b = 0;
    let tcylcles = cpu.execute(opcode).unwrap();
    assert_eq!(tcylcles, 4);
    assert_eq!(cpu.registers.b, 0xFF);
    assert_eq!(cpu.registers.f, 0b0110_0000);
}

#[test]
fn execute_ld_b_with_u8() {
    let mut cpu = get_cpu();
    let opcode: u8 = 0x06;
    cpu.bus.mem_write_16(cpu.registers.pc, 0x4423);

    let tcylcles = cpu.execute(opcode).unwrap();
    assert_eq!(tcylcles, 8);
    assert_eq!(cpu.registers.b, 0x23);
}

#[test]
fn execute_rlca() {
    let mut cpu = get_cpu();
    let opcode: u8 = 0x07;

    cpu.registers.a = 0x44;
    let tcylcles = cpu.execute(opcode).unwrap();
    assert_eq!(cpu.registers.a, 0x88);
    assert_eq!(cpu.registers.f, 0b0000_0000);
    assert_eq!(tcylcles, 4);

    cpu.registers.a = 0x88;
    let tcylcles = cpu.execute(opcode).unwrap();
    assert_eq!(cpu.registers.a, 0x11);
    assert_eq!(cpu.registers.f, 0b0001_0000);
    assert_eq!(tcylcles, 4);
}

#[test]
fn execute_ld_u16_with_sp() {
    let mut cpu = get_cpu();
    let opcode: u8 = 0x08;
    cpu.bus.mem_write_16(cpu.registers.pc, 0x4423);
    cpu.registers.sp = 0x5555;

    let tcylcles = cpu.execute(opcode).unwrap();
    assert_eq!(tcylcles, 20);
    assert_eq!(cpu.bus.mem_read_16(0x4423), 0x5555);
}

#[test]
fn execute_add_hl_with_bc() {
    let mut cpu = get_cpu();
    let opcode: u8 = 0x09;

    cpu.registers.set_hl(0x00FF);
    cpu.registers.set_bc(0x7C00);
    cpu.registers.f = 0;
    let tcylcles = cpu.execute(opcode).unwrap();
    assert_eq!(tcylcles, 8);
    assert_eq!(cpu.registers.hl(), 0x7CFF);
    assert_eq!(cpu.registers.f, 0b0000_0000);

    cpu.registers.set_hl(0x07FF);
    cpu.registers.set_bc(0x7C00);
    cpu.registers.f = 0;
    let tcylcles = cpu.execute(opcode).unwrap();
    assert_eq!(tcylcles, 8);
    assert_eq!(cpu.registers.hl(), 0x83FF);
    assert_eq!(cpu.registers.f, 0b0010_0000);

    cpu.registers.set_hl(0x00FF);
    cpu.registers.set_bc(0xFF01);
    cpu.registers.f = 0;
    let tcylcles = cpu.execute(opcode).unwrap();
    assert_eq!(tcylcles, 8);
    assert_eq!(cpu.registers.hl(), 0x0000);
    assert_eq!(cpu.registers.f, 0b0011_0000);
}

#[test]
fn execute_ld_a_with_value_at_bc() {
    let mut cpu = get_cpu();
    let opcode: u8 = 0x0A;
    cpu.bus.mem_write(cpu.registers.bc(), 0x44);

    let tcylcles = cpu.execute(opcode).unwrap();
    assert_eq!(tcylcles, 8);
    assert_eq!(cpu.registers.a, 0x44);
}

#[test]
fn execute_dec_bc() {
    let mut cpu = get_cpu();
    let opcode: u8 = 0x0B;
    cpu.registers.set_bc(0x4544);

    let tcylcles = cpu.execute(opcode).unwrap();
    assert_eq!(tcylcles, 8);
    assert_eq!(cpu.registers.bc(), 0x4543);
}

#[test]
fn execute_inc_c() {
    let mut cpu = get_cpu();
    let opcode: u8 = 0x0C;

    cpu.registers.f = 0;
    cpu.registers.c = 0x45;
    let tcylcles = cpu.execute(opcode).unwrap();
    assert_eq!(tcylcles, 4);
    assert_eq!(cpu.registers.c, 0x46);
    assert_eq!(cpu.registers.f, 0b0000_0000);

    cpu.registers.f = 0;
    cpu.registers.c = 0b0001_1111;
    let tcylcles = cpu.execute(opcode).unwrap();
    assert_eq!(tcylcles, 4);
    assert_eq!(cpu.registers.c, 0x20);
    assert_eq!(cpu.registers.f, 0b0010_0000);

    cpu.registers.f = 0;
    cpu.registers.c = 0xFF;
    let tcylcles = cpu.execute(opcode).unwrap();
    assert_eq!(tcylcles, 4);
    assert_eq!(cpu.registers.c, 0);
    assert_eq!(cpu.registers.f, 0b1010_0000);
}

#[test]
fn execute_dec_c() {
    let mut cpu = get_cpu();
    let opcode: u8 = 0x0D;

    cpu.registers.f = 0;
    cpu.registers.c = 0x31;
    let tcylcles = cpu.execute(opcode).unwrap();
    assert_eq!(tcylcles, 4);
    assert_eq!(cpu.registers.c, 0x30);
    assert_eq!(cpu.registers.f, 0b0100_0000);

    cpu.registers.f = 0;
    cpu.registers.c = 0x01;
    let tcylcles = cpu.execute(opcode).unwrap();
    assert_eq!(tcylcles, 4);
    assert_eq!(cpu.registers.c, 0);
    assert_eq!(cpu.registers.f, 0b1100_0000);

    cpu.registers.f = 0;
    cpu.registers.c = 0;
    let tcylcles = cpu.execute(opcode).unwrap();
    assert_eq!(tcylcles, 4);
    assert_eq!(cpu.registers.c, 0xFF);
    assert_eq!(cpu.registers.f, 0b0110_0000);
}

#[test]
fn execute_ld_c_with_u8() {
    let mut cpu = get_cpu();
    let opcode: u8 = 0x0E;
    cpu.bus.mem_write_16(cpu.registers.pc, 0x4423);

    let tcylcles = cpu.execute(opcode).unwrap();
    assert_eq!(tcylcles, 8);
    assert_eq!(cpu.registers.c, 0x23);
}

#[test]
fn execute_rrca() {
    let mut cpu = get_cpu();
    let opcode: u8 = 0x0F;

    cpu.registers.a = 0x44;
    let tcylcles = cpu.execute(opcode).unwrap();
    assert_eq!(cpu.registers.a, 0x22);
    assert_eq!(cpu.registers.f, 0b0000_0000);
    assert_eq!(tcylcles, 4);

    cpu.registers.a = 0x89;
    let tcylcles = cpu.execute(opcode).unwrap();
    assert_eq!(cpu.registers.a, 0xC4);
    assert_eq!(cpu.registers.f, 0b0001_0000);
    assert_eq!(tcylcles, 4);
}

#[test]
fn execute_ld_de_with_u16() {
    let mut cpu = get_cpu();
    let opcode: u8 = 0x11;
    cpu.bus.mem_write_16(cpu.registers.pc, 0x4423);

    let tcylcles = cpu.execute(opcode).unwrap();
    assert_eq!(tcylcles, 12);
    assert_eq!(cpu.registers.de(), 0x4423);
}

#[test]
fn execute_ld_hl_with_u16() {
    let mut cpu = get_cpu();
    let opcode: u8 = 0x21;
    cpu.bus.mem_write_16(cpu.registers.pc, 0x4423);

    let tcylcles = cpu.execute(opcode).unwrap();
    assert_eq!(tcylcles, 12);
    assert_eq!(cpu.registers.hl(), 0x4423);
}

#[test]
fn execute_ld_sp_with_u16() {
    let mut cpu = get_cpu();
    let opcode: u8 = 0x31;
    cpu.bus.mem_write_16(cpu.registers.pc, 0x4423);

    let tcylcles = cpu.execute(opcode).unwrap();
    assert_eq!(tcylcles, 12);
    assert_eq!(cpu.registers.sp, 0x4423);
}

#[test]
fn execute_ld_sp_with_hl() {
    let mut cpu = get_cpu();
    let opcode: u8 = 0xF9;
    cpu.registers.set_hl(0x4423);

    let tcylcles = cpu.execute(opcode).unwrap();
    assert_eq!(tcylcles, 8);
    assert_eq!(cpu.registers.sp, 0x4423);
}
