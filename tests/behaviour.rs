use ironboy_core::bus::{Bus, IE_ADDRESS, IF_ADDRESS};
use ironboy_core::cpu::{Cpu, CpuError};
use ironboy_core::interrupts::Interrupt;
use ironboy_core::instructions::{Condition, R16Memory, R16Stack, R16, R8};
use ironboy_core::instructions::{
    get_instruction_by_opcode, get_prefixed_instruction_by_opcode, instruction_name, AddressingMode,
    ConditionType, InstructionType, RegisterType,
};
use ironboy_core::registers::Registers;
use ironboy_core::scheduler::{EventType, PpuEvent, Scheduler, TimerEvent};
use ironboy_core::Mode;

const WRAM_START: u16 = 0xC000;

fn cpu_with_program(program: &[u8]) -> Cpu {
    let mut bus = Bus::new();
    for (i, byte) in program.iter().enumerate() {
        bus.mem_write(WRAM_START + i as u16, *byte);
    }
    let mut registers = Registers::new(Mode::Monochrome, true);
    registers.pc = WRAM_START;
    Cpu::new(bus, registers)
}

#[test]
fn inc_then_dec_restores_every_byte() {
    for x in 0..=255u8 {
        for carry in [false, true] {
            let mut cpu = cpu_with_program(&[0x04, 0x05]);
            cpu.registers.b = x;
            cpu.registers.f = if carry { 0x10 } else { 0x00 };
            assert_eq!(cpu.cycle().unwrap(), 4);
            assert_eq!(cpu.registers.b, x.wrapping_add(1));
            assert_eq!(cpu.registers.zero(), x == 0xFF);
            assert_eq!(cpu.registers.half_carry(), x & 0x0F == 0x0F);
            assert_eq!(cpu.registers.carry(), carry);
            assert_eq!(cpu.cycle().unwrap(), 4);
            assert_eq!(cpu.registers.b, x);
            assert_eq!(cpu.registers.zero(), x == 0);
            assert_eq!(cpu.registers.half_carry(), x.wrapping_add(1) & 0x0F == 0);
            assert!(cpu.registers.subtraction());
            assert_eq!(cpu.registers.carry(), carry);
        }
    }
}

#[test]
fn inc_memory_operand_costs_twelve() {
    let mut cpu = cpu_with_program(&[0x34]);
    cpu.registers.set_hl(0xD000);
    cpu.bus.mem_write(0xD000, 0x41);
    assert_eq!(cpu.cycle().unwrap(), 12);
    assert_eq!(cpu.bus.mem_read(0xD000), 0x42);
}

#[test]
fn add_a_a_overflows_to_zero() {
    let mut cpu = cpu_with_program(&[0x87]);
    cpu.registers.a = 0x80;
    assert_eq!(cpu.cycle().unwrap(), 4);
    assert_eq!(cpu.registers.a, 0x00);
    assert!(cpu.registers.zero());
    assert!(cpu.registers.carry());
    assert!(!cpu.registers.half_carry());
    assert!(!cpu.registers.subtraction());
}

#[test]
fn add_hl_bc_half_carry_from_bit_eleven() {
    let mut cpu = cpu_with_program(&[0x09, 0x09]);
    cpu.registers.f = 0;
    cpu.registers.set_hl(0x00FF);
    cpu.registers.set_bc(0x7C00);
    assert_eq!(cpu.cycle().unwrap(), 8);
    assert_eq!(cpu.registers.hl(), 0x7CFF);
    assert!(!cpu.registers.half_carry());
    assert!(!cpu.registers.carry());
    cpu.registers.set_hl(0x07FF);
    assert_eq!(cpu.cycle().unwrap(), 8);
    assert_eq!(cpu.registers.hl(), 0x83FF);
    assert!(cpu.registers.half_carry());
    assert!(!cpu.registers.carry());
}

#[test]
fn conditional_relative_jump_costs() {
    // JR NZ,+5 with Zero set: not taken.
    let mut cpu = cpu_with_program(&[0x20, 0x05]);
    cpu.registers.f = 0x80;
    assert_eq!(cpu.cycle().unwrap(), 8);
    assert_eq!(cpu.registers.pc, WRAM_START + 2);
    // JR NZ,-2 with Zero clear: taken, back to the start.
    let mut cpu = cpu_with_program(&[0x20, 0xFE]);
    cpu.registers.f = 0x00;
    assert_eq!(cpu.cycle().unwrap(), 12);
    assert_eq!(cpu.registers.pc, WRAM_START);
}

#[test]
fn call_and_return_costs() {
    let mut cpu = cpu_with_program(&[0xCD, 0x00, 0xD0]);
    cpu.registers.sp = 0xDFF0;
    cpu.bus.mem_write(0xD000, 0xC9);
    assert_eq!(cpu.cycle().unwrap(), 24);
    assert_eq!(cpu.registers.pc, 0xD000);
    assert_eq!(cpu.registers.sp, 0xDFEE);
    assert_eq!(cpu.bus.mem_read_16(0xDFEE), WRAM_START + 3);
    assert_eq!(cpu.cycle().unwrap(), 16);
    assert_eq!(cpu.registers.pc, WRAM_START + 3);
    assert_eq!(cpu.registers.sp, 0xDFF0);
}

#[test]
fn conditional_call_costs() {
    // CALL Z with Zero clear: not taken.
    let mut cpu = cpu_with_program(&[0xCC, 0x00, 0xD0]);
    cpu.registers.f = 0x00;
    assert_eq!(cpu.cycle().unwrap(), 12);
    assert_eq!(cpu.registers.pc, WRAM_START + 3);
    let mut cpu = cpu_with_program(&[0xCC, 0x00, 0xD0]);
    cpu.registers.f = 0x80;
    assert_eq!(cpu.cycle().unwrap(), 24);
    assert_eq!(cpu.registers.pc, 0xD000);
}

#[test]
fn vblank_interrupt_dispatch() {
    let mut cpu = cpu_with_program(&[0x00]);
    cpu.registers.sp = 0xDFF0;
    cpu.interrupt_master_enable = true;
    cpu.bus.mem_write(IE_ADDRESS, 0b00001);
    cpu.bus.mem_write(IF_ADDRESS, 0b00001);
    assert_eq!(cpu.handle_interrupt(), 20);
    assert_eq!(cpu.bus.mem_read(IF_ADDRESS), 0);
    assert!(!cpu.interrupt_master_enable);
    assert_eq!(cpu.registers.pc, 0x0040);
    assert_eq!(cpu.bus.mem_read_16(cpu.registers.sp), WRAM_START);
}

#[test]
fn lowest_pending_interrupt_goes_first() {
    let mut cpu = cpu_with_program(&[0x00]);
    cpu.registers.sp = 0xDFF0;
    cpu.interrupt_master_enable = true;
    cpu.bus.mem_write(IE_ADDRESS, 0b11100);
    cpu.bus.mem_write(IF_ADDRESS, 0b10110);
    assert_eq!(cpu.handle_interrupt(), 20);
    assert_eq!(cpu.registers.pc, 0x0050);
    assert_eq!(cpu.bus.mem_read(IF_ADDRESS), 0b10010);
}

#[test]
fn halt_wakes_without_dispatch_when_disabled() {
    let mut cpu = cpu_with_program(&[0x76, 0x00]);
    assert_eq!(cpu.cycle().unwrap(), 4);
    assert!(cpu.halted);
    assert_eq!(cpu.cycle().unwrap(), 4);
    assert!(cpu.halted);
    cpu.bus.mem_write(IE_ADDRESS, 0b00100);
    cpu.bus.mem_write(IF_ADDRESS, 0b00100);
    assert_eq!(cpu.cycle().unwrap(), 4);
    assert!(!cpu.halted);
    assert_eq!(cpu.bus.mem_read(IF_ADDRESS), 0b00100);
    assert_eq!(cpu.registers.pc, WRAM_START + 1);
}

#[test]
fn enable_interrupts_waits_one_instruction() {
    let mut cpu = cpu_with_program(&[0xFB, 0x00, 0x00]);
    cpu.registers.sp = 0xDFF0;
    cpu.bus.mem_write(IE_ADDRESS, 0b00001);
    cpu.bus.mem_write(IF_ADDRESS, 0b00001);
    assert_eq!(cpu.cycle().unwrap(), 4);
    assert!(!cpu.interrupt_master_enable);
    assert_eq!(cpu.registers.pc, WRAM_START + 1);
    // The instruction after EI completes, then the interrupt is served.
    assert_eq!(cpu.cycle().unwrap(), 24);
    assert_eq!(cpu.registers.pc, 0x0040);
    assert_eq!(cpu.bus.mem_read_16(cpu.registers.sp), WRAM_START + 2);
}

#[test]
fn disable_interrupts_cancels_a_staged_enable() {
    let mut cpu = cpu_with_program(&[0xFB, 0xF3, 0x00]);
    cpu.cycle().unwrap();
    cpu.cycle().unwrap();
    cpu.cycle().unwrap();
    assert!(!cpu.interrupt_master_enable);
}

#[test]
fn illegal_opcode_is_reported() {
    let mut cpu = cpu_with_program(&[0x00, 0xD3]);
    assert_eq!(cpu.cycle().unwrap(), 4);
    assert_eq!(
        cpu.cycle(),
        Err(CpuError::IllegalOpcode { address: WRAM_START + 1, opcode: 0xD3 })
    );
}

#[test]
fn run_adds_up_cycles() {
    let mut cpu = cpu_with_program(&[0x00, 0x01, 0x34, 0x12, 0x04]);
    assert_eq!(cpu.run(3).unwrap(), 4 + 12 + 4);
    assert_eq!(cpu.registers.bc(), 0x1334);
}

#[test]
fn decimal_adjust_after_addition_and_subtraction() {
    // 0x15 + 0x27 = 0x3C, adjusted to 0x42.
    let mut cpu = cpu_with_program(&[0xC6, 0x27, 0x27, 0xD6, 0x05, 0x27]);
    cpu.registers.a = 0x15;
    cpu.run(2).unwrap();
    assert_eq!(cpu.registers.a, 0x42);
    assert!(!cpu.registers.carry());
    // 0x42 - 0x05 = 0x3D, adjusted to 0x37.
    cpu.run(2).unwrap();
    assert_eq!(cpu.registers.a, 0x37);
    // 0x99 + 0x01 wraps to 0x00 with Carry.
    let mut cpu = cpu_with_program(&[0xC6, 0x01, 0x27]);
    cpu.registers.a = 0x99;
    cpu.run(2).unwrap();
    assert_eq!(cpu.registers.a, 0x00);
    assert!(cpu.registers.zero());
    assert!(cpu.registers.carry());
}

#[test]
fn subtract_with_borrow_flags() {
    let mut cpu = cpu_with_program(&[0xDE, 0x01]);
    cpu.registers.a = 0x10;
    cpu.registers.f = 0x10;
    assert_eq!(cpu.cycle().unwrap(), 8);
    assert_eq!(cpu.registers.a, 0x0E);
    assert!(cpu.registers.subtraction());
    assert!(cpu.registers.half_carry());
    assert!(!cpu.registers.carry());
}

#[test]
fn logic_operations_set_fixed_flags() {
    let mut cpu = cpu_with_program(&[0xE6, 0x0F, 0xEE, 0xFF, 0xF6, 0x00, 0xFE, 0x0F]);
    cpu.registers.a = 0xF0;
    cpu.cycle().unwrap();
    assert_eq!(cpu.registers.a, 0x00);
    assert_eq!(cpu.registers.f, 0b1010_0000);
    cpu.cycle().unwrap();
    assert_eq!(cpu.registers.a, 0xFF);
    assert_eq!(cpu.registers.f, 0);
    cpu.cycle().unwrap();
    assert_eq!(cpu.registers.f, 0);
    cpu.cycle().unwrap();
    assert_eq!(cpu.registers.a, 0xFF);
    assert_eq!(cpu.registers.f, 0b0100_0000);
}

#[test]
fn prefixed_bit_operations() {
    // BIT 7,H ; SET 0,B ; RES 7,A ; SWAP C ; RL D
    let mut cpu = cpu_with_program(&[0xCB, 0x7C, 0xCB, 0xC0, 0xCB, 0xBF, 0xCB, 0x31, 0xCB, 0x12]);
    cpu.registers.h = 0x7F;
    cpu.registers.f = 0x10;
    assert_eq!(cpu.cycle().unwrap(), 8);
    assert_eq!(cpu.registers.f, 0b1011_0000);
    cpu.registers.b = 0x00;
    assert_eq!(cpu.cycle().unwrap(), 8);
    assert_eq!(cpu.registers.b, 0x01);
    cpu.registers.a = 0xFF;
    assert_eq!(cpu.cycle().unwrap(), 8);
    assert_eq!(cpu.registers.a, 0x7F);
    cpu.registers.c = 0x12;
    assert_eq!(cpu.cycle().unwrap(), 8);
    assert_eq!(cpu.registers.c, 0x21);
    cpu.registers.d = 0x80;
    cpu.registers.f = 0x00;
    assert_eq!(cpu.cycle().unwrap(), 8);
    assert_eq!(cpu.registers.d, 0x00);
    assert_eq!(cpu.registers.f, 0b1001_0000);
}

#[test]
fn prefixed_memory_operand_costs() {
    let mut cpu = cpu_with_program(&[0xCB, 0x46, 0xCB, 0xC6]);
    cpu.registers.set_hl(0xD000);
    assert_eq!(cpu.cycle().unwrap(), 12);
    assert_eq!(cpu.cycle().unwrap(), 16);
    assert_eq!(cpu.bus.mem_read(0xD000), 0x01);
}

#[test]
fn rotate_accumulator_through_carry() {
    let mut cpu = cpu_with_program(&[0x17, 0x1F]);
    cpu.registers.a = 0x80;
    cpu.registers.f = 0x00;
    cpu.cycle().unwrap();
    assert_eq!(cpu.registers.a, 0x00);
    assert_eq!(cpu.registers.f, 0x10);
    cpu.cycle().unwrap();
    assert_eq!(cpu.registers.a, 0x80);
    assert_eq!(cpu.registers.f, 0x00);
}

#[test]
fn push_pop_af_clears_low_flag_nibble() {
    let mut cpu = cpu_with_program(&[0xC5, 0xF1]);
    cpu.registers.sp = 0xDFF0;
    cpu.registers.set_bc(0x12FF);
    assert_eq!(cpu.cycle().unwrap(), 16);
    assert_eq!(cpu.cycle().unwrap(), 12);
    assert_eq!(cpu.registers.a, 0x12);
    assert_eq!(cpu.registers.f, 0xF0);
    assert_eq!(cpu.registers.sp, 0xDFF0);
}

#[test]
fn stack_pointer_displacement() {
    let mut cpu = cpu_with_program(&[0xE8, 0xFF, 0xF8, 0x02]);
    cpu.registers.sp = 0x00FF;
    assert_eq!(cpu.cycle().unwrap(), 16);
    assert_eq!(cpu.registers.sp, 0x00FE);
    assert_eq!(cpu.registers.f, 0b0011_0000);
    assert_eq!(cpu.cycle().unwrap(), 12);
    assert_eq!(cpu.registers.hl(), 0x0100);
}

#[test]
fn indirect_loads_step_hl() {
    let mut cpu = cpu_with_program(&[0x22, 0x3A]);
    cpu.registers.a = 0x5A;
    cpu.registers.set_hl(0xD000);
    assert_eq!(cpu.cycle().unwrap(), 8);
    assert_eq!(cpu.bus.mem_read(0xD000), 0x5A);
    assert_eq!(cpu.registers.hl(), 0xD001);
    cpu.bus.mem_write(0xD001, 0x77);
    assert_eq!(cpu.cycle().unwrap(), 8);
    assert_eq!(cpu.registers.a, 0x77);
    assert_eq!(cpu.registers.hl(), 0xD000);
}

#[test]
fn restart_pushes_and_jumps() {
    let mut cpu = cpu_with_program(&[0xEF]);
    cpu.registers.sp = 0xDFF0;
    assert_eq!(cpu.cycle().unwrap(), 16);
    assert_eq!(cpu.registers.pc, 0x0028);
    assert_eq!(cpu.bus.mem_read_16(0xDFEE), WRAM_START + 1);
}

#[test]
fn decoding_is_repeatable() {
    for op in 0..=255u8 {
        assert_eq!(get_instruction_by_opcode(op), get_instruction_by_opcode(op));
        assert_eq!(get_prefixed_instruction_by_opcode(op), get_prefixed_instruction_by_opcode(op));
    }
    let cpu = cpu_with_program(&[0x3E]);
    assert_eq!(cpu.decode(), cpu.decode());
    assert_eq!(cpu.decode(), get_instruction_by_opcode(0x3E));
}

#[test]
fn descriptor_cycle_costs() {
    assert_eq!(get_instruction_by_opcode(0x01).cycles * 4, 12);
    assert_eq!(get_instruction_by_opcode(0x04).cycles * 4, 4);
    assert_eq!(get_instruction_by_opcode(0x34).cycles * 4, 12);
    assert_eq!(get_instruction_by_opcode(0xCD).cycles * 4, 24);
    assert_eq!(get_instruction_by_opcode(0xC4).cycles * 4, 12);
    assert_eq!(get_instruction_by_opcode(0xC4).cycles_taken * 4, 24);
    assert_eq!(get_instruction_by_opcode(0xC9).cycles * 4, 16);
    assert_eq!(get_instruction_by_opcode(0x20).cycles * 4, 8);
    assert_eq!(get_instruction_by_opcode(0x20).cycles_taken * 4, 12);
    assert_eq!(get_prefixed_instruction_by_opcode(0x46).cycles * 4, 12);
    assert_eq!(get_prefixed_instruction_by_opcode(0x06).cycles * 4, 16);
}

#[test]
fn descriptor_fields() {
    let ld = get_instruction_by_opcode(0x2A);
    assert_eq!(ld.instruction_type, InstructionType::LD);
    assert_eq!(ld.addressing_mode, AddressingMode::RegisterAddressToRegister);
    assert_eq!(ld.register_1, RegisterType::A);
    assert_eq!(ld.register_2, RegisterType::HLI);
    let jr = get_instruction_by_opcode(0x38);
    assert_eq!(jr.condition, ConditionType::C);
    assert_eq!(get_instruction_by_opcode(0xDF).parameter, Some(0x18));
    assert_eq!(get_instruction_by_opcode(0xFC).instruction_type, InstructionType::NONE);
    assert_eq!(get_instruction_by_opcode(0x76).instruction_type, InstructionType::HALT);
    let bit = get_prefixed_instruction_by_opcode(0x7C);
    assert_eq!(bit.instruction_type, InstructionType::BIT);
    assert_eq!(bit.parameter, Some(7));
    assert_eq!(bit.register_1, RegisterType::H);
}

#[test]
fn instruction_names() {
    assert_eq!(instruction_name(&InstructionType::LD), "LD");
    assert_eq!(instruction_name(&get_instruction_by_opcode(0xCB).instruction_type), "CB");
    assert_eq!(instruction_name(&InstructionType::SWAP), "SWAP");
}

#[test]
fn registers_power_on_values() {
    let r = Registers::new(Mode::Color, true);
    assert_eq!(r.af(), 0x1180);
    assert_eq!(r.de(), 0xFF56);
    assert_eq!(r.pc, 0x0100);
    assert_eq!(r.sp, 0xFFFE);
    let r = Registers::new(Mode::Monochrome, false);
    assert_eq!(r.pc, 0x0000);
    assert_eq!(r.f, 0xB0);
}

#[test]
fn register_pairs_and_hl_stepping() {
    let mut r = Registers::new(Mode::Monochrome, true);
    r.set_af(0x12FF);
    assert_eq!(r.a, 0x12);
    assert_eq!(r.f, 0xF0);
    r.set_hl(0xFFFF);
    assert_eq!(r.increment_hl(), 0xFFFF);
    assert_eq!(r.hl(), 0x0000);
    assert_eq!(r.decrement_hl(), 0x0000);
    assert_eq!(r.hl(), 0xFFFF);
    r.set_de(0xBEEF);
    assert_eq!((r.d, r.e), (0xBE, 0xEF));
}

#[test]
fn scheduler_round_trip() {
    let mut scheduler = Scheduler::new();
    scheduler.advance(100);
    let kind = EventType::Timer(TimerEvent::DivOverflow);
    scheduler.schedule(kind, 256);
    scheduler.advance(255);
    assert_eq!(scheduler.pop_due(), None);
    scheduler.advance(1);
    let event = scheduler.pop_due().unwrap();
    assert_eq!(event.event_type(), kind);
    assert_eq!(event.time(), 356);
    assert_eq!(scheduler.pop_due(), None);
    assert_eq!(scheduler.len(), 0);
}

#[test]
fn scheduler_orders_by_time_then_insertion() {
    let mut scheduler = Scheduler::new();
    let a = EventType::Ppu(PpuEvent::HBlank);
    let b = EventType::Ppu(PpuEvent::VBlank);
    let c = EventType::FrameComplete;
    scheduler.schedule_at(a, 50);
    scheduler.schedule_at(b, 10);
    scheduler.schedule_at(c, 50);
    scheduler.schedule_at(b, 10);
    assert_eq!(scheduler.timestamp_of_next_event(), Some(10));
    scheduler.advance(60);
    let order: Vec<(EventType, usize)> = (0..4)
        .map(|_| {
            let e = scheduler.pop_due().unwrap();
            (e.event_type(), e.time())
        })
        .collect();
    assert_eq!(order, vec![(b, 10), (b, 10), (a, 50), (c, 50)]);
    assert_eq!(scheduler.pop_due(), None);
    assert_eq!(scheduler.timestamp_of_next_event(), None);
}

#[test]
fn scheduler_cancel_removes_every_event_of_a_kind() {
    let mut scheduler = Scheduler::new();
    let hblank = EventType::Ppu(PpuEvent::HBlank);
    let frame = EventType::FrameComplete;
    scheduler.schedule(hblank, 5);
    scheduler.schedule(frame, 7);
    scheduler.schedule(hblank, 9);
    scheduler.cancel(hblank);
    assert_eq!(scheduler.len(), 1);
    scheduler.advance(10);
    assert_eq!(scheduler.pop_due().unwrap().event_type(), frame);
    assert_eq!(scheduler.pop_due(), None);
}

#[test]
fn interrupt_masks_and_vectors() {
    let sources = [
        (Interrupt::VBlank, 0b00001, 0x40),
        (Interrupt::LCD, 0b00010, 0x48),
        (Interrupt::Timer, 0b00100, 0x50),
        (Interrupt::Serial, 0b01000, 0x58),
        (Interrupt::Joypad, 0b10000, 0x60),
    ];
    for (source, mask, vector) in sources {
        assert_eq!(source.mask(), mask);
        assert_eq!(source.vector(), vector);
    }
}

#[test]
fn flags_are_set_together() {
    let mut r = Registers::new(Mode::Monochrome, false);
    r.set_flags(true, false, true, false);
    assert_eq!(r.f, 0b1010_0000);
    assert!(r.zero() && !r.subtraction() && r.half_carry() && !r.carry());
}

#[test]
fn stack_pointer_displacement_carries_from_bits_eleven_and_fifteen() {
    // 0x000F + 1: no carry out of bit 11 or bit 15.
    let mut cpu = cpu_with_program(&[0xE8, 0x01, 0xF8, 0x01]);
    cpu.registers.sp = 0x000F;
    assert_eq!(cpu.cycle().unwrap(), 16);
    assert_eq!(cpu.registers.sp, 0x0010);
    assert_eq!(cpu.registers.f, 0);
    cpu.registers.sp = 0x0FFF;
    assert_eq!(cpu.cycle().unwrap(), 12);
    assert_eq!(cpu.registers.hl(), 0x1000);
    assert_eq!(cpu.registers.f, 0b0010_0000);
}

#[test]
fn operand_decoders_report_bad_values() {
    assert_eq!(R8::get_register(6), Ok(R8::HLMem));
    assert_eq!(R8::get_register(8), Err(CpuError::InvalidOperand { value: 8 }));
    assert_eq!(R16::get_register(3), Ok(R16::SP));
    assert_eq!(R16::get_register(4), Err(CpuError::InvalidOperand { value: 4 }));
    assert_eq!(R16Stack::get_register(3), Ok(R16Stack::AF));
    assert_eq!(R16Memory::get_register(2), Ok(R16Memory::HLI));
    assert_eq!(R16Memory::get_register(200), Err(CpuError::InvalidOperand { value: 200 }));
    assert_eq!(Condition::get_condtion(1), Ok(Condition::Z));
    assert_eq!(Condition::get_condtion(4), Err(CpuError::InvalidOperand { value: 4 }));
}
