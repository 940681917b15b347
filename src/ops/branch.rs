use vstd::prelude::*;

use crate::alu::signed;
use crate::cpu::{wrap16, Cpu, CpuState};
use crate::instructions::Condition;

verus! {

/// `JR i8`: PC (already past the displacement) moves by the signed
/// displacement; 12 cycles.
pub open spec fn spec_jr(s: CpuState) -> (CpuState, u8) {
    let next = s.advance_pc(1);
    (next.with_pc(wrap16(next.registers.pc, signed(s.imm8()))), 12)
}

/// `JR cc,i8` (condition in opcode bits 3..4): taken as `JR i8` (12 cycles);
/// not taken, PC just moves past the displacement (8 cycles).
pub open spec fn spec_jr_cond(s: CpuState) -> (CpuState, u8) {
    if s.condition(s.opcode / 8 % 4) {
        spec_jr(s)
    } else {
        (s.advance_pc(1), 8)
    }
}

/// `JP u16`: 16 cycles.
pub open spec fn spec_jp(s: CpuState) -> (CpuState, u8) {
    (s.with_pc(s.imm16()), 16)
}

/// `JP cc,u16`: taken 16 cycles, not taken 12.
pub open spec fn spec_jp_cond(s: CpuState) -> (CpuState, u8) {
    if s.condition(s.opcode / 8 % 4) {
        spec_jp(s)
    } else {
        (s.advance_pc(2), 12)
    }
}

/// `JP HL`: 4 cycles.
pub open spec fn spec_jp_hl(s: CpuState) -> (CpuState, u8) {
    (s.with_pc(s.hl()), 4)
}

/// `RET`: PC from the stack; 16 cycles.
pub open spec fn spec_ret(s: CpuState) -> (CpuState, u8) {
    (s.pop().with_pc(s.top()), 16)
}

/// `RET cc`: taken 20 cycles, not taken 8.
pub open spec fn spec_ret_cond(s: CpuState) -> (CpuState, u8) {
    if s.condition(s.opcode / 8 % 4) {
        (s.pop().with_pc(s.top()), 20)
    } else {
        (s, 8)
    }
}

/// `RETI`: `RET` that also sets the master-enable flag at once; 16 cycles.
pub open spec fn spec_reti(s: CpuState) -> (CpuState, u8) {
    let (t, c) = spec_ret(s);
    (CpuState { ime: true, ..t }, c)
}

/// `CALL u16`: the address of the next instruction is pushed and PC jumps; 24 cycles.
pub open spec fn spec_call(s: CpuState) -> (CpuState, u8) {
    let next = s.advance_pc(2);
    (next.push(next.registers.pc).with_pc(s.imm16()), 24)
}

/// `CALL cc,u16`: taken 24 cycles, not taken 12.
pub open spec fn spec_call_cond(s: CpuState) -> (CpuState, u8) {
    if s.condition(s.opcode / 8 % 4) {
        spec_call(s)
    } else {
        (s.advance_pc(2), 12)
    }
}

/// `RST n`: PC is pushed and set to the vector in opcode bits 3..5 times 8; 16 cycles.
pub open spec fn spec_rst(s: CpuState) -> (CpuState, u8) {
    (s.push(s.registers.pc).with_pc((s.opcode / 8 % 8 * 8) as u16), 16)
}

/// PC plus the signed displacement `d`, wrapping.
fn displaced(pc: u16, d: u8) -> (r: u16)
    ensures
        r == wrap16(pc, signed(d)),
{
    let offset: u16 = if d < 128 { d as u16 } else { d as u16 + 0xFF00 };
    pc.wrapping_add(offset)
}

fn current_condition(cpu: &Cpu) -> (r: bool)
    ensures
        r == cpu@.condition(cpu@.opcode / 8 % 4),
{
    cpu.condition_holds(Condition::from_index(cpu.current_opcode / 8 % 4))
}

pub fn jr_imm8(cpu: &mut Cpu) -> (r: u8)
    requires
        old(cpu).wf(),
    ensures
        final(cpu).wf(),
        (final(cpu)@, r) == spec_jr(old(cpu)@),
{
    let d = cpu.fetch_byte();
    cpu.registers.pc = displaced(cpu.registers.pc, d);
    12
}

pub fn jr_cond_imm8(cpu: &mut Cpu) -> (r: u8)
    requires
        old(cpu).wf(),
    ensures
        final(cpu).wf(),
        (final(cpu)@, r) == spec_jr_cond(old(cpu)@),
{
    if current_condition(cpu) {
        jr_imm8(cpu)
    } else {
        cpu.registers.pc = cpu.registers.pc.wrapping_add(1);
        8
    }
}

pub fn jp_imm16(cpu: &mut Cpu) -> (r: u8)
    requires
        old(cpu).wf(),
    ensures
        final(cpu).wf(),
        (final(cpu)@, r) == spec_jp(old(cpu)@),
{
    cpu.registers.pc = cpu.fetch_word();
    16
}

pub fn jp_cond_imm16(cpu: &mut Cpu) -> (r: u8)
    requires
        old(cpu).wf(),
    ensures
        final(cpu).wf(),
        (final(cpu)@, r) == spec_jp_cond(old(cpu)@),
{
    if current_condition(cpu) {
        jp_imm16(cpu)
    } else {
        cpu.registers.pc = cpu.registers.pc.wrapping_add(2);
        12
    }
}

pub fn jp_hl(cpu: &mut Cpu) -> (r: u8)
    requires
        old(cpu).wf(),
    ensures
        final(cpu).wf(),
        (final(cpu)@, r) == spec_jp_hl(old(cpu)@),
{
    cpu.registers.pc = cpu.registers.hl();
    4
}

pub fn ret(cpu: &mut Cpu) -> (r: u8)
    requires
        old(cpu).wf(),
    ensures
        final(cpu).wf(),
        (final(cpu)@, r) == spec_ret(old(cpu)@),
{
    cpu.registers.pc = cpu.pop_stack();
    16
}

pub fn ret_cond(cpu: &mut Cpu) -> (r: u8)
    requires
        old(cpu).wf(),
    ensures
        final(cpu).wf(),
        (final(cpu)@, r) == spec_ret_cond(old(cpu)@),
{
    if current_condition(cpu) {
        cpu.registers.pc = cpu.pop_stack();
        20
    } else {
        8
    }
}

pub fn reti(cpu: &mut Cpu) -> (r: u8)
    requires
        old(cpu).wf(),
    ensures
        final(cpu).wf(),
        (final(cpu)@, r) == spec_reti(old(cpu)@),
{
    cpu.registers.pc = cpu.pop_stack();
    cpu.interrupt_master_enable = true;
    16
}

pub fn call_imm16(cpu: &mut Cpu) -> (r: u8)
    requires
        old(cpu).wf(),
    ensures
        final(cpu).wf(),
        (final(cpu)@, r) == spec_call(old(cpu)@),
{
    let target = cpu.fetch_word();
    let return_address = cpu.registers.pc;
    cpu.push_stack(return_address);
    cpu.registers.pc = target;
    24
}

pub fn call_cond_imm16(cpu: &mut Cpu) -> (r: u8)
    requires
        old(cpu).wf(),
    ensures
        final(cpu).wf(),
        (final(cpu)@, r) == spec_call_cond(old(cpu)@),
{
    if current_condition(cpu) {
        call_imm16(cpu)
    } else {
        cpu.registers.pc = cpu.registers.pc.wrapping_add(2);
        12
    }
}

pub fn rst_tgt3(cpu: &mut Cpu) -> (r: u8)
    requires
        old(cpu).wf(),
    ensures
        final(cpu).wf(),
        (final(cpu)@, r) == spec_rst(old(cpu)@),
{
    let pc = cpu.registers.pc;
    cpu.push_stack(pc);
    cpu.registers.pc = (cpu.current_opcode / 8 % 8 * 8) as u16;
    16
}

} // verus!
