use vstd::prelude::*;

use crate::alu::{offset_sp, spec_offset_sp};
use crate::bus::next_address;
use crate::cpu::{Cpu, CpuState};
use crate::instructions::{R16Memory, R16Stack, R16, R8};
use crate::registers::{high_byte, low_byte};

verus! {

/// The high-page address `0xFF00 + offset`.
pub open spec fn high_page(offset: u8) -> u16 {
    (0xFF00 + offset as int) as u16
}

/// `LD rr,u16` (pair in opcode bits 4..5): 12 cycles.
pub open spec fn spec_ld_r16_imm16(s: CpuState) -> (CpuState, u8) {
    (s.advance_pc(2).set_r16(s.opcode / 16 % 4, s.imm16()), 12)
}

/// `LD (rr),A` through BC, DE, HL+ or HL-: 8 cycles.
pub open spec fn spec_ld_r16_mem_a(s: CpuState) -> (CpuState, u8) {
    let p = s.opcode / 16 % 4;
    (s.after_r16_memory(p).write(s.r16_memory_address(p), s.registers.a), 8)
}

/// `LD A,(rr)` through BC, DE, HL+ or HL-: 8 cycles.
pub open spec fn spec_ld_a_r16_mem(s: CpuState) -> (CpuState, u8) {
    let p = s.opcode / 16 % 4;
    (s.after_r16_memory(p).with_a(s.read(s.r16_memory_address(p))), 8)
}

/// `LD (u16),SP`: SP stored little-endian; 20 cycles.
pub open spec fn spec_ld_imm16_sp(s: CpuState) -> (CpuState, u8) {
    let address = s.imm16();
    let sp = s.registers.sp;
    (s.advance_pc(2).write(address, low_byte(sp)).write(next_address(address), high_byte(sp)), 20)
}

/// `LD r,u8` (operand in opcode bits 3..5): 8 cycles, 12 through HL.
pub open spec fn spec_ld_r8_imm8(s: CpuState) -> (CpuState, u8) {
    let y = s.opcode / 8 % 8;
    (s.advance_pc(1).set_r8(y, s.imm8()), if y == 6 { 12 } else { 8 })
}

/// `LD r,r'` (target in bits 3..5, source in bits 0..2): 4 cycles, 8 through HL.
pub open spec fn spec_ld_r8_r8(s: CpuState) -> (CpuState, u8) {
    let y = s.opcode / 8 % 8;
    let z = s.opcode % 8;
    (s.set_r8(y, s.r8(z)), if y == 6 || z == 6 { 8 } else { 4 })
}

/// `LD (FF00+C),A`: 8 cycles.
pub open spec fn spec_ldh_c_mem_a(s: CpuState) -> (CpuState, u8) {
    (s.write(high_page(s.registers.c), s.registers.a), 8)
}

/// `LD (FF00+u8),A`: 12 cycles.
pub open spec fn spec_ldh_imm8_mem_a(s: CpuState) -> (CpuState, u8) {
    (s.advance_pc(1).write(high_page(s.imm8()), s.registers.a), 12)
}

/// `LD (u16),A`: 16 cycles.
pub open spec fn spec_ld_imm16_mem_a(s: CpuState) -> (CpuState, u8) {
    (s.advance_pc(2).write(s.imm16(), s.registers.a), 16)
}

/// `LD A,(FF00+C)`: 8 cycles.
pub open spec fn spec_ldh_a_c_mem(s: CpuState) -> (CpuState, u8) {
    (s.with_a(s.read(high_page(s.registers.c))), 8)
}

/// `LD A,(FF00+u8)`: 12 cycles.
pub open spec fn spec_ldh_a_imm8_mem(s: CpuState) -> (CpuState, u8) {
    (s.advance_pc(1).with_a(s.read(high_page(s.imm8()))), 12)
}

/// `LD A,(u16)`: 16 cycles.
pub open spec fn spec_ld_a_imm16_mem(s: CpuState) -> (CpuState, u8) {
    (s.advance_pc(2).with_a(s.read(s.imm16())), 16)
}

/// `LD HL,SP+i8`: flags as for `ADD SP,i8`; 12 cycles.
pub open spec fn spec_ld_hl_sp_imm8(s: CpuState) -> (CpuState, u8) {
    let (res, f) = spec_offset_sp(s.registers.sp, s.imm8());
    let next = s.advance_pc(1);
    (next.with_registers(next.registers.with_hl(res)).with_f(f), 12)
}

/// `LD SP,HL`: 8 cycles.
pub open spec fn spec_ld_sp_hl(s: CpuState) -> (CpuState, u8) {
    (s.with_sp(s.hl()), 8)
}

/// `POP rr` (BC, DE, HL or AF by opcode bits 4..5): 12 cycles.
pub open spec fn spec_pop(s: CpuState) -> (CpuState, u8) {
    (s.pop().set_r16_stack(s.opcode / 16 % 4, s.top()), 12)
}

/// `PUSH rr` (BC, DE, HL or AF by opcode bits 4..5): 16 cycles.
pub open spec fn spec_push(s: CpuState) -> (CpuState, u8) {
    (s.push(s.r16_stack(s.opcode / 16 % 4)), 16)
}

pub fn ld_r16_imm16(cpu: &mut Cpu) -> (r: u8)
    requires
        old(cpu).wf(),
    ensures
        final(cpu).wf(),
        (final(cpu)@, r) == spec_ld_r16_imm16(old(cpu)@),
{
    let register = R16::from_index(cpu.current_opcode / 16 % 4);
    let value = cpu.fetch_word();
    cpu.write_r16(register, value);
    12
}

pub fn ld_r16_mem_a(cpu: &mut Cpu) -> (r: u8)
    requires
        old(cpu).wf(),
    ensures
        final(cpu).wf(),
        (final(cpu)@, r) == spec_ld_r16_mem_a(old(cpu)@),
{
    let register = R16Memory::from_index(cpu.current_opcode / 16 % 4);
    let address = cpu.r16_memory_address(register);
    let a = cpu.registers.a;
    cpu.bus.mem_write(address, a);
    8
}

pub fn ld_a_r16_mem(cpu: &mut Cpu) -> (r: u8)
    requires
        old(cpu).wf(),
    ensures
        final(cpu).wf(),
        (final(cpu)@, r) == spec_ld_a_r16_mem(old(cpu)@),
{
    let register = R16Memory::from_index(cpu.current_opcode / 16 % 4);
    let address = cpu.r16_memory_address(register);
    cpu.registers.a = cpu.bus.mem_read(address);
    8
}

pub fn ld_imm16_sp(cpu: &mut Cpu) -> (r: u8)
    requires
        old(cpu).wf(),
    ensures
        final(cpu).wf(),
        (final(cpu)@, r) == spec_ld_imm16_sp(old(cpu)@),
{
    let address = cpu.fetch_word();
    let sp = cpu.registers.sp;
    cpu.bus.mem_write_16(address, sp);
    20
}

pub fn ld_r8_imm8(cpu: &mut Cpu) -> (r: u8)
    requires
        old(cpu).wf(),
    ensures
        final(cpu).wf(),
        (final(cpu)@, r) == spec_ld_r8_imm8(old(cpu)@),
{
    let register = R8::from_index(cpu.current_opcode / 8 % 8);
    let value = cpu.fetch_byte();
    cpu.write_r8(register, value);
    if register == R8::HLMem {
        12
    } else {
        8
    }
}

pub fn ld_r8_r8(cpu: &mut Cpu) -> (r: u8)
    requires
        old(cpu).wf(),
    ensures
        final(cpu).wf(),
        (final(cpu)@, r) == spec_ld_r8_r8(old(cpu)@),
{
    let target = R8::from_index(cpu.current_opcode / 8 % 8);
    let source = R8::from_index(cpu.current_opcode % 8);
    let value = cpu.read_r8(source);
    cpu.write_r8(target, value);
    if target == R8::HLMem || source == R8::HLMem {
        8
    } else {
        4
    }
}

pub fn ldh_c_mem_a(cpu: &mut Cpu) -> (r: u8)
    requires
        old(cpu).wf(),
    ensures
        final(cpu).wf(),
        (final(cpu)@, r) == spec_ldh_c_mem_a(old(cpu)@),
{
    let address = 0xFF00 + cpu.registers.c as u16;
    let a = cpu.registers.a;
    cpu.bus.mem_write(address, a);
    8
}

pub fn ldh_imm8_mem_a(cpu: &mut Cpu) -> (r: u8)
    requires
        old(cpu).wf(),
    ensures
        final(cpu).wf(),
        (final(cpu)@, r) == spec_ldh_imm8_mem_a(old(cpu)@),
{
    let offset = cpu.fetch_byte();
    let a = cpu.registers.a;
    cpu.bus.mem_write(0xFF00 + offset as u16, a);
    12
}

pub fn ld_imm16_mem_a(cpu: &mut Cpu) -> (r: u8)
    requires
        old(cpu).wf(),
    ensures
        final(cpu).wf(),
        (final(cpu)@, r) == spec_ld_imm16_mem_a(old(cpu)@),
{
    let address = cpu.fetch_word();
    let a = cpu.registers.a;
    cpu.bus.mem_write(address, a);
    16
}

pub fn ldh_a_c_mem(cpu: &mut Cpu) -> (r: u8)
    requires
        old(cpu).wf(),
    ensures
        final(cpu).wf(),
        (final(cpu)@, r) == spec_ldh_a_c_mem(old(cpu)@),
{
    cpu.registers.a = cpu.bus.mem_read(0xFF00 + cpu.registers.c as u16);
    8
}

pub fn ldh_a_imm8_mem(cpu: &mut Cpu) -> (r: u8)
    requires
        old(cpu).wf(),
    ensures
        final(cpu).wf(),
        (final(cpu)@, r) == spec_ldh_a_imm8_mem(old(cpu)@),
{
    let offset = cpu.fetch_byte();
    cpu.registers.a = cpu.bus.mem_read(0xFF00 + offset as u16);
    12
}

pub fn ld_a_imm16_mem(cpu: &mut Cpu) -> (r: u8)
    requires
        old(cpu).wf(),
    ensures
        final(cpu).wf(),
        (final(cpu)@, r) == spec_ld_a_imm16_mem(old(cpu)@),
{
    let address = cpu.fetch_word();
    cpu.registers.a = cpu.bus.mem_read(address);
    16
}

pub fn ld_hl_sp_imm8(cpu: &mut Cpu) -> (r: u8)
    requires
        old(cpu).wf(),
    ensures
        final(cpu).wf(),
        (final(cpu)@, r) == spec_ld_hl_sp_imm8(old(cpu)@),
{
    let d = cpu.fetch_byte();
    let (result, flags) = offset_sp(cpu.registers.sp, d);
    proof {
        crate::registers::lemma_flag_byte_wf(flags);
    }
    cpu.registers.set_hl(result);
    cpu.registers.f = flags;
    12
}

pub fn ld_sp_hl(cpu: &mut Cpu) -> (r: u8)
    requires
        old(cpu).wf(),
    ensures
        final(cpu).wf(),
        (final(cpu)@, r) == spec_ld_sp_hl(old(cpu)@),
{
    cpu.registers.sp = cpu.registers.hl();
    8
}

pub fn pop_r16_stk(cpu: &mut Cpu) -> (r: u8)
    requires
        old(cpu).wf(),
    ensures
        final(cpu).wf(),
        (final(cpu)@, r) == spec_pop(old(cpu)@),
{
    let register = R16Stack::from_index(cpu.current_opcode / 16 % 4);
    let value = cpu.pop_stack();
    cpu.write_r16_stack(register, value);
    12
}

pub fn push_r16_stk(cpu: &mut Cpu) -> (r: u8)
    requires
        old(cpu).wf(),
    ensures
        final(cpu).wf(),
        (final(cpu)@, r) == spec_push(old(cpu)@),
{
    let register = R16Stack::from_index(cpu.current_opcode / 16 % 4);
    let value = cpu.read_r16_stack(register);
    cpu.push_stack(value);
    16
}

} // verus!
