use vstd::prelude::*;

use crate::alu::{
    add16, add8, and8, dec8, inc8, offset_sp, or8, spec_add16, spec_add8, spec_and8, spec_dec8,
    spec_inc8, spec_offset_sp, spec_or8, spec_sub8, spec_xor8, sub8, xor8,
};
use crate::cpu::{wrap16, Cpu, CpuState};
use crate::instructions::{R16, R8};
use crate::registers::bit_c;

verus! {

/// The accumulator operation of encoding `kind` (0 ADD, 1 ADC, 2 SUB, 3 SBC,
/// 4 AND, 5 XOR, 6 OR, 7 CP) on `a` and `b`: the new accumulator and flag byte.
/// CP keeps the accumulator and sets the flags of SUB.
pub open spec fn spec_alu(kind: u8, a: u8, b: u8, carry: bool) -> (u8, u8) {
    if kind == 0 {
        spec_add8(a, b, false)
    } else if kind == 1 {
        spec_add8(a, b, carry)
    } else if kind == 2 {
        spec_sub8(a, b, false)
    } else if kind == 3 {
        spec_sub8(a, b, carry)
    } else if kind == 4 {
        spec_and8(a, b)
    } else if kind == 5 {
        spec_xor8(a, b)
    } else if kind == 6 {
        spec_or8(a, b)
    } else {
        (a, spec_sub8(a, b, false).1)
    }
}

/// An accumulator operation whose operand is the 8-bit operand in the low three
/// opcode bits: 4 cycles, 8 through HL.
pub open spec fn spec_alu_r8(s: CpuState, kind: u8) -> (CpuState, u8) {
    let z = s.opcode % 8;
    let (res, f) = spec_alu(kind, s.registers.a, s.r8(z), bit_c(s.registers.f));
    (s.with_acc(res, f), if z == 6 { 8 } else { 4 })
}

/// An accumulator operation whose operand is the byte after the opcode: 8 cycles.
pub open spec fn spec_alu_imm8(s: CpuState, kind: u8) -> (CpuState, u8) {
    let (res, f) = spec_alu(kind, s.registers.a, s.imm8(), bit_c(s.registers.f));
    (s.advance_pc(1).with_acc(res, f), 8)
}

/// `INC r`: the operand in opcode bits 3..5; 4 cycles, 12 through HL.
pub open spec fn spec_inc_r8(s: CpuState) -> (CpuState, u8) {
    let y = s.opcode / 8 % 8;
    let (res, f) = spec_inc8(s.r8(y), s.registers.f);
    (s.set_r8(y, res).with_f(f), if y == 6 { 12 } else { 4 })
}

/// `DEC r`: the operand in opcode bits 3..5; 4 cycles, 12 through HL.
pub open spec fn spec_dec_r8(s: CpuState) -> (CpuState, u8) {
    let y = s.opcode / 8 % 8;
    let (res, f) = spec_dec8(s.r8(y), s.registers.f);
    (s.set_r8(y, res).with_f(f), if y == 6 { 12 } else { 4 })
}

/// `INC rr`: the pair in opcode bits 4..5, wrapping, flags untouched; 8 cycles.
pub open spec fn spec_inc_r16(s: CpuState) -> (CpuState, u8) {
    let p = s.opcode / 16 % 4;
    (s.set_r16(p, wrap16(s.r16(p), 1)), 8)
}

/// `DEC rr`: the pair in opcode bits 4..5, wrapping, flags untouched; 8 cycles.
pub open spec fn spec_dec_r16(s: CpuState) -> (CpuState, u8) {
    let p = s.opcode / 16 % 4;
    (s.set_r16(p, wrap16(s.r16(p), -1)), 8)
}

/// `ADD HL,rr`: 8 cycles.
pub open spec fn spec_add_hl_r16(s: CpuState) -> (CpuState, u8) {
    let p = s.opcode / 16 % 4;
    let (res, f) = spec_add16(s.hl(), s.r16(p), s.registers.f);
    (s.with_registers(s.registers.with_hl(res)).with_f(f), 8)
}

/// `ADD SP,i8`: 16 cycles.
pub open spec fn spec_add_sp_imm8(s: CpuState) -> (CpuState, u8) {
    let (res, f) = spec_offset_sp(s.registers.sp, s.imm8());
    (s.advance_pc(1).with_sp(res).with_f(f), 16)
}

fn alu(kind: u8, a: u8, b: u8, carry: bool) -> (r: (u8, u8))
    ensures
        r == spec_alu(kind, a, b, carry),
{
    if kind == 0 {
        add8(a, b, false)
    } else if kind == 1 {
        add8(a, b, carry)
    } else if kind == 2 {
        sub8(a, b, false)
    } else if kind == 3 {
        sub8(a, b, carry)
    } else if kind == 4 {
        and8(a, b)
    } else if kind == 5 {
        xor8(a, b)
    } else if kind == 6 {
        or8(a, b)
    } else {
        let (_, flags) = sub8(a, b, false);
        (a, flags)
    }
}

fn alu_r8(cpu: &mut Cpu, kind: u8) -> (r: u8)
    requires
        old(cpu).wf(),
    ensures
        final(cpu).wf(),
        (final(cpu)@, r) == spec_alu_r8(old(cpu)@, kind),
{
    let register = R8::from_index(cpu.current_opcode % 8);
    let data = cpu.read_r8(register);
    let (result, flags) = alu(kind, cpu.registers.a, data, cpu.registers.carry());
    proof {
        crate::registers::lemma_flag_byte_wf(flags);
    }
    cpu.registers.a = result;
    cpu.registers.f = flags;
    if register == R8::HLMem {
        8
    } else {
        4
    }
}

fn alu_imm8(cpu: &mut Cpu, kind: u8) -> (r: u8)
    requires
        old(cpu).wf(),
    ensures
        final(cpu).wf(),
        (final(cpu)@, r) == spec_alu_imm8(old(cpu)@, kind),
{
    let carry = cpu.registers.carry();
    let data = cpu.fetch_byte();
    let (result, flags) = alu(kind, cpu.registers.a, data, carry);
    proof {
        crate::registers::lemma_flag_byte_wf(flags);
    }
    cpu.registers.a = result;
    cpu.registers.f = flags;
    8
}

pub fn add_a_r8(cpu: &mut Cpu) -> (r: u8)
    requires
        old(cpu).wf(),
    ensures
        final(cpu).wf(),
        (final(cpu)@, r) == spec_alu_r8(old(cpu)@, 0),
{
    alu_r8(cpu, 0)
}

pub fn add_a_imm8(cpu: &mut Cpu) -> (r: u8)
    requires
        old(cpu).wf(),
    ensures
        final(cpu).wf(),
        (final(cpu)@, r) == spec_alu_imm8(old(cpu)@, 0),
{
    alu_imm8(cpu, 0)
}

pub fn adc_a_r8(cpu: &mut Cpu) -> (r: u8)
    requires
        old(cpu).wf(),
    ensures
        final(cpu).wf(),
        (final(cpu)@, r) == spec_alu_r8(old(cpu)@, 1),
{
    alu_r8(cpu, 1)
}

pub fn adc_a_imm8(cpu: &mut Cpu) -> (r: u8)
    requires
        old(cpu).wf(),
    ensures
        final(cpu).wf(),
        (final(cpu)@, r) == spec_alu_imm8(old(cpu)@, 1),
{
    alu_imm8(cpu, 1)
}

pub fn sub_a_r8(cpu: &mut Cpu) -> (r: u8)
    requires
        old(cpu).wf(),
    ensures
        final(cpu).wf(),
        (final(cpu)@, r) == spec_alu_r8(old(cpu)@, 2),
{
    alu_r8(cpu, 2)
}

pub fn sub_a_imm8(cpu: &mut Cpu) -> (r: u8)
    requires
        old(cpu).wf(),
    ensures
        final(cpu).wf(),
        (final(cpu)@, r) == spec_alu_imm8(old(cpu)@, 2),
{
    alu_imm8(cpu, 2)
}

pub fn sbc_a_r8(cpu: &mut Cpu) -> (r: u8)
    requires
        old(cpu).wf(),
    ensures
        final(cpu).wf(),
        (final(cpu)@, r) == spec_alu_r8(old(cpu)@, 3),
{
    alu_r8(cpu, 3)
}

pub fn sbc_a_imm8(cpu: &mut Cpu) -> (r: u8)
    requires
        old(cpu).wf(),
    ensures
        final(cpu).wf(),
        (final(cpu)@, r) == spec_alu_imm8(old(cpu)@, 3),
{
    alu_imm8(cpu, 3)
}

pub fn and_a_r8(cpu: &mut Cpu) -> (r: u8)
    requires
        old(cpu).wf(),
    ensures
        final(cpu).wf(),
        (final(cpu)@, r) == spec_alu_r8(old(cpu)@, 4),
{
    alu_r8(cpu, 4)
}

pub fn and_a_imm8(cpu: &mut Cpu) -> (r: u8)
    requires
        old(cpu).wf(),
    ensures
        final(cpu).wf(),
        (final(cpu)@, r) == spec_alu_imm8(old(cpu)@, 4),
{
    alu_imm8(cpu, 4)
}

pub fn xor_a_r8(cpu: &mut Cpu) -> (r: u8)
    requires
        old(cpu).wf(),
    ensures
        final(cpu).wf(),
        (final(cpu)@, r) == spec_alu_r8(old(cpu)@, 5),
{
    alu_r8(cpu, 5)
}

pub fn xor_a_imm8(cpu: &mut Cpu) -> (r: u8)
    requires
        old(cpu).wf(),
    ensures
        final(cpu).wf(),
        (final(cpu)@, r) == spec_alu_imm8(old(cpu)@, 5),
{
    alu_imm8(cpu, 5)
}

pub fn or_a_r8(cpu: &mut Cpu) -> (r: u8)
    requires
        old(cpu).wf(),
    ensures
        final(cpu).wf(),
        (final(cpu)@, r) == spec_alu_r8(old(cpu)@, 6),
{
    alu_r8(cpu, 6)
}

pub fn or_a_imm8(cpu: &mut Cpu) -> (r: u8)
    requires
        old(cpu).wf(),
    ensures
        final(cpu).wf(),
        (final(cpu)@, r) == spec_alu_imm8(old(cpu)@, 6),
{
    alu_imm8(cpu, 6)
}

pub fn cp_a_r8(cpu: &mut Cpu) -> (r: u8)
    requires
        old(cpu).wf(),
    ensures
        final(cpu).wf(),
        (final(cpu)@, r) == spec_alu_r8(old(cpu)@, 7),
{
    alu_r8(cpu, 7)
}

pub fn cp_a_imm8(cpu: &mut Cpu) -> (r: u8)
    requires
        old(cpu).wf(),
    ensures
        final(cpu).wf(),
        (final(cpu)@, r) == spec_alu_imm8(old(cpu)@, 7),
{
    alu_imm8(cpu, 7)
}

pub fn inc_r8(cpu: &mut Cpu) -> (r: u8)
    requires
        old(cpu).wf(),
    ensures
        final(cpu).wf(),
        (final(cpu)@, r) == spec_inc_r8(old(cpu)@),
{
    let register = R8::from_index(cpu.current_opcode / 8 % 8);
    let data = cpu.read_r8(register);
    let (result, flags) = inc8(data, cpu.registers.f);
    proof {
        crate::registers::lemma_flag_byte_wf(flags);
    }
    cpu.write_r8(register, result);
    cpu.registers.f = flags;
    if register == R8::HLMem {
        12
    } else {
        4
    }
}

pub fn dec_r8(cpu: &mut Cpu) -> (r: u8)
    requires
        old(cpu).wf(),
    ensures
        final(cpu).wf(),
        (final(cpu)@, r) == spec_dec_r8(old(cpu)@),
{
    let register = R8::from_index(cpu.current_opcode / 8 % 8);
    let data = cpu.read_r8(register);
    let (result, flags) = dec8(data, cpu.registers.f);
    proof {
        crate::registers::lemma_flag_byte_wf(flags);
    }
    cpu.write_r8(register, result);
    cpu.registers.f = flags;
    if register == R8::HLMem {
        12
    } else {
        4
    }
}

pub fn inc_r16(cpu: &mut Cpu) -> (r: u8)
    requires
        old(cpu).wf(),
    ensures
        final(cpu).wf(),
        (final(cpu)@, r) == spec_inc_r16(old(cpu)@),
{
    let register = R16::from_index(cpu.current_opcode / 16 % 4);
    let data = cpu.read_r16(register).wrapping_add(1);
    cpu.write_r16(register, data);
    8
}

pub fn dec_r16(cpu: &mut Cpu) -> (r: u8)
    requires
        old(cpu).wf(),
    ensures
        final(cpu).wf(),
        (final(cpu)@, r) == spec_dec_r16(old(cpu)@),
{
    let register = R16::from_index(cpu.current_opcode / 16 % 4);
    let data = cpu.read_r16(register).wrapping_sub(1);
    cpu.write_r16(register, data);
    8
}

pub fn add_hl_r16(cpu: &mut Cpu) -> (r: u8)
    requires
        old(cpu).wf(),
    ensures
        final(cpu).wf(),
        (final(cpu)@, r) == spec_add_hl_r16(old(cpu)@),
{
    let register = R16::from_index(cpu.current_opcode / 16 % 4);
    let data = cpu.read_r16(register);
    let (result, flags) = add16(cpu.registers.hl(), data, cpu.registers.f);
    proof {
        crate::registers::lemma_flag_byte_wf(flags);
    }
    cpu.registers.set_hl(result);
    cpu.registers.f = flags;
    8
}

pub fn add_sp_imm8(cpu: &mut Cpu) -> (r: u8)
    requires
        old(cpu).wf(),
    ensures
        final(cpu).wf(),
        (final(cpu)@, r) == spec_add_sp_imm8(old(cpu)@),
{
    let data = cpu.fetch_byte();
    let (result, flags) = offset_sp(cpu.registers.sp, data);
    proof {
        crate::registers::lemma_flag_byte_wf(flags);
    }
    cpu.registers.sp = result;
    cpu.registers.f = flags;
    16
}

} // verus!
