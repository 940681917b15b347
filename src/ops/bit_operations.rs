use vstd::prelude::*;

use crate::alu::{shift, spec_shift};
use crate::cpu::{Cpu, CpuState};
use crate::instructions::R8;
use crate::registers::{bit_c, flag_byte};

verus! {

/// `BIT b,r` of the prefixed opcode `op`: Zero is set when the bit is clear,
/// Half-Carry set, Subtraction clear, Carry kept; 8 cycles, 12 through HL.
pub open spec fn spec_bit(s: CpuState, op: u8) -> (CpuState, u8) {
    let b = op / 8 % 8;
    let z = op % 8;
    let v = s.r8(z);
    (s.with_f(flag_byte((v >> b) & 1 == 0, false, true, bit_c(s.registers.f))), if z == 6 { 12 } else { 8 })
}

/// `RES b,r` of the prefixed opcode `op`: flags untouched; 8 cycles, 16 through HL.
pub open spec fn spec_res(s: CpuState, op: u8) -> (CpuState, u8) {
    let b = op / 8 % 8;
    let z = op % 8;
    (s.set_r8(z, s.r8(z) & !(1u8 << b)), if z == 6 { 16 } else { 8 })
}

/// `SET b,r` of the prefixed opcode `op`: flags untouched; 8 cycles, 16 through HL.
pub open spec fn spec_set(s: CpuState, op: u8) -> (CpuState, u8) {
    let b = op / 8 % 8;
    let z = op % 8;
    (s.set_r8(z, s.r8(z) | (1u8 << b)), if z == 6 { 16 } else { 8 })
}

/// The rotates and shifts of the prefixed table: Zero from the result, Carry
/// from the bit shifted out, the other two clear; 8 cycles, 16 through HL.
pub open spec fn spec_rotate_shift(s: CpuState, op: u8) -> (CpuState, u8) {
    let kind = op / 8 % 8;
    let z = op % 8;
    let (res, carry) = spec_shift(kind, s.r8(z), bit_c(s.registers.f));
    (s.set_r8(z, res).with_f(flag_byte(res == 0, false, false, carry)), if z == 6 { 16 } else { 8 })
}

/// The one-byte accumulator rotates (RLCA, RRCA, RLA, RRA by opcode bits 3..4):
/// Zero, Subtraction and Half-Carry clear, Carry from the bit shifted out; 4 cycles.
pub open spec fn spec_rotate_a(s: CpuState) -> (CpuState, u8) {
    let kind = s.opcode / 8 % 4;
    let (res, carry) = spec_shift(kind, s.registers.a, bit_c(s.registers.f));
    (s.with_acc(res, flag_byte(false, false, false, carry)), 4)
}

pub fn bit_b3_r8(cpu: &mut Cpu, opcode: u8) -> (r: u8)
    requires
        old(cpu).wf(),
    ensures
        final(cpu).wf(),
        (final(cpu)@, r) == spec_bit(old(cpu)@, opcode),
{
    let register = R8::from_index(opcode % 8);
    let data = cpu.read_r8(register);
    let bit_index = opcode / 8 % 8;
    let flags = crate::alu::flags((data >> bit_index) & 1 == 0, false, true, cpu.registers.carry());
    proof {
        crate::registers::lemma_flag_byte_wf(flags);
    }
    cpu.registers.f = flags;
    if register == R8::HLMem {
        12
    } else {
        8
    }
}

pub fn res_b3_r8(cpu: &mut Cpu, opcode: u8) -> (r: u8)
    requires
        old(cpu).wf(),
    ensures
        final(cpu).wf(),
        (final(cpu)@, r) == spec_res(old(cpu)@, opcode),
{
    let register = R8::from_index(opcode % 8);
    let data = cpu.read_r8(register);
    let bit_index = opcode / 8 % 8;
    cpu.write_r8(register, data & !(1u8 << bit_index));
    if register == R8::HLMem {
        16
    } else {
        8
    }
}

pub fn set_b3_r8(cpu: &mut Cpu, opcode: u8) -> (r: u8)
    requires
        old(cpu).wf(),
    ensures
        final(cpu).wf(),
        (final(cpu)@, r) == spec_set(old(cpu)@, opcode),
{
    let register = R8::from_index(opcode % 8);
    let data = cpu.read_r8(register);
    let bit_index = opcode / 8 % 8;
    cpu.write_r8(register, data | (1u8 << bit_index));
    if register == R8::HLMem {
        16
    } else {
        8
    }
}

/// RLC, RRC, RL, RR, SLA, SRA, SWAP and SRL on an 8-bit operand.
pub fn rotate_shift_r8(cpu: &mut Cpu, opcode: u8) -> (r: u8)
    requires
        old(cpu).wf(),
    ensures
        final(cpu).wf(),
        (final(cpu)@, r) == spec_rotate_shift(old(cpu)@, opcode),
{
    let register = R8::from_index(opcode % 8);
    let data = cpu.read_r8(register);
    let (result, carry) = shift(opcode / 8 % 8, data, cpu.registers.carry());
    let flags = crate::alu::flags(result == 0, false, false, carry);
    proof {
        crate::registers::lemma_flag_byte_wf(flags);
    }
    cpu.write_r8(register, result);
    cpu.registers.f = flags;
    if register == R8::HLMem {
        16
    } else {
        8
    }
}

/// RLCA, RRCA, RLA and RRA.
pub fn rotate_a(cpu: &mut Cpu) -> (r: u8)
    requires
        old(cpu).wf(),
    ensures
        final(cpu).wf(),
        (final(cpu)@, r) == spec_rotate_a(old(cpu)@),
{
    let (result, carry) = shift(cpu.current_opcode / 8 % 4, cpu.registers.a, cpu.registers.carry());
    let flags = crate::alu::flags(false, false, false, carry);
    proof {
        crate::registers::lemma_flag_byte_wf(flags);
    }
    cpu.registers.a = result;
    cpu.registers.f = flags;
    4
}

} // verus!
