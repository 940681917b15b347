use vstd::prelude::*;

use crate::alu::{daa8, spec_daa};
use crate::cpu::{Cpu, CpuState};
use crate::ops::bit_operations::{
    bit_b3_r8, res_b3_r8, rotate_shift_r8, set_b3_r8, spec_bit, spec_res, spec_rotate_shift,
    spec_set,
};
use crate::registers::{bit_c, bit_z, flag_byte};

verus! {

/// `DAA`: 4 cycles.
pub open spec fn spec_daa_step(s: CpuState) -> (CpuState, u8) {
    let (res, f) = spec_daa(s.registers.a, s.registers.f);
    (s.with_acc(res, f), 4)
}

/// `CPL`: the accumulator is complemented, Subtraction and Half-Carry set; 4 cycles.
pub open spec fn spec_cpl(s: CpuState) -> (CpuState, u8) {
    let f = s.registers.f;
    (s.with_acc((255 - s.registers.a) as u8, flag_byte(bit_z(f), true, true, bit_c(f))), 4)
}

/// `SCF`: Carry set, Subtraction and Half-Carry clear; 4 cycles.
pub open spec fn spec_scf(s: CpuState) -> (CpuState, u8) {
    (s.with_f(flag_byte(bit_z(s.registers.f), false, false, true)), 4)
}

/// `CCF`: Carry complemented, Subtraction and Half-Carry clear; 4 cycles.
pub open spec fn spec_ccf(s: CpuState) -> (CpuState, u8) {
    let f = s.registers.f;
    (s.with_f(flag_byte(bit_z(f), false, false, !bit_c(f))), 4)
}

/// `STOP`: the processor enters its low-power state; 4 cycles.
pub open spec fn spec_stop(s: CpuState) -> (CpuState, u8) {
    (CpuState { stopped: true, ..s }, 4)
}

/// `HALT`: the processor waits for an interrupt; 4 cycles.
pub open spec fn spec_halt(s: CpuState) -> (CpuState, u8) {
    (CpuState { halted: true, ..s }, 4)
}

/// `DI`: interrupts are disabled at once, and a pending `EI` is dropped; 4 cycles.
pub open spec fn spec_di(s: CpuState) -> (CpuState, u8) {
    (CpuState { ime: false, ime_scheduled: false, ..s }, 4)
}

/// `EI`: interrupts become enabled once the next instruction has completed; 4 cycles.
pub open spec fn spec_ei(s: CpuState) -> (CpuState, u8) {
    (CpuState { ime_scheduled: true, ..s }, 4)
}

/// The prefixed opcode `op` on state `s` (PC already past `op`).
pub open spec fn spec_prefixed(s: CpuState, op: u8) -> (CpuState, u8) {
    let x = op / 64;
    if x == 0 {
        spec_rotate_shift(s, op)
    } else if x == 1 {
        spec_bit(s, op)
    } else if x == 2 {
        spec_res(s, op)
    } else {
        spec_set(s, op)
    }
}

/// The 0xCB prefix: the next byte is fetched and executed from the secondary table.
pub open spec fn spec_prefix(s: CpuState) -> (CpuState, u8) {
    spec_prefixed(s.advance_pc(1), s.imm8())
}

pub fn daa(cpu: &mut Cpu) -> (r: u8)
    requires
        old(cpu).wf(),
    ensures
        final(cpu).wf(),
        (final(cpu)@, r) == spec_daa_step(old(cpu)@),
{
    let (result, flags) = daa8(cpu.registers.a, cpu.registers.f);
    proof {
        crate::registers::lemma_flag_byte_wf(flags);
    }
    cpu.registers.a = result;
    cpu.registers.f = flags;
    4
}

pub fn cpl(cpu: &mut Cpu) -> (r: u8)
    requires
        old(cpu).wf(),
    ensures
        final(cpu).wf(),
        (final(cpu)@, r) == spec_cpl(old(cpu)@),
{
    let flags = crate::alu::flags(cpu.registers.zero(), true, true, cpu.registers.carry());
    proof {
        crate::registers::lemma_flag_byte_wf(flags);
    }
    cpu.registers.a = 255 - cpu.registers.a;
    cpu.registers.f = flags;
    4
}

pub fn scf(cpu: &mut Cpu) -> (r: u8)
    requires
        old(cpu).wf(),
    ensures
        final(cpu).wf(),
        (final(cpu)@, r) == spec_scf(old(cpu)@),
{
    let flags = crate::alu::flags(cpu.registers.zero(), false, false, true);
    proof {
        crate::registers::lemma_flag_byte_wf(flags);
    }
    cpu.registers.f = flags;
    4
}

pub fn ccf(cpu: &mut Cpu) -> (r: u8)
    requires
        old(cpu).wf(),
    ensures
        final(cpu).wf(),
        (final(cpu)@, r) == spec_ccf(old(cpu)@),
{
    let flags = crate::alu::flags(cpu.registers.zero(), false, false, !cpu.registers.carry());
    proof {
        crate::registers::lemma_flag_byte_wf(flags);
    }
    cpu.registers.f = flags;
    4
}

pub fn stop(cpu: &mut Cpu) -> (r: u8)
    ensures
        (final(cpu)@, r) == spec_stop(old(cpu)@),
{
    cpu.stopped = true;
    4
}

pub fn halt(cpu: &mut Cpu) -> (r: u8)
    ensures
        (final(cpu)@, r) == spec_halt(old(cpu)@),
{
    cpu.halted = true;
    4
}

pub fn di(cpu: &mut Cpu) -> (r: u8)
    ensures
        (final(cpu)@, r) == spec_di(old(cpu)@),
{
    cpu.interrupt_master_enable = false;
    cpu.ime_scheduled = false;
    4
}

pub fn ei(cpu: &mut Cpu) -> (r: u8)
    ensures
        (final(cpu)@, r) == spec_ei(old(cpu)@),
{
    cpu.ime_scheduled = true;
    4
}

pub fn prefix(cpu: &mut Cpu) -> (r: u8)
    requires
        old(cpu).wf(),
    ensures
        final(cpu).wf(),
        (final(cpu)@, r) == spec_prefix(old(cpu)@),
{
    let opcode = cpu.fetch_byte();
    let operation = opcode / 64;
    if operation == 0 {
        rotate_shift_r8(cpu, opcode)
    } else if operation == 1 {
        bit_b3_r8(cpu, opcode)
    } else if operation == 2 {
        res_b3_r8(cpu, opcode)
    } else {
        set_b3_r8(cpu, opcode)
    }
}

} // verus!
