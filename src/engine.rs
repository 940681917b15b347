use vstd::prelude::*;

use crate::cpu::{Cpu, CpuError, CpuState};
use crate::instructions::{
    get_instruction_by_opcode, prefixed_descriptor, primary_descriptor, AddressingMode,
    ConditionType, Instruction, InstructionType, RegisterType,
};
use crate::interrupts::spec_interrupt;
use crate::ops::arithmetic_logic::{
    adc_a_imm8, adc_a_r8, add_a_imm8, add_a_r8, add_hl_r16, add_sp_imm8, and_a_imm8, and_a_r8,
    cp_a_imm8, cp_a_r8, dec_r16, dec_r8, inc_r16, inc_r8, or_a_imm8, or_a_r8, sbc_a_imm8,
    sbc_a_r8, spec_add_hl_r16, spec_add_sp_imm8, spec_alu_imm8, spec_alu_r8, spec_dec_r16,
    spec_dec_r8, spec_inc_r16, spec_inc_r8, sub_a_imm8, sub_a_r8, xor_a_imm8, xor_a_r8,
};
use crate::ops::bit_operations::{rotate_a, spec_rotate_a};
use crate::ops::branch::{
    call_cond_imm16, call_imm16, jp_cond_imm16, jp_hl, jp_imm16, jr_cond_imm8, jr_imm8, ret,
    ret_cond, reti, rst_tgt3, spec_call, spec_call_cond, spec_jp, spec_jp_cond, spec_jp_hl,
    spec_jr, spec_jr_cond, spec_ret, spec_ret_cond, spec_reti, spec_rst,
};
use crate::ops::load::{
    ld_a_imm16_mem, ld_a_r16_mem, ld_hl_sp_imm8, ld_imm16_mem_a, ld_imm16_sp, ld_r16_imm16,
    ld_r16_mem_a, ld_r8_imm8, ld_r8_r8, ld_sp_hl, ldh_a_c_mem, ldh_a_imm8_mem, ldh_c_mem_a,
    ldh_imm8_mem_a, pop_r16_stk, push_r16_stk, spec_ld_a_imm16_mem, spec_ld_a_r16_mem,
    spec_ld_hl_sp_imm8, spec_ld_imm16_mem_a, spec_ld_imm16_sp, spec_ld_r16_imm16,
    spec_ld_r16_mem_a, spec_ld_r8_imm8, spec_ld_r8_r8, spec_ld_sp_hl, spec_ldh_a_c_mem,
    spec_ldh_a_imm8_mem, spec_ldh_c_mem_a, spec_ldh_imm8_mem_a, spec_pop, spec_push,
};
use crate::ops::miscellaneous::{
    ccf, cpl, daa, di, ei, halt, prefix, scf, spec_ccf, spec_cpl, spec_daa_step, spec_di,
    spec_ei, spec_halt, spec_prefix, spec_scf, spec_stop, stop,
};

verus! {

/// The encoding of an accumulator operation kind (ADD 0 ... CP 7).
pub open spec fn alu_index(t: InstructionType) -> u8 {
    match t {
        InstructionType::ADD => 0,
        InstructionType::ADC => 1,
        InstructionType::SUB => 2,
        InstructionType::SBC => 3,
        InstructionType::AND => 4,
        InstructionType::XOR => 5,
        InstructionType::OR => 6,
        _ => 7,
    }
}

/// Whether a register tag names a register pair of the 16-bit INC, DEC and ADD.
pub open spec fn is_pair(r: RegisterType) -> bool {
    r == RegisterType::BC || r == RegisterType::DE || r == RegisterType::HL || r == RegisterType::SP
}

/// Executes the already fetched opcode `s.opcode` (PC is past it) by the kind
/// and addressing mode of its descriptor. `None` for an illegal opcode.
pub open spec fn spec_execute(s: CpuState) -> Option<(CpuState, u8)> {
    let d = primary_descriptor(s.opcode);
    let m = d.addressing_mode;
    let unconditional = d.condition == ConditionType::Unconditional;
    match d.instruction_type {
        InstructionType::NOP => Some((s, 4)),
        InstructionType::LD => Some(
            if m == AddressingMode::U16ToRegister {
                spec_ld_r16_imm16(s)
            } else if m == AddressingMode::RegisterToRegisterAddress {
                if d.register_1 == RegisterType::HL {
                    spec_ld_r8_r8(s)
                } else if d.register_1 == RegisterType::C {
                    spec_ldh_c_mem_a(s)
                } else {
                    spec_ld_r16_mem_a(s)
                }
            } else if m == AddressingMode::RegisterAddressToRegister {
                if d.register_2 == RegisterType::HL {
                    spec_ld_r8_r8(s)
                } else if d.register_2 == RegisterType::C {
                    spec_ldh_a_c_mem(s)
                } else {
                    spec_ld_a_r16_mem(s)
                }
            } else if m == AddressingMode::RegisterToU16Address {
                if d.register_2 == RegisterType::SP {
                    spec_ld_imm16_sp(s)
                } else {
                    spec_ld_imm16_mem_a(s)
                }
            } else if m == AddressingMode::U8ToRegister || m == AddressingMode::U8ToRegisterAddress {
                spec_ld_r8_imm8(s)
            } else if m == AddressingMode::RegisterToRegister {
                if d.register_1 == RegisterType::SP {
                    spec_ld_sp_hl(s)
                } else {
                    spec_ld_r8_r8(s)
                }
            } else if m == AddressingMode::RegisterToU8Address {
                spec_ldh_imm8_mem_a(s)
            } else if m == AddressingMode::U8AddressToRegister {
                spec_ldh_a_imm8_mem(s)
            } else if m == AddressingMode::U16AddressToRegister {
                spec_ld_a_imm16_mem(s)
            } else {
                spec_ld_hl_sp_imm8(s)
            },
        ),
        InstructionType::INC => Some(
            if m == AddressingMode::Register && is_pair(d.register_1) {
                spec_inc_r16(s)
            } else {
                spec_inc_r8(s)
            },
        ),
        InstructionType::DEC => Some(
            if m == AddressingMode::Register && is_pair(d.register_1) {
                spec_dec_r16(s)
            } else {
                spec_dec_r8(s)
            },
        ),
        InstructionType::ADD => Some(
            if m == AddressingMode::I8 {
                spec_add_sp_imm8(s)
            } else if d.register_1 == RegisterType::HL {
                spec_add_hl_r16(s)
            } else if m == AddressingMode::U8ToRegister {
                spec_alu_imm8(s, 0)
            } else {
                spec_alu_r8(s, 0)
            },
        ),
        InstructionType::ADC | InstructionType::SUB | InstructionType::SBC | InstructionType::AND
        | InstructionType::XOR | InstructionType::OR | InstructionType::CP => Some(
            if m == AddressingMode::U8ToRegister {
                spec_alu_imm8(s, alu_index(d.instruction_type))
            } else {
                spec_alu_r8(s, alu_index(d.instruction_type))
            },
        ),
        InstructionType::RLCA | InstructionType::RRCA | InstructionType::RLA | InstructionType::RRA => Some(
            spec_rotate_a(s),
        ),
        InstructionType::DAA => Some(spec_daa_step(s)),
        InstructionType::CPL => Some(spec_cpl(s)),
        InstructionType::SCF => Some(spec_scf(s)),
        InstructionType::CCF => Some(spec_ccf(s)),
        InstructionType::STOP => Some(spec_stop(s)),
        InstructionType::HALT => Some(spec_halt(s)),
        InstructionType::DI => Some(spec_di(s)),
        InstructionType::EI => Some(spec_ei(s)),
        InstructionType::JR => Some(
            if unconditional {
                spec_jr(s)
            } else {
                spec_jr_cond(s)
            },
        ),
        InstructionType::JP => Some(
            if m == AddressingMode::Register {
                spec_jp_hl(s)
            } else if unconditional {
                spec_jp(s)
            } else {
                spec_jp_cond(s)
            },
        ),
        InstructionType::CALL => Some(
            if unconditional {
                spec_call(s)
            } else {
                spec_call_cond(s)
            },
        ),
        InstructionType::RET => Some(
            if unconditional {
                spec_ret(s)
            } else {
                spec_ret_cond(s)
            },
        ),
        InstructionType::RETI => Some(spec_reti(s)),
        InstructionType::RST => Some(spec_rst(s)),
        InstructionType::PUSH => Some(spec_push(s)),
        InstructionType::POP => Some(spec_pop(s)),
        InstructionType::CB => Some(spec_prefix(s)),
        _ => None,
    }
}

/// One step of the engine. A halted or stopped processor idles for 4 cycles;
/// otherwise the opcode at PC is fetched and executed, and an `EI` staged
/// before this instruction takes effect once it completes. The interrupt check
/// follows either way, and its cycles are added.
#[verifier::opaque]
pub open spec fn spec_step(s: CpuState) -> Result<(CpuState, u32), CpuError> {
    if s.halted || s.stopped {
        let (t, c) = spec_interrupt(s);
        Ok((t, (4 + c) as u32))
    } else {
        let op = s.imm8();
        let fetched = CpuState { opcode: op, ..s.advance_pc(1) };
        match spec_execute(fetched) {
            None => Err(CpuError::IllegalOpcode { address: s.registers.pc, opcode: op }),
            Some((t, c)) => {
                let enabled = if s.ime_scheduled && t.ime_scheduled {
                    CpuState { ime: true, ime_scheduled: false, ..t }
                } else {
                    t
                };
                let (u, i) = spec_interrupt(enabled);
                Ok((u, (c + i) as u32))
            },
        }
    }
}

/// `n` steps in a row; the cycles add up. Stops at the first illegal opcode.
pub open spec fn spec_run(s: CpuState, n: nat) -> Result<(CpuState, int), CpuError>
    decreases n,
{
    if n == 0 {
        Ok((s, 0))
    } else {
        match spec_step(s) {
            Err(e) => Err(e),
            Ok((t, c)) => match spec_run(t, (n - 1) as nat) {
                Err(e) => Err(e),
                Ok((u, total)) => Ok((u, c + total)),
            },
        }
    }
}

/// An opcode executes exactly when its descriptor is not the illegal one.
pub proof fn lemma_execute_defined(s: CpuState)
    ensures
        spec_execute(s) is None <==> primary_descriptor(s.opcode).instruction_type
            == InstructionType::NONE,
{
}

/// The cycles an instruction takes are those its descriptor lists: the
/// not-taken or the taken cost, and for the prefix the cost of the prefixed
/// descriptor of the next byte.
pub proof fn lemma_execute_cost(s: CpuState)
    ensures
        spec_execute(s) matches Some((_, c)) ==> {
            let d = primary_descriptor(s.opcode);
            if d.instruction_type == InstructionType::CB {
                c == 4 * prefixed_descriptor(s.imm8()).cycles
            } else {
                c == 4 * d.cycles || c == 4 * d.cycles_taken
            }
        },
{
}

/// Reference costs, in clock cycles, in the table and in execution: loading a
/// 16-bit immediate into a pair 12; incrementing an 8-bit register 4, or 12
/// through HL; CALL 24; a conditional CALL 24 taken and 12 not taken; RET 16;
/// a conditional relative jump 12 taken and 8 not taken; an interrupt dispatch 20.
pub proof fn lemma_reference_costs(s: CpuState)
    ensures
        forall|op: u8|
            op == 0x01 || op == 0x11 || op == 0x21 || op == 0x31 ==> 4 * #[trigger] primary_descriptor(
                op,
            ).cycles == 12,
        4 * primary_descriptor(0x04).cycles == 4,
        4 * primary_descriptor(0x34).cycles == 12,
        4 * primary_descriptor(0xCD).cycles == 24,
        4 * primary_descriptor(0xC4).cycles == 12 && 4 * primary_descriptor(0xC4).cycles_taken == 24,
        4 * primary_descriptor(0xC9).cycles == 16,
        4 * primary_descriptor(0x20).cycles == 8 && 4 * primary_descriptor(0x20).cycles_taken == 12,
        spec_execute(CpuState { opcode: 0x01, ..s }) matches Some((_, c)) && c == 12,
        spec_execute(CpuState { opcode: 0x04, ..s }) matches Some((_, c)) && c == 4,
        spec_execute(CpuState { opcode: 0x34, ..s }) matches Some((_, c)) && c == 12,
        spec_execute(CpuState { opcode: 0xCD, ..s }) matches Some((_, c)) && c == 24,
        spec_execute(CpuState { opcode: 0xC4, ..s }) matches Some((_, c)) && c == (if s.condition(0) {
            24u8
        } else {
            12u8
        }),
        spec_execute(CpuState { opcode: 0xC9, ..s }) matches Some((_, c)) && c == 16,
        spec_execute(CpuState { opcode: 0x20, ..s }) matches Some((_, c)) && c == (if s.condition(0) {
            12u8
        } else {
            8u8
        }),
        spec_interrupt(s).1 == 0 || spec_interrupt(s).1 == 20,
{
}

/// No instruction takes more than 24 cycles.
pub proof fn lemma_execute_cycles(s: CpuState)
    ensures
        spec_execute(s) matches Some((_, c)) ==> c <= 24,
{
}

/// No step takes more than 44 cycles: 24 for the instruction, 20 for an interrupt.
pub proof fn lemma_step_cycles(s: CpuState)
    ensures
        spec_step(s) matches Ok((_, c)) ==> c <= 44,
{
    reveal(spec_step);
    let op = s.imm8();
    lemma_execute_cycles(CpuState { opcode: op, ..s.advance_pc(1) });
}

/// `n` steps take at most 44 cycles each.
pub proof fn lemma_run_cycles(s: CpuState, n: nat)
    ensures
        spec_run(s, n) matches Ok((_, c)) ==> 0 <= c <= 44 * n,
    decreases n,
{
    if n > 0 {
        lemma_step_cycles(s);
        if let Ok((t, _)) = spec_step(s) {
            lemma_run_cycles(t, (n - 1) as nat);
        }
    }
}

impl Cpu {
    /// Decodes the opcode at PC without changing anything.
    pub fn decode(&self) -> (r: Instruction)
        requires
            self.wf(),
        ensures
            r == primary_descriptor(self@.imm8()),
    {
        get_instruction_by_opcode(self.bus.mem_read(self.registers.pc))
    }

    /// Executes `opcode` as if just fetched (PC is past it); returns its cycles.
    pub fn execute(&mut self, opcode: u8) -> (r: Result<u8, CpuError>)
        requires
            old(self).wf(),
        ensures
            final(self).wf(),
            r is Err <==> primary_descriptor(opcode).instruction_type == InstructionType::NONE,
            match spec_execute(CpuState { opcode, ..old(self)@ }) {
                Some((t, c)) => r == Ok::<u8, CpuError>(c) && final(self)@ == t,
                None => r == Err::<u8, CpuError>(
                    CpuError::IllegalOpcode {
                        address: crate::cpu::wrap16(old(self).registers.pc, -1),
                        opcode,
                    },
                ) && final(self)@ == (CpuState { opcode, ..old(self)@ }),
            },
    {
        proof {
            lemma_execute_defined(CpuState { opcode, ..old(self)@ });
        }
        self.current_opcode = opcode;
        let instruction = get_instruction_by_opcode(opcode);
        let m = instruction.addressing_mode;
        let unconditional = instruction.condition == ConditionType::Unconditional;
        let cycles = match instruction.instruction_type {
            InstructionType::NOP => 4,
            InstructionType::LD => {
                if m == AddressingMode::U16ToRegister {
                    ld_r16_imm16(self)
                } else if m == AddressingMode::RegisterToRegisterAddress {
                    if instruction.register_1 == RegisterType::HL {
                        ld_r8_r8(self)
                    } else if instruction.register_1 == RegisterType::C {
                        ldh_c_mem_a(self)
                    } else {
                        ld_r16_mem_a(self)
                    }
                } else if m == AddressingMode::RegisterAddressToRegister {
                    if instruction.register_2 == RegisterType::HL {
                        ld_r8_r8(self)
                    } else if instruction.register_2 == RegisterType::C {
                        ldh_a_c_mem(self)
                    } else {
                        ld_a_r16_mem(self)
                    }
                } else if m == AddressingMode::RegisterToU16Address {
                    if instruction.register_2 == RegisterType::SP {
                        ld_imm16_sp(self)
                    } else {
                        ld_imm16_mem_a(self)
                    }
                } else if m == AddressingMode::U8ToRegister || m == AddressingMode::U8ToRegisterAddress {
                    ld_r8_imm8(self)
                } else if m == AddressingMode::RegisterToRegister {
                    if instruction.register_1 == RegisterType::SP {
                        ld_sp_hl(self)
                    } else {
                        ld_r8_r8(self)
                    }
                } else if m == AddressingMode::RegisterToU8Address {
                    ldh_imm8_mem_a(self)
                } else if m == AddressingMode::U8AddressToRegister {
                    ldh_a_imm8_mem(self)
                } else if m == AddressingMode::U16AddressToRegister {
                    ld_a_imm16_mem(self)
                } else {
                    ld_hl_sp_imm8(self)
                }
            },
            InstructionType::INC => {
                let r1 = instruction.register_1;
                if m == AddressingMode::Register && (r1 == RegisterType::BC || r1 == RegisterType::DE
                    || r1 == RegisterType::HL || r1 == RegisterType::SP) {
                    inc_r16(self)
                } else {
                    inc_r8(self)
                }
            },
            InstructionType::DEC => {
                let r1 = instruction.register_1;
                if m == AddressingMode::Register && (r1 == RegisterType::BC || r1 == RegisterType::DE
                    || r1 == RegisterType::HL || r1 == RegisterType::SP) {
                    dec_r16(self)
                } else {
                    dec_r8(self)
                }
            },
            InstructionType::ADD => {
                if m == AddressingMode::I8 {
                    add_sp_imm8(self)
                } else if instruction.register_1 == RegisterType::HL {
                    add_hl_r16(self)
                } else if m == AddressingMode::U8ToRegister {
                    add_a_imm8(self)
                } else {
                    add_a_r8(self)
                }
            },
            InstructionType::ADC => {
                if m == AddressingMode::U8ToRegister {
                    adc_a_imm8(self)
                } else {
                    adc_a_r8(self)
                }
            },
            InstructionType::SUB => {
                if m == AddressingMode::U8ToRegister {
                    sub_a_imm8(self)
                } else {
                    sub_a_r8(self)
                }
            },
            InstructionType::SBC => {
                if m == AddressingMode::U8ToRegister {
                    sbc_a_imm8(self)
                } else {
                    sbc_a_r8(self)
                }
            },
            InstructionType::AND => {
                if m == AddressingMode::U8ToRegister {
                    and_a_imm8(self)
                } else {
                    and_a_r8(self)
                }
            },
            InstructionType::XOR => {
                if m == AddressingMode::U8ToRegister {
                    xor_a_imm8(self)
                } else {
                    xor_a_r8(self)
                }
            },
            InstructionType::OR => {
                if m == AddressingMode::U8ToRegister {
                    or_a_imm8(self)
                } else {
                    or_a_r8(self)
                }
            },
            InstructionType::CP => {
                if m == AddressingMode::U8ToRegister {
                    cp_a_imm8(self)
                } else {
                    cp_a_r8(self)
                }
            },
            InstructionType::RLCA | InstructionType::RRCA | InstructionType::RLA | InstructionType::RRA => {
                rotate_a(self)
            },
            InstructionType::DAA => daa(self),
            InstructionType::CPL => cpl(self),
            InstructionType::SCF => scf(self),
            InstructionType::CCF => ccf(self),
            InstructionType::STOP => stop(self),
            InstructionType::HALT => halt(self),
            InstructionType::DI => di(self),
            InstructionType::EI => ei(self),
            InstructionType::JR => {
                if unconditional {
                    jr_imm8(self)
                } else {
                    jr_cond_imm8(self)
                }
            },
            InstructionType::JP => {
                if m == AddressingMode::Register {
                    jp_hl(self)
                } else if unconditional {
                    jp_imm16(self)
                } else {
                    jp_cond_imm16(self)
                }
            },
            InstructionType::CALL => {
                if unconditional {
                    call_imm16(self)
                } else {
                    call_cond_imm16(self)
                }
            },
            InstructionType::RET => {
                if unconditional {
                    ret(self)
                } else {
                    ret_cond(self)
                }
            },
            InstructionType::RETI => reti(self),
            InstructionType::RST => rst_tgt3(self),
            InstructionType::PUSH => push_r16_stk(self),
            InstructionType::POP => pop_r16_stk(self),
            InstructionType::CB => prefix(self),
            _ => {
                return Err(
                    CpuError::IllegalOpcode { address: self.registers.pc.wrapping_sub(1), opcode },
                );
            },
        };
        Ok(cycles)
    }

    /// Runs one step (see `spec_step`) and returns the cycles it took.
    pub fn cycle(&mut self) -> (r: Result<u32, CpuError>)
        requires
            old(self).wf(),
        ensures
            final(self).wf(),
            match spec_step(old(self)@) {
                Ok((t, c)) => r == Ok::<u32, CpuError>(c) && final(self)@ == t,
                Err(e) => r == Err::<u32, CpuError>(e),
            },
    {
        reveal(spec_step);
        if self.halted || self.stopped {
            let c = self.handle_interrupt();
            return Ok(4 + c as u32);
        }
        let staged = self.ime_scheduled;
        let address = self.registers.pc;
        let opcode = self.fetch_byte();
        match self.execute(opcode) {
            Err(_) => Err(CpuError::IllegalOpcode { address, opcode }),
            Ok(c) => {
                if staged && self.ime_scheduled {
                    self.interrupt_master_enable = true;
                    self.ime_scheduled = false;
                }
                let i = self.handle_interrupt();
                Ok(c as u32 + i as u32)
            },
        }
    }

    /// Runs `steps` steps (see `spec_run`) and returns the cycles they took.
    pub fn run(&mut self, steps: u32) -> (r: Result<u64, CpuError>)
        requires
            old(self).wf(),
        ensures
            final(self).wf(),
            match spec_run(old(self)@, steps as nat) {
                Ok((t, c)) => r == Ok::<u64, CpuError>(c as u64) && final(self)@ == t,
                Err(e) => r == Err::<u64, CpuError>(e),
            },
    {
        let mut total: u64 = 0;
        let mut i: u32 = 0;
        while i < steps
            invariant
                self.wf(),
                i <= steps,
                total <= 44 * i,
                spec_run(old(self)@, steps as nat) == match spec_run(self@, (steps - i) as nat) {
                    Ok((t, c)) => Ok::<(CpuState, int), CpuError>((t, total + c)),
                    Err(e) => Err(e),
                },
            decreases steps - i,
        {
            proof {
                lemma_step_cycles(self@);
                lemma_run_cycles(old(self)@, steps as nat);
            }
            let c = self.cycle()?;
            total = total + c as u64;
            i = i + 1;
        }
        Ok(total)
    }
}

} // verus!
