use vstd::prelude::*;

use crate::cpu::CpuError;

verus! {

/// The shape of an instruction's operand fetch.
#[derive(Debug, Clone, Copy, PartialEq, Eq, Structural)]
pub enum AddressingMode {
    Implied,
    Register,
    RegisterAddress,
    RegisterToRegister,
    RegisterToRegisterAddress,
    RegisterToU8Address,
    RegisterToU16Address,
    RegisterAddressToRegister,
    RegisterPlusI8ToRegister,
    I8,
    U8,
    U8ToRegister,
    U8ToRegisterAddress,
    U8AddressToRegister,
    U16,
    U16ToRegister,
    U16AddressToRegister,
}

/// An operand register tag (`Unused` where the slot is empty). `HLI` and `HLD` address memory through HL and then
/// increment or decrement it.
#[derive(Debug, Clone, Copy, PartialEq, Eq, Structural)]
pub enum RegisterType {
    Unused,
    A,
    F,
    B,
    C,
    D,
    E,
    H,
    L,
    AF,
    BC,
    DE,
    HL,
    HLI,
    HLD,
    SP,
    PC,
}

/// The condition of a conditional jump, call or return.
#[derive(Debug, Clone, Copy, PartialEq, Eq, Structural)]
pub enum ConditionType {
    Unconditional,
    NZ,
    Z,
    NC,
    C,
}

/// The operation kind of an instruction. `NONE` marks an illegal opcode.
#[derive(Debug, Clone, Copy, PartialEq, Eq, Structural)]
pub enum InstructionType {
    NONE,
    NOP,
    LD,
    INC,
    DEC,
    RLCA,
    ADD,
    RRCA,
    STOP,
    RLA,
    JR,
    RRA,
    DAA,
    CPL,
    SCF,
    CCF,
    HALT,
    ADC,
    SUB,
    SBC,
    AND,
    XOR,
    OR,
    CP,
    POP,
    JP,
    PUSH,
    RET,
    CB,
    CALL,
    RETI,
    DI,
    EI,
    RST,
    RLC,
    RRC,
    RL,
    RR,
    SLA,
    SRA,
    SWAP,
    SRL,
    BIT,
    RES,
    SET,
}

/// An instruction descriptor. `cycles` is the cost in machine cycles (4 clock
/// ticks each) when no branch is taken; `cycles_taken` is the cost when a
/// conditional branch is taken (equal to `cycles` for every other instruction).
/// The cost of a prefixed instruction includes the prefix byte.
#[derive(Debug, Clone, Copy, PartialEq, Eq)]
pub struct Instruction {
    pub instruction_type: InstructionType,
    pub addressing_mode: AddressingMode,
    pub register_1: RegisterType,
    pub register_2: RegisterType,
    pub condition: ConditionType,
    pub parameter: Option<u8>,
    pub cycles: u8,
    pub cycles_taken: u8,
}

impl Instruction {
    pub fn new(
        instruction_type: InstructionType,
        addressing_mode: AddressingMode,
        register_1: RegisterType,
        register_2: RegisterType,
        condition: ConditionType,
        parameter: Option<u8>,
        cycles: u8,
        cycles_taken: u8,
    ) -> (r: Self)
        ensures
            r == (Instruction {
                instruction_type,
                addressing_mode,
                register_1,
                register_2,
                condition,
                parameter,
                cycles,
                cycles_taken,
            }),
    {
        Instruction {
            instruction_type,
            addressing_mode,
            register_1,
            register_2,
            condition,
            parameter,
            cycles,
            cycles_taken,
        }
    }
}

/// A descriptor without condition or parameter.
pub open spec fn plain(
    t: InstructionType,
    m: AddressingMode,
    r1: RegisterType,
    r2: RegisterType,
    cycles: u8,
) -> Instruction {
    Instruction {
        instruction_type: t,
        addressing_mode: m,
        register_1: r1,
        register_2: r2,
        condition: ConditionType::Unconditional,
        parameter: None,
        cycles,
        cycles_taken: cycles,
    }
}

/// A descriptor with no operand at all.
pub open spec fn implied(t: InstructionType, cycles: u8) -> Instruction {
    plain(t, AddressingMode::Implied, RegisterType::Unused, RegisterType::Unused, cycles)
}

/// A conditional branch descriptor.
pub open spec fn branch(t: InstructionType, m: AddressingMode, cond: ConditionType, cycles: u8, taken: u8) -> Instruction {
    Instruction {
        instruction_type: t,
        addressing_mode: m,
        register_1: RegisterType::Unused,
        register_2: RegisterType::Unused,
        condition: cond,
        parameter: None,
        cycles,
        cycles_taken: taken,
    }
}

/// The descriptor of an illegal opcode.
pub open spec fn illegal() -> Instruction {
    implied(InstructionType::NONE, 1)
}

/// The 8-bit operand encoded by three opcode bits; 6 is the byte addressed by HL.
pub open spec fn r8_tag(i: u8) -> RegisterType {
    if i == 0 {
        RegisterType::B
    } else if i == 1 {
        RegisterType::C
    } else if i == 2 {
        RegisterType::D
    } else if i == 3 {
        RegisterType::E
    } else if i == 4 {
        RegisterType::H
    } else if i == 5 {
        RegisterType::L
    } else if i == 6 {
        RegisterType::HL
    } else {
        RegisterType::A
    }
}

/// The register pair encoded by two opcode bits, with SP as the fourth.
pub open spec fn r16_tag(p: u8) -> RegisterType {
    if p == 0 {
        RegisterType::BC
    } else if p == 1 {
        RegisterType::DE
    } else if p == 2 {
        RegisterType::HL
    } else {
        RegisterType::SP
    }
}

/// The register pair encoded by two opcode bits, with AF as the fourth (stack forms).
pub open spec fn r16_stack_tag(p: u8) -> RegisterType {
    if p == 3 {
        RegisterType::AF
    } else {
        r16_tag(p)
    }
}

/// The register pair encoded by two opcode bits in the indirect loads.
pub open spec fn r16_memory_tag(p: u8) -> RegisterType {
    if p == 0 {
        RegisterType::BC
    } else if p == 1 {
        RegisterType::DE
    } else if p == 2 {
        RegisterType::HLI
    } else {
        RegisterType::HLD
    }
}

/// The branch condition encoded by two opcode bits.
pub open spec fn condition_tag(c: u8) -> ConditionType {
    if c == 0 {
        ConditionType::NZ
    } else if c == 1 {
        ConditionType::Z
    } else if c == 2 {
        ConditionType::NC
    } else {
        ConditionType::C
    }
}

/// The accumulator operation encoded by three opcode bits.
pub open spec fn alu_kind(y: u8) -> InstructionType {
    if y == 0 {
        InstructionType::ADD
    } else if y == 1 {
        InstructionType::ADC
    } else if y == 2 {
        InstructionType::SUB
    } else if y == 3 {
        InstructionType::SBC
    } else if y == 4 {
        InstructionType::AND
    } else if y == 5 {
        InstructionType::XOR
    } else if y == 6 {
        InstructionType::OR
    } else {
        InstructionType::CP
    }
}

/// The one-byte accumulator operation encoded by three opcode bits.
pub open spec fn accumulator_kind(y: u8) -> InstructionType {
    if y == 0 {
        InstructionType::RLCA
    } else if y == 1 {
        InstructionType::RRCA
    } else if y == 2 {
        InstructionType::RLA
    } else if y == 3 {
        InstructionType::RRA
    } else if y == 4 {
        InstructionType::DAA
    } else if y == 5 {
        InstructionType::CPL
    } else if y == 6 {
        InstructionType::SCF
    } else {
        InstructionType::CCF
    }
}

/// The rotate or shift encoded by three bits of a prefixed opcode.
pub open spec fn shift_kind(y: u8) -> InstructionType {
    if y == 0 {
        InstructionType::RLC
    } else if y == 1 {
        InstructionType::RRC
    } else if y == 2 {
        InstructionType::RL
    } else if y == 3 {
        InstructionType::RR
    } else if y == 4 {
        InstructionType::SLA
    } else if y == 5 {
        InstructionType::SRA
    } else if y == 6 {
        InstructionType::SWAP
    } else {
        InstructionType::SRL
    }
}

/// The descriptor of every opcode of the primary table. The opcode is read as
/// `x = op / 64`, `y = op / 8 % 8`, `z = op % 8`, `p = y / 2`, `q = y % 2`.
pub open spec fn primary_descriptor(op: u8) -> Instruction {
    let x = op / 64;
    let y = op / 8 % 8;
    let z = op % 8;
    let p = y / 2;
    let q = y % 2;
    if x == 0 {
        if z == 0 {
            if y == 0 {
                implied(InstructionType::NOP, 1)
            } else if y == 1 {
                plain(InstructionType::LD, AddressingMode::RegisterToU16Address, RegisterType::Unused, RegisterType::SP, 5)
            } else if y == 2 {
                implied(InstructionType::STOP, 1)
            } else if y == 3 {
                plain(InstructionType::JR, AddressingMode::I8, RegisterType::Unused, RegisterType::Unused, 3)
            } else {
                branch(InstructionType::JR, AddressingMode::I8, condition_tag((y - 4) as u8), 2, 3)
            }
        } else if z == 1 {
            if q == 0 {
                plain(InstructionType::LD, AddressingMode::U16ToRegister, r16_tag(p), RegisterType::Unused, 3)
            } else {
                plain(InstructionType::ADD, AddressingMode::RegisterToRegister, RegisterType::HL, r16_tag(p), 2)
            }
        } else if z == 2 {
            if q == 0 {
                plain(InstructionType::LD, AddressingMode::RegisterToRegisterAddress, r16_memory_tag(p), RegisterType::A, 2)
            } else {
                plain(InstructionType::LD, AddressingMode::RegisterAddressToRegister, RegisterType::A, r16_memory_tag(p), 2)
            }
        } else if z == 3 {
            if q == 0 {
                plain(InstructionType::INC, AddressingMode::Register, r16_tag(p), RegisterType::Unused, 2)
            } else {
                plain(InstructionType::DEC, AddressingMode::Register, r16_tag(p), RegisterType::Unused, 2)
            }
        } else if z == 4 || z == 5 {
            let t = if z == 4 { InstructionType::INC } else { InstructionType::DEC };
            if y == 6 {
                plain(t, AddressingMode::RegisterAddress, RegisterType::HL, RegisterType::Unused, 3)
            } else {
                plain(t, AddressingMode::Register, r8_tag(y), RegisterType::Unused, 1)
            }
        } else if z == 6 {
            if y == 6 {
                plain(InstructionType::LD, AddressingMode::U8ToRegisterAddress, RegisterType::HL, RegisterType::Unused, 3)
            } else {
                plain(InstructionType::LD, AddressingMode::U8ToRegister, r8_tag(y), RegisterType::Unused, 2)
            }
        } else {
            implied(accumulator_kind(y), 1)
        }
    } else if x == 1 {
        if y == 6 && z == 6 {
            implied(InstructionType::HALT, 1)
        } else if z == 6 {
            plain(InstructionType::LD, AddressingMode::RegisterAddressToRegister, r8_tag(y), RegisterType::HL, 2)
        } else if y == 6 {
            plain(InstructionType::LD, AddressingMode::RegisterToRegisterAddress, RegisterType::HL, r8_tag(z), 2)
        } else {
            plain(InstructionType::LD, AddressingMode::RegisterToRegister, r8_tag(y), r8_tag(z), 1)
        }
    } else if x == 2 {
        if z == 6 {
            plain(alu_kind(y), AddressingMode::RegisterAddressToRegister, RegisterType::A, RegisterType::HL, 2)
        } else {
            plain(alu_kind(y), AddressingMode::RegisterToRegister, RegisterType::A, r8_tag(z), 1)
        }
    } else {
        if z == 0 {
            if y < 4 {
                branch(InstructionType::RET, AddressingMode::Implied, condition_tag(y), 2, 5)
            } else if y == 4 {
                plain(InstructionType::LD, AddressingMode::RegisterToU8Address, RegisterType::Unused, RegisterType::A, 3)
            } else if y == 5 {
                plain(InstructionType::ADD, AddressingMode::I8, RegisterType::SP, RegisterType::Unused, 4)
            } else if y == 6 {
                plain(InstructionType::LD, AddressingMode::U8AddressToRegister, RegisterType::A, RegisterType::Unused, 3)
            } else {
                plain(InstructionType::LD, AddressingMode::RegisterPlusI8ToRegister, RegisterType::HL, RegisterType::SP, 3)
            }
        } else if z == 1 {
            if q == 0 {
                plain(InstructionType::POP, AddressingMode::Register, r16_stack_tag(p), RegisterType::Unused, 3)
            } else if p == 0 {
                implied(InstructionType::RET, 4)
            } else if p == 1 {
                implied(InstructionType::RETI, 4)
            } else if p == 2 {
                plain(InstructionType::JP, AddressingMode::Register, RegisterType::HL, RegisterType::Unused, 1)
            } else {
                plain(InstructionType::LD, AddressingMode::RegisterToRegister, RegisterType::SP, RegisterType::HL, 2)
            }
        } else if z == 2 {
            if y < 4 {
                branch(InstructionType::JP, AddressingMode::U16, condition_tag(y), 3, 4)
            } else if y == 4 {
                plain(InstructionType::LD, AddressingMode::RegisterToRegisterAddress, RegisterType::C, RegisterType::A, 2)
            } else if y == 5 {
                plain(InstructionType::LD, AddressingMode::RegisterToU16Address, RegisterType::Unused, RegisterType::A, 4)
            } else if y == 6 {
                plain(InstructionType::LD, AddressingMode::RegisterAddressToRegister, RegisterType::A, RegisterType::C, 2)
            } else {
                plain(InstructionType::LD, AddressingMode::U16AddressToRegister, RegisterType::A, RegisterType::Unused, 4)
            }
        } else if z == 3 {
            if y == 0 {
                plain(InstructionType::JP, AddressingMode::U16, RegisterType::Unused, RegisterType::Unused, 4)
            } else if y == 1 {
                plain(InstructionType::CB, AddressingMode::U8, RegisterType::Unused, RegisterType::Unused, 1)
            } else if y == 6 {
                implied(InstructionType::DI, 1)
            } else if y == 7 {
                implied(InstructionType::EI, 1)
            } else {
                illegal()
            }
        } else if z == 4 {
            if y < 4 {
                branch(InstructionType::CALL, AddressingMode::U16, condition_tag(y), 3, 6)
            } else {
                illegal()
            }
        } else if z == 5 {
            if q == 0 {
                plain(InstructionType::PUSH, AddressingMode::Register, r16_stack_tag(p), RegisterType::Unused, 4)
            } else if p == 0 {
                plain(InstructionType::CALL, AddressingMode::U16, RegisterType::Unused, RegisterType::Unused, 6)
            } else {
                illegal()
            }
        } else if z == 6 {
            plain(alu_kind(y), AddressingMode::U8ToRegister, RegisterType::A, RegisterType::Unused, 2)
        } else {
            Instruction {
                instruction_type: InstructionType::RST,
                addressing_mode: AddressingMode::Implied,
                register_1: RegisterType::Unused,
                register_2: RegisterType::Unused,
                condition: ConditionType::Unconditional,
                parameter: Some((y * 8) as u8),
                cycles: 4,
                cycles_taken: 4,
            }
        }
    }
}

/// The descriptor of every opcode of the secondary table (after the 0xCB prefix).
pub open spec fn prefixed_descriptor(op: u8) -> Instruction {
    let x = op / 64;
    let y = op / 8 % 8;
    let z = op % 8;
    let memory = z == 6;
    let mode = if memory { AddressingMode::RegisterAddress } else { AddressingMode::Register };
    let cost: u8 = if !memory { 2 } else if x == 1 { 3 } else { 4 };
    let kind = if x == 0 {
        shift_kind(y)
    } else if x == 1 {
        InstructionType::BIT
    } else if x == 2 {
        InstructionType::RES
    } else {
        InstructionType::SET
    };
    Instruction {
        instruction_type: kind,
        addressing_mode: mode,
        register_1: r8_tag(z),
        register_2: RegisterType::Unused,
        condition: ConditionType::Unconditional,
        parameter: if x == 0 { None } else { Some(y) },
        cycles: cost,
        cycles_taken: cost,
    }
}

fn plain_exec(t: InstructionType, m: AddressingMode, r1: RegisterType, r2: RegisterType, cycles: u8) -> (r: Instruction)
    ensures
        r == plain(t, m, r1, r2, cycles),
{
    Instruction::new(t, m, r1, r2, ConditionType::Unconditional, None, cycles, cycles)
}

fn implied_exec(t: InstructionType, cycles: u8) -> (r: Instruction)
    ensures
        r == implied(t, cycles),
{
    plain_exec(t, AddressingMode::Implied, RegisterType::Unused, RegisterType::Unused, cycles)
}

fn branch_exec(t: InstructionType, m: AddressingMode, cond: ConditionType, cycles: u8, taken: u8) -> (r: Instruction)
    ensures
        r == branch(t, m, cond, cycles, taken),
{
    Instruction::new(t, m, RegisterType::Unused, RegisterType::Unused, cond, None, cycles, taken)
}

fn r8_type(i: u8) -> (r: RegisterType)
    ensures
        r == r8_tag(i),
{
    if i == 0 {
        RegisterType::B
    } else if i == 1 {
        RegisterType::C
    } else if i == 2 {
        RegisterType::D
    } else if i == 3 {
        RegisterType::E
    } else if i == 4 {
        RegisterType::H
    } else if i == 5 {
        RegisterType::L
    } else if i == 6 {
        RegisterType::HL
    } else {
        RegisterType::A
    }
}

fn r16_type(p: u8) -> (r: RegisterType)
    ensures
        r == r16_tag(p),
{
    if p == 0 {
        RegisterType::BC
    } else if p == 1 {
        RegisterType::DE
    } else if p == 2 {
        RegisterType::HL
    } else {
        RegisterType::SP
    }
}

fn r16_stack_type(p: u8) -> (r: RegisterType)
    ensures
        r == r16_stack_tag(p),
{
    if p == 3 {
        RegisterType::AF
    } else {
        r16_type(p)
    }
}

fn r16_memory_type(p: u8) -> (r: RegisterType)
    ensures
        r == r16_memory_tag(p),
{
    if p == 0 {
        RegisterType::BC
    } else if p == 1 {
        RegisterType::DE
    } else if p == 2 {
        RegisterType::HLI
    } else {
        RegisterType::HLD
    }
}

fn condition_type(c: u8) -> (r: ConditionType)
    ensures
        r == condition_tag(c),
{
    if c == 0 {
        ConditionType::NZ
    } else if c == 1 {
        ConditionType::Z
    } else if c == 2 {
        ConditionType::NC
    } else {
        ConditionType::C
    }
}

fn alu_type(y: u8) -> (r: InstructionType)
    ensures
        r == alu_kind(y),
{
    if y == 0 {
        InstructionType::ADD
    } else if y == 1 {
        InstructionType::ADC
    } else if y == 2 {
        InstructionType::SUB
    } else if y == 3 {
        InstructionType::SBC
    } else if y == 4 {
        InstructionType::AND
    } else if y == 5 {
        InstructionType::XOR
    } else if y == 6 {
        InstructionType::OR
    } else {
        InstructionType::CP
    }
}

fn accumulator_type(y: u8) -> (r: InstructionType)
    ensures
        r == accumulator_kind(y),
{
    if y == 0 {
        InstructionType::RLCA
    } else if y == 1 {
        InstructionType::RRCA
    } else if y == 2 {
        InstructionType::RLA
    } else if y == 3 {
        InstructionType::RRA
    } else if y == 4 {
        InstructionType::DAA
    } else if y == 5 {
        InstructionType::CPL
    } else if y == 6 {
        InstructionType::SCF
    } else {
        InstructionType::CCF
    }
}

fn shift_type(y: u8) -> (r: InstructionType)
    ensures
        r == shift_kind(y),
{
    if y == 0 {
        InstructionType::RLC
    } else if y == 1 {
        InstructionType::RRC
    } else if y == 2 {
        InstructionType::RL
    } else if y == 3 {
        InstructionType::RR
    } else if y == 4 {
        InstructionType::SLA
    } else if y == 5 {
        InstructionType::SRA
    } else if y == 6 {
        InstructionType::SWAP
    } else {
        InstructionType::SRL
    }
}

/// Decodes an opcode of the primary table. Every byte has a descriptor; illegal
/// opcodes decode to `InstructionType::NONE`.
pub fn get_instruction_by_opcode(opcode: u8) -> (r: Instruction)
    ensures
        r == primary_descriptor(opcode),
{
    let x = opcode / 64;
    let y = opcode / 8 % 8;
    let z = opcode % 8;
    let p = y / 2;
    let q = y % 2;
    if x == 0 {
        if z == 0 {
            if y == 0 {
                implied_exec(InstructionType::NOP, 1)
            } else if y == 1 {
                plain_exec(InstructionType::LD, AddressingMode::RegisterToU16Address, RegisterType::Unused, RegisterType::SP, 5)
            } else if y == 2 {
                implied_exec(InstructionType::STOP, 1)
            } else if y == 3 {
                plain_exec(InstructionType::JR, AddressingMode::I8, RegisterType::Unused, RegisterType::Unused, 3)
            } else {
                branch_exec(InstructionType::JR, AddressingMode::I8, condition_type(y - 4), 2, 3)
            }
        } else if z == 1 {
            if q == 0 {
                plain_exec(InstructionType::LD, AddressingMode::U16ToRegister, r16_type(p), RegisterType::Unused, 3)
            } else {
                plain_exec(InstructionType::ADD, AddressingMode::RegisterToRegister, RegisterType::HL, r16_type(p), 2)
            }
        } else if z == 2 {
            if q == 0 {
                plain_exec(InstructionType::LD, AddressingMode::RegisterToRegisterAddress, r16_memory_type(p), RegisterType::A, 2)
            } else {
                plain_exec(InstructionType::LD, AddressingMode::RegisterAddressToRegister, RegisterType::A, r16_memory_type(p), 2)
            }
        } else if z == 3 {
            if q == 0 {
                plain_exec(InstructionType::INC, AddressingMode::Register, r16_type(p), RegisterType::Unused, 2)
            } else {
                plain_exec(InstructionType::DEC, AddressingMode::Register, r16_type(p), RegisterType::Unused, 2)
            }
        } else if z == 4 || z == 5 {
            let t = if z == 4 { InstructionType::INC } else { InstructionType::DEC };
            if y == 6 {
                plain_exec(t, AddressingMode::RegisterAddress, RegisterType::HL, RegisterType::Unused, 3)
            } else {
                plain_exec(t, AddressingMode::Register, r8_type(y), RegisterType::Unused, 1)
            }
        } else if z == 6 {
            if y == 6 {
                plain_exec(InstructionType::LD, AddressingMode::U8ToRegisterAddress, RegisterType::HL, RegisterType::Unused, 3)
            } else {
                plain_exec(InstructionType::LD, AddressingMode::U8ToRegister, r8_type(y), RegisterType::Unused, 2)
            }
        } else {
            implied_exec(accumulator_type(y), 1)
        }
    } else if x == 1 {
        if y == 6 && z == 6 {
            implied_exec(InstructionType::HALT, 1)
        } else if z == 6 {
            plain_exec(InstructionType::LD, AddressingMode::RegisterAddressToRegister, r8_type(y), RegisterType::HL, 2)
        } else if y == 6 {
            plain_exec(InstructionType::LD, AddressingMode::RegisterToRegisterAddress, RegisterType::HL, r8_type(z), 2)
        } else {
            plain_exec(InstructionType::LD, AddressingMode::RegisterToRegister, r8_type(y), r8_type(z), 1)
        }
    } else if x == 2 {
        if z == 6 {
            plain_exec(alu_type(y), AddressingMode::RegisterAddressToRegister, RegisterType::A, RegisterType::HL, 2)
        } else {
            plain_exec(alu_type(y), AddressingMode::RegisterToRegister, RegisterType::A, r8_type(z), 1)
        }
    } else {
        if z == 0 {
            if y < 4 {
                branch_exec(InstructionType::RET, AddressingMode::Implied, condition_type(y), 2, 5)
            } else if y == 4 {
                plain_exec(InstructionType::LD, AddressingMode::RegisterToU8Address, RegisterType::Unused, RegisterType::A, 3)
            } else if y == 5 {
                plain_exec(InstructionType::ADD, AddressingMode::I8, RegisterType::SP, RegisterType::Unused, 4)
            } else if y == 6 {
                plain_exec(InstructionType::LD, AddressingMode::U8AddressToRegister, RegisterType::A, RegisterType::Unused, 3)
            } else {
                plain_exec(InstructionType::LD, AddressingMode::RegisterPlusI8ToRegister, RegisterType::HL, RegisterType::SP, 3)
            }
        } else if z == 1 {
            if q == 0 {
                plain_exec(InstructionType::POP, AddressingMode::Register, r16_stack_type(p), RegisterType::Unused, 3)
            } else if p == 0 {
                implied_exec(InstructionType::RET, 4)
            } else if p == 1 {
                implied_exec(InstructionType::RETI, 4)
            } else if p == 2 {
                plain_exec(InstructionType::JP, AddressingMode::Register, RegisterType::HL, RegisterType::Unused, 1)
            } else {
                plain_exec(InstructionType::LD, AddressingMode::RegisterToRegister, RegisterType::SP, RegisterType::HL, 2)
            }
        } else if z == 2 {
            if y < 4 {
                branch_exec(InstructionType::JP, AddressingMode::U16, condition_type(y), 3, 4)
            } else if y == 4 {
                plain_exec(InstructionType::LD, AddressingMode::RegisterToRegisterAddress, RegisterType::C, RegisterType::A, 2)
            } else if y == 5 {
                plain_exec(InstructionType::LD, AddressingMode::RegisterToU16Address, RegisterType::Unused, RegisterType::A, 4)
            } else if y == 6 {
                plain_exec(InstructionType::LD, AddressingMode::RegisterAddressToRegister, RegisterType::A, RegisterType::C, 2)
            } else {
                plain_exec(InstructionType::LD, AddressingMode::U16AddressToRegister, RegisterType::A, RegisterType::Unused, 4)
            }
        } else if z == 3 {
            if y == 0 {
                plain_exec(InstructionType::JP, AddressingMode::U16, RegisterType::Unused, RegisterType::Unused, 4)
            } else if y == 1 {
                plain_exec(InstructionType::CB, AddressingMode::U8, RegisterType::Unused, RegisterType::Unused, 1)
            } else if y == 6 {
                implied_exec(InstructionType::DI, 1)
            } else if y == 7 {
                implied_exec(InstructionType::EI, 1)
            } else {
                implied_exec(InstructionType::NONE, 1)
            }
        } else if z == 4 {
            if y < 4 {
                branch_exec(InstructionType::CALL, AddressingMode::U16, condition_type(y), 3, 6)
            } else {
                implied_exec(InstructionType::NONE, 1)
            }
        } else if z == 5 {
            if q == 0 {
                plain_exec(InstructionType::PUSH, AddressingMode::Register, r16_stack_type(p), RegisterType::Unused, 4)
            } else if p == 0 {
                plain_exec(InstructionType::CALL, AddressingMode::U16, RegisterType::Unused, RegisterType::Unused, 6)
            } else {
                implied_exec(InstructionType::NONE, 1)
            }
        } else if z == 6 {
            plain_exec(alu_type(y), AddressingMode::U8ToRegister, RegisterType::A, RegisterType::Unused, 2)
        } else {
            Instruction::new(
                InstructionType::RST,
                AddressingMode::Implied,
                RegisterType::Unused,
                RegisterType::Unused,
                ConditionType::Unconditional,
                Some(y * 8),
                4,
                4,
            )
        }
    }
}

/// Decodes an opcode of the secondary table (the byte after the 0xCB prefix).
pub fn get_prefixed_instruction_by_opcode(opcode: u8) -> (r: Instruction)
    ensures
        r == prefixed_descriptor(opcode),
{
    let x = opcode / 64;
    let y = opcode / 8 % 8;
    let z = opcode % 8;
    let memory = z == 6;
    let mode = if memory { AddressingMode::RegisterAddress } else { AddressingMode::Register };
    let cost: u8 = if !memory { 2 } else if x == 1 { 3 } else { 4 };
    let kind = if x == 0 {
        shift_type(y)
    } else if x == 1 {
        InstructionType::BIT
    } else if x == 2 {
        InstructionType::RES
    } else {
        InstructionType::SET
    };
    let parameter = if x == 0 { None } else { Some(y) };
    Instruction::new(kind, mode, r8_type(z), RegisterType::Unused, ConditionType::Unconditional, parameter, cost, cost)
}


/// The name of an operation kind, as written in assembly.
pub open spec fn mnemonic(t: InstructionType) -> &'static str {
    match t {
        InstructionType::NONE => "NONE",
        InstructionType::NOP => "NOP",
        InstructionType::LD => "LD",
        InstructionType::INC => "INC",
        InstructionType::DEC => "DEC",
        InstructionType::RLCA => "RLCA",
        InstructionType::ADD => "ADD",
        InstructionType::RRCA => "RRCA",
        InstructionType::STOP => "STOP",
        InstructionType::RLA => "RLA",
        InstructionType::JR => "JR",
        InstructionType::RRA => "RRA",
        InstructionType::DAA => "DAA",
        InstructionType::CPL => "CPL",
        InstructionType::SCF => "SCF",
        InstructionType::CCF => "CCF",
        InstructionType::HALT => "HALT",
        InstructionType::ADC => "ADC",
        InstructionType::SUB => "SUB",
        InstructionType::SBC => "SBC",
        InstructionType::AND => "AND",
        InstructionType::XOR => "XOR",
        InstructionType::OR => "OR",
        InstructionType::CP => "CP",
        InstructionType::POP => "POP",
        InstructionType::JP => "JP",
        InstructionType::PUSH => "PUSH",
        InstructionType::RET => "RET",
        InstructionType::CB => "CB",
        InstructionType::CALL => "CALL",
        InstructionType::RETI => "RETI",
        InstructionType::DI => "DI",
        InstructionType::EI => "EI",
        InstructionType::RST => "RST",
        InstructionType::RLC => "RLC",
        InstructionType::RRC => "RRC",
        InstructionType::RL => "RL",
        InstructionType::RR => "RR",
        InstructionType::SLA => "SLA",
        InstructionType::SRA => "SRA",
        InstructionType::SWAP => "SWAP",
        InstructionType::SRL => "SRL",
        InstructionType::BIT => "BIT",
        InstructionType::RES => "RES",
        InstructionType::SET => "SET",
    }
}

fn mnemonic_str(t: InstructionType) -> (r: &'static str)
    ensures
        r == mnemonic(t),
{
    match t {
        InstructionType::NONE => "NONE",
        InstructionType::NOP => "NOP",
        InstructionType::LD => "LD",
        InstructionType::INC => "INC",
        InstructionType::DEC => "DEC",
        InstructionType::RLCA => "RLCA",
        InstructionType::ADD => "ADD",
        InstructionType::RRCA => "RRCA",
        InstructionType::STOP => "STOP",
        InstructionType::RLA => "RLA",
        InstructionType::JR => "JR",
        InstructionType::RRA => "RRA",
        InstructionType::DAA => "DAA",
        InstructionType::CPL => "CPL",
        InstructionType::SCF => "SCF",
        InstructionType::CCF => "CCF",
        InstructionType::HALT => "HALT",
        InstructionType::ADC => "ADC",
        InstructionType::SUB => "SUB",
        InstructionType::SBC => "SBC",
        InstructionType::AND => "AND",
        InstructionType::XOR => "XOR",
        InstructionType::OR => "OR",
        InstructionType::CP => "CP",
        InstructionType::POP => "POP",
        InstructionType::JP => "JP",
        InstructionType::PUSH => "PUSH",
        InstructionType::RET => "RET",
        InstructionType::CB => "CB",
        InstructionType::CALL => "CALL",
        InstructionType::RETI => "RETI",
        InstructionType::DI => "DI",
        InstructionType::EI => "EI",
        InstructionType::RST => "RST",
        InstructionType::RLC => "RLC",
        InstructionType::RRC => "RRC",
        InstructionType::RL => "RL",
        InstructionType::RR => "RR",
        InstructionType::SLA => "SLA",
        InstructionType::SRA => "SRA",
        InstructionType::SWAP => "SWAP",
        InstructionType::SRL => "SRL",
        InstructionType::BIT => "BIT",
        InstructionType::RES => "RES",
        InstructionType::SET => "SET",
    }
}

/// The assembly name of an operation kind.
pub fn instruction_name(instruction_type: &InstructionType) -> (r: String)
    ensures
        r@ == mnemonic(*instruction_type)@,
{
    mnemonic_str(*instruction_type).to_owned()
}

/// An 8-bit operand as encoded by three opcode bits; `HLMem` is the byte addressed by HL.
#[derive(Debug, Clone, Copy, PartialEq, Eq, Structural)]
pub enum R8 {
    B,
    C,
    D,
    E,
    H,
    L,
    HLMem,
    A,
}

impl R8 {
    /// The three-bit encoding of the operand.
    pub open spec fn index(self) -> u8 {
        match self {
            R8::B => 0,
            R8::C => 1,
            R8::D => 2,
            R8::E => 3,
            R8::H => 4,
            R8::L => 5,
            R8::HLMem => 6,
            R8::A => 7,
        }
    }

    /// Decodes `value`; a value of 8 or more is an internal inconsistency
    /// and is reported as such.
    pub fn get_register(value: u8) -> (r: Result<R8, CpuError>)
        ensures
            value < 8 ==> (r matches Ok(x) && x.index() == value),
            value >= 8 ==> r == Err::<R8, CpuError>(CpuError::InvalidOperand { value }),
    {
        if value < 8 {
            Ok(R8::from_index(value))
        } else {
            Err(CpuError::InvalidOperand { value })
        }
    }

    /// Decodes `value`, which the opcode bits keep below 8.
    pub(crate) fn from_index(value: u8) -> (r: R8)
        requires
            value < 8,
        ensures
            r.index() == value,
    {
        match value {
            0 => R8::B,
            1 => R8::C,
            2 => R8::D,
            3 => R8::E,
            4 => R8::H,
            5 => R8::L,
            6 => R8::HLMem,
            _ => R8::A,
        }
    }
}

/// A register pair as encoded by two opcode bits, with SP as the fourth.
#[derive(Debug, Clone, Copy, PartialEq, Eq, Structural)]
pub enum R16 {
    BC,
    DE,
    HL,
    SP,
}

impl R16 {
    pub open spec fn index(self) -> u8 {
        match self {
            R16::BC => 0,
            R16::DE => 1,
            R16::HL => 2,
            R16::SP => 3,
        }
    }

    /// Decodes `value`; a value of 4 or more is an internal inconsistency
    /// and is reported as such.
    pub fn get_register(value: u8) -> (r: Result<R16, CpuError>)
        ensures
            value < 4 ==> (r matches Ok(x) && x.index() == value),
            value >= 4 ==> r == Err::<R16, CpuError>(CpuError::InvalidOperand { value }),
    {
        if value < 4 {
            Ok(R16::from_index(value))
        } else {
            Err(CpuError::InvalidOperand { value })
        }
    }

    /// Decodes `value`, which the opcode bits keep below 4.
    pub(crate) fn from_index(value: u8) -> (r: R16)
        requires
            value < 4,
        ensures
            r.index() == value,
    {
        match value {
            0 => R16::BC,
            1 => R16::DE,
            2 => R16::HL,
            _ => R16::SP,
        }
    }
}

/// A register pair of the stack instructions, with AF as the fourth.
#[derive(Debug, Clone, Copy, PartialEq, Eq, Structural)]
pub enum R16Stack {
    BC,
    DE,
    HL,
    AF,
}

impl R16Stack {
    pub open spec fn index(self) -> u8 {
        match self {
            R16Stack::BC => 0,
            R16Stack::DE => 1,
            R16Stack::HL => 2,
            R16Stack::AF => 3,
        }
    }

    /// Decodes `value`; a value of 4 or more is an internal inconsistency
    /// and is reported as such.
    pub fn get_register(value: u8) -> (r: Result<R16Stack, CpuError>)
        ensures
            value < 4 ==> (r matches Ok(x) && x.index() == value),
            value >= 4 ==> r == Err::<R16Stack, CpuError>(CpuError::InvalidOperand { value }),
    {
        if value < 4 {
            Ok(R16Stack::from_index(value))
        } else {
            Err(CpuError::InvalidOperand { value })
        }
    }

    /// Decodes `value`, which the opcode bits keep below 4.
    pub(crate) fn from_index(value: u8) -> (r: R16Stack)
        requires
            value < 4,
        ensures
            r.index() == value,
    {
        match value {
            0 => R16Stack::BC,
            1 => R16Stack::DE,
            2 => R16Stack::HL,
            _ => R16Stack::AF,
        }
    }
}

/// The address register of the indirect accumulator loads; `HLI` and `HLD`
/// increment or decrement HL after the access.
#[derive(Debug, Clone, Copy, PartialEq, Eq, Structural)]
pub enum R16Memory {
    BC,
    DE,
    HLI,
    HLD,
}

impl R16Memory {
    pub open spec fn index(self) -> u8 {
        match self {
            R16Memory::BC => 0,
            R16Memory::DE => 1,
            R16Memory::HLI => 2,
            R16Memory::HLD => 3,
        }
    }

    /// Decodes `value`; a value of 4 or more is an internal inconsistency
    /// and is reported as such.
    pub fn get_register(value: u8) -> (r: Result<R16Memory, CpuError>)
        ensures
            value < 4 ==> (r matches Ok(x) && x.index() == value),
            value >= 4 ==> r == Err::<R16Memory, CpuError>(CpuError::InvalidOperand { value }),
    {
        if value < 4 {
            Ok(R16Memory::from_index(value))
        } else {
            Err(CpuError::InvalidOperand { value })
        }
    }

    /// Decodes `value`, which the opcode bits keep below 4.
    pub(crate) fn from_index(value: u8) -> (r: R16Memory)
        requires
            value < 4,
        ensures
            r.index() == value,
    {
        match value {
            0 => R16Memory::BC,
            1 => R16Memory::DE,
            2 => R16Memory::HLI,
            _ => R16Memory::HLD,
        }
    }
}

/// A branch condition: Zero or Carry clear or set.
#[derive(Debug, Clone, Copy, PartialEq, Eq, Structural)]
pub enum Condition {
    NZ,
    Z,
    NC,
    C,
}

impl Condition {
    pub open spec fn index(self) -> u8 {
        match self {
            Condition::NZ => 0,
            Condition::Z => 1,
            Condition::NC => 2,
            Condition::C => 3,
        }
    }

    /// Decodes `value`; a value of 4 or more is an internal inconsistency
    /// and is reported as such.
    pub fn get_condtion(value: u8) -> (r: Result<Condition, CpuError>)
        ensures
            value < 4 ==> (r matches Ok(x) && x.index() == value),
            value >= 4 ==> r == Err::<Condition, CpuError>(CpuError::InvalidOperand { value }),
    {
        if value < 4 {
            Ok(Condition::from_index(value))
        } else {
            Err(CpuError::InvalidOperand { value })
        }
    }

    /// Decodes `value`, which the opcode bits keep below 4.
    pub(crate) fn from_index(value: u8) -> (r: Condition)
        requires
            value < 4,
        ensures
            r.index() == value,
    {
        match value {
            0 => Condition::NZ,
            1 => Condition::Z,
            2 => Condition::NC,
            _ => Condition::C,
        }
    }
}

} // verus!
