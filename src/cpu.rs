use vstd::prelude::*;

use crate::bus::{next_address, Bus};
use crate::instructions::{Condition, R16Memory, R16Stack, R16, R8};
use crate::registers::{bit_c, bit_z, high_byte, low_byte, word, Registers};

verus! {

/// The mathematical state of the processor: registers, the 64 KiB address
/// space, the opcode being executed and the control flags.
pub struct CpuState {
    pub registers: Registers,
    pub memory: Seq<u8>,
    pub opcode: u8,
    pub halted: bool,
    pub stopped: bool,
    pub ime: bool,
    pub ime_scheduled: bool,
}

/// `v` plus `k`, wrapping within 16 bits.
pub open spec fn wrap16(v: u16, k: int) -> u16 {
    ((v as int + k) % 65536) as u16
}

impl CpuState {
    pub open spec fn wf(self) -> bool {
        self.memory.len() == 0x10000 && self.registers.wf()
    }

    pub open spec fn read(self, address: u16) -> u8 {
        self.memory[address as int]
    }

    pub open spec fn write(self, address: u16, v: u8) -> CpuState {
        CpuState { memory: self.memory.update(address as int, v), ..self }
    }

    pub open spec fn with_registers(self, r: Registers) -> CpuState {
        CpuState { registers: r, ..self }
    }

    /// This state with A and F replaced.
    pub open spec fn with_acc(self, a: u8, f: u8) -> CpuState {
        self.with_registers(Registers { a, f, ..self.registers })
    }

    pub open spec fn with_a(self, a: u8) -> CpuState {
        self.with_registers(Registers { a, ..self.registers })
    }

    pub open spec fn with_f(self, f: u8) -> CpuState {
        self.with_registers(Registers { f, ..self.registers })
    }

    pub open spec fn with_pc(self, pc: u16) -> CpuState {
        self.with_registers(Registers { pc, ..self.registers })
    }

    pub open spec fn with_sp(self, sp: u16) -> CpuState {
        self.with_registers(Registers { sp, ..self.registers })
    }

    /// This state with PC moved forward by `n` bytes.
    pub open spec fn advance_pc(self, n: int) -> CpuState {
        self.with_pc(wrap16(self.registers.pc, n))
    }

    pub open spec fn hl(self) -> u16 {
        self.registers.spec_hl()
    }

    /// The 8-bit operand with encoding `i`; 6 is the byte addressed by HL.
    pub open spec fn r8(self, i: u8) -> u8 {
        let r = self.registers;
        if i == 0 {
            r.b
        } else if i == 1 {
            r.c
        } else if i == 2 {
            r.d
        } else if i == 3 {
            r.e
        } else if i == 4 {
            r.h
        } else if i == 5 {
            r.l
        } else if i == 6 {
            self.read(self.hl())
        } else {
            r.a
        }
    }

    /// This state with the 8-bit operand of encoding `i` set to `v`.
    pub open spec fn set_r8(self, i: u8, v: u8) -> CpuState {
        let r = self.registers;
        if i == 0 {
            self.with_registers(Registers { b: v, ..r })
        } else if i == 1 {
            self.with_registers(Registers { c: v, ..r })
        } else if i == 2 {
            self.with_registers(Registers { d: v, ..r })
        } else if i == 3 {
            self.with_registers(Registers { e: v, ..r })
        } else if i == 4 {
            self.with_registers(Registers { h: v, ..r })
        } else if i == 5 {
            self.with_registers(Registers { l: v, ..r })
        } else if i == 6 {
            self.write(self.hl(), v)
        } else {
            self.with_registers(Registers { a: v, ..r })
        }
    }

    /// The register pair of encoding `p` (BC, DE, HL, SP).
    pub open spec fn r16(self, p: u8) -> u16 {
        if p == 0 {
            self.registers.spec_bc()
        } else if p == 1 {
            self.registers.spec_de()
        } else if p == 2 {
            self.registers.spec_hl()
        } else {
            self.registers.sp
        }
    }

    pub open spec fn set_r16(self, p: u8, v: u16) -> CpuState {
        if p == 0 {
            self.with_registers(self.registers.with_bc(v))
        } else if p == 1 {
            self.with_registers(self.registers.with_de(v))
        } else if p == 2 {
            self.with_registers(self.registers.with_hl(v))
        } else {
            self.with_sp(v)
        }
    }

    /// The register pair of encoding `p` in the stack forms (BC, DE, HL, AF).
    pub open spec fn r16_stack(self, p: u8) -> u16 {
        if p == 3 {
            self.registers.spec_af()
        } else {
            self.r16(p)
        }
    }

    pub open spec fn set_r16_stack(self, p: u8, v: u16) -> CpuState {
        if p == 3 {
            self.with_registers(self.registers.with_af(v))
        } else {
            self.set_r16(p, v)
        }
    }

    /// The address used by the indirect accumulator loads of encoding `p`.
    pub open spec fn r16_memory_address(self, p: u8) -> u16 {
        if p == 0 {
            self.registers.spec_bc()
        } else if p == 1 {
            self.registers.spec_de()
        } else {
            self.hl()
        }
    }

    /// HL after an indirect accumulator load of encoding `p` (incremented for 2,
    /// decremented for 3, unchanged otherwise).
    pub open spec fn after_r16_memory(self, p: u8) -> CpuState {
        if p == 2 {
            self.with_registers(self.registers.with_hl(wrap16(self.hl(), 1)))
        } else if p == 3 {
            self.with_registers(self.registers.with_hl(wrap16(self.hl(), -1)))
        } else {
            self
        }
    }

    /// The byte after the opcode.
    pub open spec fn imm8(self) -> u8 {
        self.read(self.registers.pc)
    }

    /// The little-endian word after the opcode.
    pub open spec fn imm16(self) -> u16 {
        word(self.read(next_address(self.registers.pc)), self.read(self.registers.pc))
    }

    /// This state with `v` pushed: high byte at SP-1, low byte at SP-2, SP lowered by two.
    pub open spec fn push(self, v: u16) -> CpuState {
        let sp = self.registers.sp;
        self.write(wrap16(sp, -1), high_byte(v)).write(wrap16(sp, -2), low_byte(v)).with_sp(wrap16(sp, -2))
    }

    /// The word on top of the stack.
    pub open spec fn top(self) -> u16 {
        word(self.read(wrap16(self.registers.sp, 1)), self.read(self.registers.sp))
    }

    /// This state with the top word popped.
    pub open spec fn pop(self) -> CpuState {
        self.with_sp(wrap16(self.registers.sp, 2))
    }

    /// Whether the branch condition of encoding `c` holds (NZ, Z, NC, C).
    pub open spec fn condition(self, c: u8) -> bool {
        let f = self.registers.f;
        if c == 0 {
            !bit_z(f)
        } else if c == 1 {
            bit_z(f)
        } else if c == 2 {
            !bit_c(f)
        } else {
            bit_c(f)
        }
    }
}

/// Why execution cannot go on.
#[derive(Debug, Clone, Copy, PartialEq, Eq, Structural)]
pub enum CpuError {
    /// The opcode at `address` has no defined behaviour.
    IllegalOpcode { address: u16, opcode: u8 },
    /// An operand field decoded to a value outside its encoding: an internal
    /// inconsistency of the decoder.
    InvalidOperand { value: u8 },
}

/// The execution engine: registers, the memory bus and the control state.
pub struct Cpu {
    pub registers: Registers,
    pub bus: Bus,
    pub current_opcode: u8,
    pub halted: bool,
    pub stopped: bool,
    pub interrupt_master_enable: bool,
    pub ime_scheduled: bool,
}

impl View for Cpu {
    type V = CpuState;

    open spec fn view(&self) -> CpuState {
        CpuState {
            registers: self.registers,
            memory: self.bus@,
            opcode: self.current_opcode,
            halted: self.halted,
            stopped: self.stopped,
            ime: self.interrupt_master_enable,
            ime_scheduled: self.ime_scheduled,
        }
    }
}

impl Cpu {
    pub open spec fn wf(&self) -> bool {
        self.bus.wf() && self.registers.wf()
    }

    /// A running processor with interrupts disabled.
    pub fn new(bus: Bus, registers: Registers) -> (r: Cpu)
        ensures
            r.registers == registers,
            r.bus@ == bus@,
            r.current_opcode == 0,
            !r.halted,
            !r.stopped,
            !r.interrupt_master_enable,
            !r.ime_scheduled,
    {
        Cpu {
            registers,
            bus,
            current_opcode: 0,
            halted: false,
            stopped: false,
            interrupt_master_enable: false,
            ime_scheduled: false,
        }
    }

    /// Reads the byte at PC and moves PC past it.
    pub fn fetch_byte(&mut self) -> (r: u8)
        requires
            old(self).wf(),
        ensures
            final(self).wf(),
            r == old(self)@.imm8(),
            final(self)@ == old(self)@.advance_pc(1),
    {
        let byte = self.bus.mem_read(self.registers.pc);
        self.registers.pc = self.registers.pc.wrapping_add(1);
        byte
    }

    /// Reads the little-endian word at PC and moves PC past it.
    pub fn fetch_word(&mut self) -> (r: u16)
        requires
            old(self).wf(),
        ensures
            final(self).wf(),
            r == old(self)@.imm16(),
            final(self)@ == old(self)@.advance_pc(2),
    {
        let word = self.bus.mem_read_16(self.registers.pc);
        self.registers.pc = self.registers.pc.wrapping_add(2);
        word
    }

    pub fn read_r8(&self, register: R8) -> (r: u8)
        requires
            self.wf(),
        ensures
            r == self@.r8(register.index()),
    {
        match register {
            R8::B => self.registers.b,
            R8::C => self.registers.c,
            R8::D => self.registers.d,
            R8::E => self.registers.e,
            R8::H => self.registers.h,
            R8::L => self.registers.l,
            R8::HLMem => self.bus.mem_read(self.registers.hl()),
            R8::A => self.registers.a,
        }
    }

    pub fn write_r8(&mut self, register: R8, value: u8)
        requires
            old(self).wf(),
        ensures
            final(self).wf(),
            final(self)@ == old(self)@.set_r8(register.index(), value),
    {
        match register {
            R8::B => self.registers.b = value,
            R8::C => self.registers.c = value,
            R8::D => self.registers.d = value,
            R8::E => self.registers.e = value,
            R8::H => self.registers.h = value,
            R8::L => self.registers.l = value,
            R8::HLMem => {
                let address = self.registers.hl();
                self.bus.mem_write(address, value);
            },
            R8::A => self.registers.a = value,
        }
    }

    pub fn read_r16(&self, register: R16) -> (r: u16)
        ensures
            r == self@.r16(register.index()),
    {
        match register {
            R16::BC => self.registers.bc(),
            R16::DE => self.registers.de(),
            R16::HL => self.registers.hl(),
            R16::SP => self.registers.sp,
        }
    }

    pub fn write_r16(&mut self, register: R16, value: u16)
        requires
            old(self).wf(),
        ensures
            final(self).wf(),
            final(self)@ == old(self)@.set_r16(register.index(), value),
    {
        match register {
            R16::BC => self.registers.set_bc(value),
            R16::DE => self.registers.set_de(value),
            R16::HL => self.registers.set_hl(value),
            R16::SP => self.registers.sp = value,
        }
    }

    pub fn read_r16_stack(&self, register: R16Stack) -> (r: u16)
        ensures
            r == self@.r16_stack(register.index()),
    {
        match register {
            R16Stack::BC => self.registers.bc(),
            R16Stack::DE => self.registers.de(),
            R16Stack::HL => self.registers.hl(),
            R16Stack::AF => self.registers.af(),
        }
    }

    pub fn write_r16_stack(&mut self, register: R16Stack, value: u16)
        requires
            old(self).wf(),
        ensures
            final(self).wf(),
            final(self)@ == old(self)@.set_r16_stack(register.index(), value),
    {
        match register {
            R16Stack::BC => self.registers.set_bc(value),
            R16Stack::DE => self.registers.set_de(value),
            R16Stack::HL => self.registers.set_hl(value),
            R16Stack::AF => self.registers.set_af(value),
        }
    }

    /// The address of an indirect accumulator load; HL is stepped for `HLI` and `HLD`.
    pub fn r16_memory_address(&mut self, register: R16Memory) -> (r: u16)
        requires
            old(self).wf(),
        ensures
            final(self).wf(),
            r == old(self)@.r16_memory_address(register.index()),
            final(self)@ == old(self)@.after_r16_memory(register.index()),
    {
        match register {
            R16Memory::BC => self.registers.bc(),
            R16Memory::DE => self.registers.de(),
            R16Memory::HLI => self.registers.increment_hl(),
            R16Memory::HLD => self.registers.decrement_hl(),
        }
    }

    /// Whether a branch condition holds on the current flags.
    pub fn condition_holds(&self, condition: Condition) -> (r: bool)
        ensures
            r == self@.condition(condition.index()),
    {
        match condition {
            Condition::NZ => !self.registers.zero(),
            Condition::Z => self.registers.zero(),
            Condition::NC => !self.registers.carry(),
            Condition::C => self.registers.carry(),
        }
    }

    /// Pushes a word: high byte first, at SP-1, then the low byte at SP-2.
    pub fn push_stack(&mut self, value: u16)
        requires
            old(self).wf(),
        ensures
            final(self).wf(),
            final(self)@ == old(self)@.push(value),
    {
        let sp = self.registers.sp;
        self.bus.mem_write(sp.wrapping_sub(1), (value / 256) as u8);
        self.bus.mem_write(sp.wrapping_sub(2), (value % 256) as u8);
        self.registers.sp = sp.wrapping_sub(2);
    }

    /// Pops the word on top of the stack.
    pub fn pop_stack(&mut self) -> (r: u16)
        requires
            old(self).wf(),
        ensures
            final(self).wf(),
            r == old(self)@.top(),
            final(self)@ == old(self)@.pop(),
    {
        let sp = self.registers.sp;
        let lo = self.bus.mem_read(sp);
        let hi = self.bus.mem_read(sp.wrapping_add(1));
        self.registers.sp = sp.wrapping_add(2);
        hi as u16 * 256 + lo as u16
    }
}

} // verus!
