use vstd::prelude::*;

use crate::bus::{IE_ADDRESS, IF_ADDRESS};
use crate::cpu::{Cpu, CpuState};

verus! {

/// The interrupt sources, by priority (bit index 0 is served first).
#[derive(Debug, Clone, Copy, PartialEq, Eq, Structural)]
pub enum Interrupt {
    VBlank,
    LCD,
    Timer,
    Serial,
    Joypad,
}

impl Interrupt {
    /// The bit of the source in IE and IF.
    pub open spec fn bit(self) -> u8 {
        match self {
            Interrupt::VBlank => 0,
            Interrupt::LCD => 1,
            Interrupt::Timer => 2,
            Interrupt::Serial => 3,
            Interrupt::Joypad => 4,
        }
    }

    /// The mask of the source in IE and IF.
    pub fn mask(&self) -> (r: u8)
        ensures
            r == 1u8 << self.bit(),
    {
        match self {
            Interrupt::VBlank => 1u8 << 0u8,
            Interrupt::LCD => 1u8 << 1u8,
            Interrupt::Timer => 1u8 << 2u8,
            Interrupt::Serial => 1u8 << 3u8,
            Interrupt::Joypad => 1u8 << 4u8,
        }
    }

    /// The address the handler of this source starts at.
    pub fn vector(&self) -> (r: u16)
        ensures
            r == 0x40 + 8 * self.bit(),
    {
        match self {
            Interrupt::VBlank => 0x40,
            Interrupt::LCD => 0x48,
            Interrupt::Timer => 0x50,
            Interrupt::Serial => 0x58,
            Interrupt::Joypad => 0x60,
        }
    }
}

/// The sources both enabled and requested (five meaningful bits).
pub open spec fn pending(ie: u8, iflag: u8) -> u8 {
    ie & iflag & 0x1F
}

/// The index of the lowest set bit of a nonzero 5-bit mask.
pub open spec fn lowest_bit(p: u8) -> u8 {
    if p % 2 == 1 {
        0
    } else if p / 2 % 2 == 1 {
        1
    } else if p / 4 % 2 == 1 {
        2
    } else if p / 8 % 2 == 1 {
        3
    } else {
        4
    }
}

/// The interrupt check at a step boundary. With a pending source and the
/// master-enable flag set, the lowest pending source is served: its IF bit is
/// cleared, interrupts are disabled, the processor wakes, PC is pushed and set
/// to `0x40 + 8 * bit`, for 20 cycles. With a pending source and interrupts
/// disabled, a halted or stopped processor only wakes, leaving IF as it is.
pub open spec fn spec_interrupt(s: CpuState) -> (CpuState, u8) {
    let iflag = s.read(IF_ADDRESS);
    let p = pending(s.read(IE_ADDRESS), iflag);
    if p == 0 {
        (s, 0)
    } else if s.ime {
        let i = lowest_bit(p);
        let woken = CpuState { halted: false, stopped: false, ime: false, ..s };
        let cleared = woken.write(IF_ADDRESS, iflag & !(1u8 << i));
        (cleared.push(s.registers.pc).with_pc((0x40 + 8 * i) as u16), 20)
    } else {
        (CpuState { halted: false, stopped: false, ..s }, 0)
    }
}

fn lowest_pending(p: u8) -> (r: u8)
    ensures
        r == lowest_bit(p),
        r < 5,
{
    if p % 2 == 1 {
        0
    } else if p / 2 % 2 == 1 {
        1
    } else if p / 4 % 2 == 1 {
        2
    } else if p / 8 % 2 == 1 {
        3
    } else {
        4
    }
}

impl Cpu {
    /// Checks IE and IF and serves or wakes as `spec_interrupt` says; returns
    /// the cycles spent.
    pub fn handle_interrupt(&mut self) -> (r: u8)
        requires
            old(self).wf(),
        ensures
            final(self).wf(),
            (final(self)@, r) == spec_interrupt(old(self)@),
    {
        let interrupt_flag = self.bus.mem_read(IF_ADDRESS);
        let interrupt_enable = self.bus.mem_read(IE_ADDRESS);
        let requested = interrupt_enable & interrupt_flag & 0x1F;
        if requested == 0 {
            return 0;
        }
        if !self.interrupt_master_enable {
            self.halted = false;
            self.stopped = false;
            return 0;
        }
        self.halted = false;
        self.stopped = false;
        self.interrupt_master_enable = false;
        let interrupt = lowest_pending(requested);
        self.bus.mem_write(IF_ADDRESS, interrupt_flag & !(1u8 << interrupt));
        let address = self.registers.pc;
        self.push_stack(address);
        self.registers.pc = 0x40 + 8 * interrupt as u16;
        20
    }
}

/// With only VBlank enabled and requested and interrupts enabled, one check
/// clears IF, disables interrupts, jumps to the VBlank vector and leaves the
/// interrupted PC on top of the stack (when the two stack bytes are not IE or IF).
pub proof fn lemma_vblank_dispatch(s: CpuState)
    requires
        s.wf(),
        s.ime,
        s.read(IE_ADDRESS) == 1,
        s.read(IF_ADDRESS) == 1,
        crate::cpu::wrap16(s.registers.sp, -1) != IF_ADDRESS,
        crate::cpu::wrap16(s.registers.sp, -2) != IF_ADDRESS,
    ensures
        spec_interrupt(s).0.read(IF_ADDRESS) == 0,
        !spec_interrupt(s).0.ime,
        spec_interrupt(s).0.registers.pc == 0x40,
        spec_interrupt(s).0.top() == s.registers.pc,
        spec_interrupt(s).1 == 20,
{
    assert(pending(1, 1) == 1) by (bit_vector);
    assert(1u8 & !(1u8 << 0u8) == 0) by (bit_vector);
    let t = spec_interrupt(s).0;
    crate::registers::lemma_word_bytes(s.registers.pc);
    assert(crate::cpu::wrap16(crate::cpu::wrap16(s.registers.sp, -2), 1) == crate::cpu::wrap16(
        s.registers.sp,
        -1,
    ));
}

} // verus!
