use vstd::prelude::*;

use crate::Mode;

verus! {

/// Mask of the Zero flag in the flag register.
pub const FLAG_Z: u8 = 0x80;

/// Mask of the Subtraction flag in the flag register.
pub const FLAG_N: u8 = 0x40;

/// Mask of the Half-Carry flag in the flag register.
pub const FLAG_H: u8 = 0x20;

/// Mask of the Carry flag in the flag register.
pub const FLAG_C: u8 = 0x10;

/// Whether the Zero flag (bit 7) is set in the flag byte `f`.
pub open spec fn bit_z(f: u8) -> bool {
    f / 128 % 2 == 1
}

/// Whether the Subtraction flag (bit 6) is set in the flag byte `f`.
pub open spec fn bit_n(f: u8) -> bool {
    f / 64 % 2 == 1
}

/// Whether the Half-Carry flag (bit 5) is set in the flag byte `f`.
pub open spec fn bit_h(f: u8) -> bool {
    f / 32 % 2 == 1
}

/// Whether the Carry flag (bit 4) is set in the flag byte `f`.
pub open spec fn bit_c(f: u8) -> bool {
    f / 16 % 2 == 1
}

/// The flag byte holding exactly the four given flags (low nibble clear).
pub open spec fn flag_byte(z: bool, n: bool, h: bool, c: bool) -> u8 {
    ((if z { 128int } else { 0 }) + (if n { 64int } else { 0 }) + (if h { 32int } else { 0 }) + (if c {
        16int
    } else {
        0
    })) as u8
}

/// The 16-bit word whose high byte is `hi` and low byte is `lo`.
pub open spec fn word(hi: u8, lo: u8) -> u16 {
    (hi as int * 256 + lo as int) as u16
}

/// The high byte of a 16-bit word.
pub open spec fn high_byte(v: u16) -> u8 {
    (v as int / 256) as u8
}

/// The low byte of a 16-bit word.
pub open spec fn low_byte(v: u16) -> u8 {
    (v as int % 256) as u8
}

/// A flag byte reads back the four flags it was built from, and its low nibble is clear.
pub proof fn lemma_flag_byte(z: bool, n: bool, h: bool, c: bool)
    ensures
        bit_z(flag_byte(z, n, h, c)) == z,
        bit_n(flag_byte(z, n, h, c)) == n,
        bit_h(flag_byte(z, n, h, c)) == h,
        bit_c(flag_byte(z, n, h, c)) == c,
        flag_byte(z, n, h, c) % 16 == 0,
{
}

/// Every flag byte keeps its low nibble clear.
pub proof fn lemma_flag_byte_wf(f: u8)
    requires
        exists|z: bool, n: bool, h: bool, c: bool| f == flag_byte(z, n, h, c),
    ensures
        f % 16 == 0,
{
    let (z, n, h, c) = choose|z: bool, n: bool, h: bool, c: bool| f == flag_byte(z, n, h, c);
    lemma_flag_byte(z, n, h, c);
}

/// Splitting a word into its two bytes and joining them again gives the word back.
pub proof fn lemma_word_bytes(v: u16)
    ensures
        word(high_byte(v), low_byte(v)) == v,
        high_byte(word(high_byte(v), low_byte(v))) == high_byte(v),
{
}

/// The register file: eight 8-bit registers and the two 16-bit pointers.
#[derive(Debug, Clone, Copy, PartialEq, Eq, Structural)]
pub struct Registers {
    pub a: u8,
    pub f: u8,
    pub b: u8,
    pub c: u8,
    pub d: u8,
    pub e: u8,
    pub h: u8,
    pub l: u8,
    pub pc: u16,
    pub sp: u16,
}

/// The register values at power-on, by console variant and by whether the boot
/// sequence is skipped.
pub open spec fn initial_registers(mode: Mode, skip_boot: bool) -> Registers {
    if !skip_boot {
        Registers { a: 0x00, f: 0xB0, b: 0x00, c: 0x00, d: 0x00, e: 0x00, h: 0x00, l: 0x00, pc: 0x0000, sp: 0x0000 }
    } else {
        match mode {
            Mode::Monochrome => Registers {
                a: 0x01,
                f: 0xB0,
                b: 0x00,
                c: 0x13,
                d: 0x00,
                e: 0xD8,
                h: 0x01,
                l: 0x4D,
                pc: 0x0100,
                sp: 0xFFFE,
            },
            Mode::Color => Registers {
                a: 0x11,
                f: 0x80,
                b: 0x00,
                c: 0x00,
                d: 0xFF,
                e: 0x56,
                h: 0x00,
                l: 0x0D,
                pc: 0x0100,
                sp: 0xFFFE,
            },
            Mode::ColorAsMonochrome => Registers {
                a: 0x11,
                f: 0x80,
                b: 0x00,
                c: 0x00,
                d: 0x00,
                e: 0x08,
                h: 0x00,
                l: 0x7C,
                pc: 0x0100,
                sp: 0xFFFE,
            },
        }
    }
}

impl Registers {
    /// The flag register keeps its low nibble clear.
    pub open spec fn wf(&self) -> bool {
        self.f % 16 == 0
    }

    pub open spec fn spec_af(&self) -> u16 {
        word(self.a, self.f)
    }

    pub open spec fn spec_bc(&self) -> u16 {
        word(self.b, self.c)
    }

    pub open spec fn spec_de(&self) -> u16 {
        word(self.d, self.e)
    }

    pub open spec fn spec_hl(&self) -> u16 {
        word(self.h, self.l)
    }

    /// These registers with the pair BC set to `v`.
    pub open spec fn with_bc(self, v: u16) -> Registers {
        Registers { b: high_byte(v), c: low_byte(v), ..self }
    }

    /// These registers with the pair DE set to `v`.
    pub open spec fn with_de(self, v: u16) -> Registers {
        Registers { d: high_byte(v), e: low_byte(v), ..self }
    }

    /// These registers with the pair HL set to `v`.
    pub open spec fn with_hl(self, v: u16) -> Registers {
        Registers { h: high_byte(v), l: low_byte(v), ..self }
    }

    /// These registers with the pair AF set to `v`; the low nibble of F stays clear.
    pub open spec fn with_af(self, v: u16) -> Registers {
        Registers { a: high_byte(v), f: (low_byte(v) / 16 * 16) as u8, ..self }
    }

    /// These registers with the flag register set to the four given flags.
    pub open spec fn with_flags(self, z: bool, n: bool, h: bool, c: bool) -> Registers {
        Registers { f: flag_byte(z, n, h, c), ..self }
    }

    pub open spec fn flag_z(&self) -> bool {
        bit_z(self.f)
    }

    pub open spec fn flag_n(&self) -> bool {
        bit_n(self.f)
    }

    pub open spec fn flag_h(&self) -> bool {
        bit_h(self.f)
    }

    pub open spec fn flag_c(&self) -> bool {
        bit_c(self.f)
    }

    /// The power-on register file for a console variant.
    pub fn new(mode: Mode, skip_boot: bool) -> (r: Self)
        ensures
            r == initial_registers(mode, skip_boot),
            r.wf(),
    {
        if !skip_boot {
            return Registers {
                a: 0x00,
                f: 0xB0,
                b: 0x00,
                c: 0x00,
                d: 0x00,
                e: 0x00,
                h: 0x00,
                l: 0x00,
                pc: 0x0000,
                sp: 0x0000,
            };
        }
        match mode {
            Mode::Monochrome => Registers {
                a: 0x01,
                f: 0xB0,
                b: 0x00,
                c: 0x13,
                d: 0x00,
                e: 0xD8,
                h: 0x01,
                l: 0x4D,
                pc: 0x0100,
                sp: 0xFFFE,
            },
            Mode::Color => Registers {
                a: 0x11,
                f: 0x80,
                b: 0x00,
                c: 0x00,
                d: 0xFF,
                e: 0x56,
                h: 0x00,
                l: 0x0D,
                pc: 0x0100,
                sp: 0xFFFE,
            },
            Mode::ColorAsMonochrome => Registers {
                a: 0x11,
                f: 0x80,
                b: 0x00,
                c: 0x00,
                d: 0x00,
                e: 0x08,
                h: 0x00,
                l: 0x7C,
                pc: 0x0100,
                sp: 0xFFFE,
            },
        }
    }

    pub fn af(&self) -> (r: u16)
        ensures
            r == self.spec_af(),
    {
        self.a as u16 * 256 + self.f as u16
    }

    pub fn set_af(&mut self, value: u16)
        ensures
            *final(self) == old(self).with_af(value),
            final(self).wf(),
    {
        self.a = (value / 256) as u8;
        self.f = ((value % 256) / 16 * 16) as u8;
    }

    pub fn bc(&self) -> (r: u16)
        ensures
            r == self.spec_bc(),
    {
        self.b as u16 * 256 + self.c as u16
    }

    pub fn set_bc(&mut self, value: u16)
        ensures
            *final(self) == old(self).with_bc(value),
    {
        self.b = (value / 256) as u8;
        self.c = (value % 256) as u8;
    }

    pub fn de(&self) -> (r: u16)
        ensures
            r == self.spec_de(),
    {
        self.d as u16 * 256 + self.e as u16
    }

    pub fn set_de(&mut self, value: u16)
        ensures
            *final(self) == old(self).with_de(value),
    {
        self.d = (value / 256) as u8;
        self.e = (value % 256) as u8;
    }

    pub fn hl(&self) -> (r: u16)
        ensures
            r == self.spec_hl(),
    {
        self.h as u16 * 256 + self.l as u16
    }

    pub fn set_hl(&mut self, value: u16)
        ensures
            *final(self) == old(self).with_hl(value),
    {
        self.h = (value / 256) as u8;
        self.l = (value % 256) as u8;
    }

    /// Sets HL to its value minus one (wrapping) and returns the value before.
    pub fn decrement_hl(&mut self) -> (r: u16)
        ensures
            r == old(self).spec_hl(),
            *final(self) == old(self).with_hl(r.wrapping_sub(1)),
    {
        let hl = self.hl();
        self.set_hl(hl.wrapping_sub(1));
        hl
    }

    /// Sets HL to its value plus one (wrapping) and returns the value before.
    pub fn increment_hl(&mut self) -> (r: u16)
        ensures
            r == old(self).spec_hl(),
            *final(self) == old(self).with_hl(r.wrapping_add(1)),
    {
        let hl = self.hl();
        self.set_hl(hl.wrapping_add(1));
        hl
    }

    pub fn zero(&self) -> (r: bool)
        ensures
            r == self.flag_z(),
    {
        self.f / 128 % 2 == 1
    }

    pub fn subtraction(&self) -> (r: bool)
        ensures
            r == self.flag_n(),
    {
        self.f / 64 % 2 == 1
    }

    pub fn half_carry(&self) -> (r: bool)
        ensures
            r == self.flag_h(),
    {
        self.f / 32 % 2 == 1
    }

    pub fn carry(&self) -> (r: bool)
        ensures
            r == self.flag_c(),
    {
        self.f / 16 % 2 == 1
    }

    /// Overwrites all four flags at once.
    pub fn set_flags(&mut self, z: bool, n: bool, h: bool, c: bool)
        ensures
            *final(self) == old(self).with_flags(z, n, h, c),
            final(self).wf(),
    {
        self.f = crate::alu::flags(z, n, h, c);
        proof {
            lemma_flag_byte(z, n, h, c);
        }
    }
}

} // verus!
