use vstd::prelude::*;

pub mod alu;
pub mod apu;
pub mod bus;
pub mod cpu;
pub mod engine;
pub mod gb;
pub mod instructions;
pub mod interrupts;
pub mod io;
pub mod ops;
pub mod ppu;
pub mod registers;
pub mod scheduler;

verus! {

/// A hardware block that the console advances by a number of CPU cycles.
pub trait Component {
    fn cycle(&mut self, cycles: u32);
}

/// The console variant whose power-on register values are loaded.
#[derive(Debug, Clone, Copy, PartialEq, Eq, Structural)]
pub enum Mode {
    Monochrome,
    Color,
    ColorAsMonochrome,
}

/// The CPU clock rate: normal or doubled (Color consoles only).
#[derive(Debug, Clone, Copy, PartialEq, Eq, Structural)]
pub enum Speed {
    Normal,
    Double,
}

} // verus!
