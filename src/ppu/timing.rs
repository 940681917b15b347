use vstd::prelude::*;

use crate::ppu::object::{entry_byte, entry_written, ObjectAttributeMemory, ObjectView};
use crate::scheduler::{EventType, PpuEvent, Scheduler};

verus! {

/// Cycles of the object-search phase of a line.
pub const OAM_SCAN_CYCLES: usize = 80;

/// Cycles of the pixel-transfer phase of a line.
pub const DRAWING_PIXELS_CYCLES: usize = 172;

/// Cycles of the horizontal blank that ends a visible line.
pub const HBLANK_CYCLES: usize = 204;

/// Cycles of one line of the vertical blank.
pub const VBLANK_CYCLES: usize = 456;

/// The last visible line.
pub const LAST_VISIBLE_LINE: u8 = 143;

/// The line after which the vertical blank ends.
pub const MAX_LINE: u8 = 154;

/// The display registers that drive its timing. `lcd_control` bit 7 switches
/// the display on. `lcd_status` holds the mode in bits 0..1 (0 horizontal
/// blank, 1 vertical blank, 2 object search, 3 pixel transfer), the LY = LYC
/// match in bit 2, and the interrupt selects for modes 0, 1, 2 and for the
/// match in bits 3, 4, 5 and 6. `interrupt` collects the requests raised
/// (bit 0 vertical blank, bit 1 status).
pub struct PpuView {
    pub ly: u8,
    pub lyc: u8,
    pub lcd_control: u8,
    pub lcd_status: u8,
    pub interrupt: u8,
}

/// The status byte with its mode bits replaced.
pub open spec fn with_mode(status: u8, mode: u8) -> u8 {
    (status & 0xFC) | mode
}

/// Whether the status interrupt select of `mode` (0, 1 or 2) is on.
pub open spec fn mode_selected(status: u8, mode: u8) -> bool {
    mode < 3 && (status >> (mode + 3)) & 1 == 1
}

impl PpuView {
    pub open spec fn wf(self) -> bool {
        self.ly <= MAX_LINE
    }

    /// Enters `mode`, raising the status interrupt when its select is on.
    pub open spec fn enter_mode(self, mode: u8) -> PpuView {
        let status = with_mode(self.lcd_status, mode);
        PpuView {
            lcd_status: status,
            interrupt: if mode_selected(status, mode) { self.interrupt | 2 } else { self.interrupt },
            ..self
        }
    }

    /// Sets LY and compares it with LYC: the match bit follows, and a match
    /// raises the status interrupt when its select is on.
    pub open spec fn with_line(self, ly: u8, lyc: u8) -> PpuView {
        let matched = ly == lyc;
        let status = if matched { self.lcd_status | 4 } else { self.lcd_status & 0xFB };
        PpuView {
            ly,
            lyc,
            lcd_status: status,
            interrupt: if matched && (status >> 6u8) & 1 == 1 { self.interrupt | 2 } else { self.interrupt },
            ..self
        }
    }

    /// One phase change of the scan cycle, and the phase that follows with its
    /// delay; nothing while the display is off.
    pub open spec fn handle_event(self, event: PpuEvent) -> (PpuView, Option<(EventType, usize)>) {
        if (self.lcd_control >> 7u8) & 1 == 0 {
            (self, None)
        } else {
            match event {
                PpuEvent::HBlank => if self.ly >= LAST_VISIBLE_LINE {
                    (
                        PpuView { interrupt: self.interrupt | 1, ..self }.enter_mode(1),
                        Some((EventType::Ppu(PpuEvent::VBlank), VBLANK_CYCLES)),
                    )
                } else {
                    (
                        self.with_line((self.ly + 1) as u8, self.lyc).enter_mode(2),
                        Some((EventType::Ppu(PpuEvent::OamScan), OAM_SCAN_CYCLES)),
                    )
                },
                PpuEvent::VBlank => {
                    let next = self.with_line((self.ly + 1) as u8, self.lyc);
                    if next.ly > MAX_LINE {
                        (
                            next.with_line(0, self.lyc).enter_mode(2),
                            Some((EventType::Ppu(PpuEvent::OamScan), OAM_SCAN_CYCLES)),
                        )
                    } else {
                        (next, Some((EventType::Ppu(PpuEvent::VBlank), VBLANK_CYCLES)))
                    }
                },
                PpuEvent::OamScan => (
                    PpuView { lcd_status: with_mode(self.lcd_status, 3), ..self },
                    Some((EventType::Ppu(PpuEvent::DrawingPixels), DRAWING_PIXELS_CYCLES)),
                ),
                PpuEvent::DrawingPixels => (
                    self.enter_mode(0),
                    Some((EventType::Ppu(PpuEvent::HBlank), HBLANK_CYCLES)),
                ),
            }
        }
    }
}

/// The display's timing unit: the line counter, its compare register, the
/// control and status registers, and the interrupt requests it raises.
pub struct Ppu {
    ly: u8,
    lyc: u8,
    lcd_control: u8,
    lcd_status: u8,
    interrupt: u8,
    oam: ObjectAttributeMemory,
}

impl View for Ppu {
    type V = PpuView;

    closed spec fn view(&self) -> PpuView {
        PpuView {
            ly: self.ly,
            lyc: self.lyc,
            lcd_control: self.lcd_control,
            lcd_status: self.lcd_status,
            interrupt: self.interrupt,
        }
    }
}

impl Ppu {
    /// The line counter stays in range and the object memory well formed.
    pub closed spec fn wf(&self) -> bool {
        self@.wf() && self.oam.wf()
    }

    /// The entries of the object attribute memory.
    pub closed spec fn objects(&self) -> Seq<ObjectView> {
        self.oam.entries()
    }

    /// Reads byte `address % 4` of object entry `address / 4`.
    pub fn read_oam(&self, address: u16) -> (r: u8)
        requires
            self.wf(),
            address < 160,
        ensures
            r == entry_byte(self.objects()[address as int / 4], address as int % 4),
    {
        self.oam.read(address)
    }

    /// Writes byte `address % 4` of object entry `address / 4`.
    pub fn write_oam(&mut self, address: u16, value: u8)
        requires
            old(self).wf(),
            address < 160,
        ensures
            final(self).wf(),
            final(self)@ == old(self)@,
            final(self).objects() == old(self).objects().update(
                address as int / 4,
                entry_written(old(self).objects()[address as int / 4], address as int % 4, value),
            ),
    {
        self.oam.write(address, value);
    }

    /// A display at line 0 with every register clear, whose first horizontal
    /// blank is scheduled.
    pub fn new(scheduler: &mut Scheduler) -> (r: Ppu)
        requires
            old(scheduler)@.now + HBLANK_CYCLES <= usize::MAX,
        ensures
            r.wf(),
            r@ == (PpuView { ly: 0, lyc: 0, lcd_control: 0, lcd_status: 0, interrupt: 0 }),
            final(scheduler)@ == old(scheduler)@.schedule(EventType::Ppu(PpuEvent::HBlank), HBLANK_CYCLES),
    {
        scheduler.schedule(EventType::Ppu(PpuEvent::HBlank), HBLANK_CYCLES);
        Ppu { ly: 0, lyc: 0, lcd_control: 0, lcd_status: 0, interrupt: 0, oam: ObjectAttributeMemory::new() }
    }

    /// Hands out the interrupt requests raised so far and clears them.
    pub fn take_interrupts(&mut self) -> (r: u8)
        requires
            old(self).wf(),
        ensures
            final(self).wf(),
            r == old(self)@.interrupt,
            final(self)@ == (PpuView { interrupt: 0, ..old(self)@ }),
            final(self).objects() == old(self).objects(),
    {
        let requests = self.interrupt;
        self.interrupt = 0;
        requests
    }

    pub fn ly(&self) -> (r: u8)
        ensures
            r == self@.ly,
    {
        self.ly
    }

    pub fn lcd_status(&self) -> (r: u8)
        ensures
            r == self@.lcd_status,
    {
        self.lcd_status
    }

    fn enter_mode(&mut self, mode: u8)
        requires
            mode < 4,
        ensures
            final(self)@ == old(self)@.enter_mode(mode),
            final(self).oam == old(self).oam,
    {
        self.lcd_status = (self.lcd_status & 0xFC) | mode;
        if mode < 3 && (self.lcd_status >> (mode + 3)) & 1 == 1 {
            self.interrupt = self.interrupt | 2;
        }
    }

    fn set_line(&mut self, ly: u8, lyc: u8)
        ensures
            final(self)@ == old(self)@.with_line(ly, lyc),
            final(self).oam == old(self).oam,
    {
        self.ly = ly;
        self.lyc = lyc;
        if ly == lyc {
            self.lcd_status = self.lcd_status | 4;
            if (self.lcd_status >> 6u8) & 1 == 1 {
                self.interrupt = self.interrupt | 2;
            }
        } else {
            self.lcd_status = self.lcd_status & 0xFB;
        }
    }

    /// Writes LYC and compares it with LY.
    pub fn set_lyc(&mut self, value: u8)
        requires
            old(self).wf(),
        ensures
            final(self).wf(),
            final(self)@ == old(self)@.with_line(old(self)@.ly, value),
            final(self).objects() == old(self).objects(),
    {
        let ly = self.ly;
        self.set_line(ly, value);
    }

    /// Runs one phase change (see `PpuView::handle_event`) and returns the
    /// phase to schedule next, with its delay.
    pub fn handle_event(&mut self, ppu_event: PpuEvent) -> (r: Option<(EventType, usize)>)
        requires
            old(self).wf(),
        ensures
            final(self).wf(),
            (final(self)@, r) == old(self)@.handle_event(ppu_event),
            final(self).objects() == old(self).objects(),
    {
        if (self.lcd_control >> 7u8) & 1 == 0 {
            return None;
        }
        match ppu_event {
            PpuEvent::HBlank => {
                if self.ly >= LAST_VISIBLE_LINE {
                    self.interrupt = self.interrupt | 1;
                    self.enter_mode(1);
                    Some((EventType::Ppu(PpuEvent::VBlank), VBLANK_CYCLES))
                } else {
                    let lyc = self.lyc;
                    self.set_line(self.ly + 1, lyc);
                    self.enter_mode(2);
                    Some((EventType::Ppu(PpuEvent::OamScan), OAM_SCAN_CYCLES))
                }
            },
            PpuEvent::VBlank => {
                let lyc = self.lyc;
                self.set_line(self.ly + 1, lyc);
                if self.ly > MAX_LINE {
                    self.set_line(0, lyc);
                    self.enter_mode(2);
                    Some((EventType::Ppu(PpuEvent::OamScan), OAM_SCAN_CYCLES))
                } else {
                    Some((EventType::Ppu(PpuEvent::VBlank), VBLANK_CYCLES))
                }
            },
            PpuEvent::OamScan => {
                self.lcd_status = (self.lcd_status & 0xFC) | 3;
                Some((EventType::Ppu(PpuEvent::DrawingPixels), DRAWING_PIXELS_CYCLES))
            },
            PpuEvent::DrawingPixels => {
                self.enter_mode(0);
                Some((EventType::Ppu(PpuEvent::HBlank), HBLANK_CYCLES))
            },
        }
    }

    /// Writes the control register. Switching the display off resets LY and
    /// drops its pending phases; switching it on restarts the scan cycle with
    /// a horizontal blank due at once.
    pub fn set_lcd_control(&mut self, value: u8, scheduler: &mut Scheduler)
        requires
            old(self).wf(),
        ensures
            final(self).wf(),
            final(self).objects() == old(self).objects(),
            (value >> 7u8) & 1 == 0 ==> {
                &&& final(self)@ == (PpuView { lcd_control: value, ..old(self)@ }).with_line(0, old(self)@.lyc)
                &&& final(scheduler)@ == old(scheduler)@.cancel(EventType::Ppu(PpuEvent::HBlank)).cancel(
                    EventType::Ppu(PpuEvent::VBlank),
                ).cancel(EventType::Ppu(PpuEvent::OamScan)).cancel(EventType::Ppu(PpuEvent::DrawingPixels))
            },
            (value >> 7u8) & 1 == 1 ==> {
                &&& final(self)@ == (PpuView { lcd_control: value, ..old(self)@ }).enter_mode(0)
                &&& final(scheduler)@ == old(scheduler)@.schedule_at(
                    EventType::Ppu(PpuEvent::HBlank),
                    old(scheduler)@.now,
                )
            },
    {
        self.lcd_control = value;
        if (value >> 7u8) & 1 == 0 {
            let lyc = self.lyc;
            self.set_line(0, lyc);
            scheduler.cancel(EventType::Ppu(PpuEvent::HBlank));
            scheduler.cancel(EventType::Ppu(PpuEvent::VBlank));
            scheduler.cancel(EventType::Ppu(PpuEvent::OamScan));
            scheduler.cancel(EventType::Ppu(PpuEvent::DrawingPixels));
        } else {
            self.enter_mode(0);
            let now = scheduler.timestamp();
            scheduler.schedule_at(EventType::Ppu(PpuEvent::HBlank), now);
        }
    }
}

} // verus!
