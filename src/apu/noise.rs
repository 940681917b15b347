use vstd::prelude::*;

use crate::apu::volume_envelope::VolumeEnvelope;

verus! {

/// The longest length-timer setting of the noise channel.
pub const LENGTH_TIMER_MAX: u16 = 64;

/// The base periods selected by the clock divider field.
pub open spec fn divisor(d: u8) -> u16 {
    if d == 0 {
        8
    } else {
        (16 * d as int) as u16
    }
}

/// The timer period for a clock divider and shift.
pub open spec fn period(clock_divider: u8, clock_shift: u8) -> i16 {
    (divisor(clock_divider % 8) << (clock_shift % 16)) as i16
}

/// The fourth sound channel: a linear-feedback shift register clocked at a
/// rate set by a divider and a shift, its output scaled by a volume envelope.
pub struct NoiseChannel {
    pub enabled: bool,
    pub dac_enabled: bool,
    pub triggered: bool,
    pub timer: i16,
    pub output: u8,
    pub length_time: u16,
    pub length_enabled: bool,
    pub volume_envelope: VolumeEnvelope,
    pub lfsr: u16,
    pub clock_divider: u8,
    pub lfsr_width: bool,
    pub clock_shift: u8,
}

impl NoiseChannel {
    /// The divider field has three bits and the shift four.
    pub open spec fn wf(&self) -> bool {
        self.clock_divider < 8 && self.clock_shift < 16 && self.volume_envelope.wf()
    }

    pub fn new() -> (r: Self)
        ensures
            r.wf(),
            !r.enabled && !r.dac_enabled && !r.triggered && r.timer == 0 && r.output == 0,
            r.length_time == 0 && !r.length_enabled,
            r.lfsr == 0 && r.clock_divider == 0 && !r.lfsr_width && r.clock_shift == 0,
    {
        Self {
            enabled: false,
            dac_enabled: false,
            triggered: false,
            timer: 0,
            output: 0,
            length_time: 0,
            length_enabled: false,
            volume_envelope: VolumeEnvelope::new(),
            lfsr: 0,
            clock_divider: 0,
            lfsr_width: false,
            clock_shift: 0,
        }
    }

    fn period(&self) -> (r: i16)
        ensures
            r == period(self.clock_divider, self.clock_shift),
    {
        let divider = self.clock_divider % 8;
        let base: u16 = if divider == 0 { 8 } else { 16 * divider as u16 };
        (base << (self.clock_shift % 16)) as i16
    }

    /// Advances the channel by `ticks` cycles. While it is on and its DAC is
    /// on, the timer runs down (stopping at the least `i16`); when it reaches zero the register shifts
    /// once (the XOR of its two low bits enters at bit 14, and also at bit 6
    /// in the short mode), the output follows the new bit, and the timer is
    /// reloaded with the period.
    pub fn cycle(&mut self, ticks: u32)
        ensures
            old(self).wf() ==> final(self).wf(),
            ({
                let o = *old(self);
                let n = *final(self);
                if !o.enabled || !o.dac_enabled {
                    n == o
                } else {
                    let diff: int = o.timer as int - ticks as int;
                    let t: i16 = if diff < -32768 {
                        i16::MIN
                    } else {
                        diff as i16
                    };
                    if t > 0 {
                        n == NoiseChannel { timer: t, ..o }
                    } else {
                        let bit = ((o.lfsr & 1) ^ ((o.lfsr >> 1u16) & 1)) != 0;
                        let shifted = (o.lfsr >> 1u16) | (if bit { 0x4000u16 } else { 0 });
                        let lfsr = if o.lfsr_width {
                            (shifted & 0xBF) | (if bit { 0x40u16 } else { 0 })
                        } else {
                            shifted
                        };
                        n == NoiseChannel {
                            timer: t.wrapping_add(period(o.clock_divider, o.clock_shift)),
                            lfsr,
                            output: if bit { o.volume_envelope.volume } else { 0 },
                            ..o
                        }
                    }
                }
            }),
    {
        if !self.enabled || !self.dac_enabled {
            return;
        }
        let diff: i64 = self.timer as i64 - ticks as i64;
        self.timer = if diff < -32768 { i16::MIN } else { diff as i16 };
        if self.timer > 0 {
            return;
        }
        let bit = ((self.lfsr & 1) ^ ((self.lfsr >> 1u16) & 1)) != 0;
        self.lfsr = (self.lfsr >> 1u16) | (if bit { 0x4000u16 } else { 0 });
        if self.lfsr_width {
            self.lfsr = (self.lfsr & 0xBF) | (if bit { 0x40u16 } else { 0 });
        }
        self.output = if bit { self.volume_envelope.volume } else { 0 };
        let period = self.period();
        self.timer = self.timer.wrapping_add(period);
    }

    /// Restarts the channel: on if its DAC is on, the timer reloaded, the
    /// register seeded, the envelope counter restarted, and an expired length
    /// timer set to its longest.
    pub fn trigger(&mut self)
        requires
            old(self).wf(),
        ensures
            final(self).wf(),
            final(self).enabled == (old(self).enabled || old(self).dac_enabled),
            final(self).timer == period(old(self).clock_divider, old(self).clock_shift),
            final(self).lfsr == 0x7FF1,
            final(self).volume_envelope == (VolumeEnvelope { counter: 0, ..old(self).volume_envelope }),
            final(self).length_time == (if old(self).length_time == 0 {
                LENGTH_TIMER_MAX
            } else {
                old(self).length_time
            }),
    {
        if self.dac_enabled {
            self.enabled = true;
        }
        self.timer = self.period();
        self.lfsr = 0x7FF1;
        self.volume_envelope.counter = 0;
        if self.length_time == 0 {
            self.length_time = LENGTH_TIMER_MAX;
        }
    }

    /// NR42: the envelope register; the DAC is on when any of the upper five
    /// bits is set, and turning it off turns the channel off.
    pub fn volume_envelope_write(&mut self, data: u8)
        requires
            old(self).wf(),
        ensures
            final(self).wf(),
            final(self).dac_enabled == (data >= 8),
            final(self).enabled == (old(self).enabled && data >= 8),
            final(self).volume_envelope.register() == data,
            final(self).volume_envelope.counter == 0,
    {
        self.volume_envelope.write(data);
        proof {
            crate::apu::volume_envelope::lemma_envelope_register_round_trip(data);
        }
        self.dac_enabled = data & 0xF8 != 0;
        assert((data & 0xF8 != 0) == (data >= 8)) by (bit_vector);
        if !self.dac_enabled {
            self.enabled = false;
        }
    }

    /// NR43 as read: shift in bits 4..7, width in bit 3, divider in bits 0..2.
    pub fn frequency_randomness_read(&self) -> (r: u8)
        requires
            self.wf(),
        ensures
            r == self.clock_shift * 16 + (if self.lfsr_width { 8u8 } else { 0 }) + self.clock_divider,
    {
        let width: u8 = if self.lfsr_width { 8 } else { 0 };
        self.clock_shift * 16 + width + self.clock_divider
    }

    pub fn frequency_randomness_write(&mut self, data: u8)
        requires
            old(self).wf(),
        ensures
            final(self).wf(),
            final(self).clock_shift == data / 16,
            final(self).lfsr_width == (data / 8 % 2 == 1),
            final(self).clock_divider == data % 8,
    {
        self.clock_shift = data / 16;
        self.lfsr_width = data / 8 % 2 == 1;
        self.clock_divider = data % 8;
    }

    /// NR44 as read: the trigger flag in bit 7, length enable in bit 6.
    pub fn control_read(&self) -> (r: u8)
        ensures
            r == (if self.triggered { 128u8 } else { 0 }) + (if self.length_enabled { 64u8 } else { 0 }),
    {
        let triggered: u8 = if self.triggered { 128 } else { 0 };
        let length: u8 = if self.length_enabled { 64 } else { 0 };
        triggered + length
    }

    /// Reads the channel's registers NR41 to NR44; other addresses read 0xFF.
    pub fn read_8(&self, address: u16) -> (r: u8)
        requires
            self.wf(),
        ensures
            address == 0xFF20 ==> r == self.length_time % 64,
            address == 0xFF21 ==> r == self.volume_envelope.register(),
            address == 0xFF22 ==> r == self.clock_shift * 16 + (if self.lfsr_width { 8u8 } else { 0 })
                + self.clock_divider,
            address == 0xFF23 ==> r == (if self.triggered { 128u8 } else { 0 }) + (if self.length_enabled {
                64u8
            } else {
                0
            }),
            !(0xFF20 <= address <= 0xFF23) ==> r == 0xFF,
    {
        if address == 0xFF20 {
            (self.length_time % 64) as u8
        } else if address == 0xFF21 {
            self.volume_envelope.read()
        } else if address == 0xFF22 {
            self.frequency_randomness_read()
        } else if address == 0xFF23 {
            self.control_read()
        } else {
            0xFF
        }
    }

    /// Writes the channel's registers NR41 to NR44; NR41 loads the length
    /// timer with 64 minus its low six bits. Other addresses are ignored.
    pub fn write_8(&mut self, address: u16, data: u8)
        requires
            old(self).wf(),
        ensures
            final(self).wf(),
            address == 0xFF20 ==> *final(self) == (NoiseChannel {
                length_time: (LENGTH_TIMER_MAX - data % 64) as u16,
                ..*old(self)
            }),
            !(0xFF20 <= address <= 0xFF23) ==> *final(self) == *old(self),
    {
        if address == 0xFF20 {
            self.length_time = LENGTH_TIMER_MAX - (data % 64) as u16;
        } else if address == 0xFF21 {
            self.volume_envelope_write(data);
        } else if address == 0xFF22 {
            self.frequency_randomness_write(data);
        } else if address == 0xFF23 {
            self.control_write(data);
        }
    }

    /// NR44: bit 7 triggers the channel, bit 6 enables the length timer.
    pub fn control_write(&mut self, data: u8)
        requires
            old(self).wf(),
        ensures
            final(self).wf(),
            final(self).length_enabled == (data / 64 % 2 == 1),
            data < 128 ==> *final(self) == (NoiseChannel { length_enabled: data / 64 % 2 == 1, ..*old(self) }),
            data >= 128 ==> final(self).lfsr == 0x7FF1 && final(self).timer == period(
                old(self).clock_divider,
                old(self).clock_shift,
            ),
    {
        if data >= 128 {
            self.trigger();
        }
        self.length_enabled = data / 64 % 2 == 1;
    }
}

impl crate::Component for NoiseChannel {
    /// Advances the channel by `cycles` cycles (see `NoiseChannel::cycle`).
    fn cycle(&mut self, cycles: u32) {
        NoiseChannel::cycle(self, cycles);
    }
}

} // verus!
