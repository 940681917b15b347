use vstd::prelude::*;

verus! {

/// CPU cycles per frame-sequencer step (the sequencer runs at 512 Hz).
pub const FRAME_SEQUENCER_PERIOD: u16 = 8192;

/// Which channel units a frame-sequencer step clocks.
#[derive(Debug, Clone, Copy, PartialEq, Eq, Structural)]
pub struct FrameClocks {
    pub length_timer: bool,
    pub sweep: bool,
    pub envelope: bool,
}

/// The units clocked by step `step` of the eight-step cycle: length timers on
/// even steps, the sweep on steps 2 and 6, the envelopes on step 7.
pub open spec fn step_clocks(step: u8) -> FrameClocks {
    FrameClocks {
        length_timer: step == 0 || step == 2 || step == 4 || step == 6,
        sweep: step == 2 || step == 6,
        envelope: step == 7,
    }
}

/// Nothing is clocked.
pub open spec fn no_clocks() -> FrameClocks {
    FrameClocks { length_timer: false, sweep: false, envelope: false }
}

/// Divides the CPU clock into the eight 512 Hz steps that clock the length
/// timers, the sweep and the volume envelopes of the sound channels.
pub struct FrameSequencer {
    clock: u16,
    step: u8,
}

impl FrameSequencer {
    pub closed spec fn clock(&self) -> u16 {
        self.clock
    }

    pub closed spec fn step_index(&self) -> u8 {
        self.step
    }

    /// The step the sequencer is at (0 to 7).
    pub fn step(&self) -> (r: u8)
        ensures
            r == self.step_index(),
    {
        self.step
    }

    pub fn new() -> (r: Self)
        ensures
            r.clock() == 0,
            r.step_index() == 0,
    {
        Self { clock: 0, step: 0 }
    }

    /// Adds `ticks` CPU cycles. When a whole period has gone by, one step is
    /// taken: the period is subtracted, the step advances (modulo 8), and the
    /// units of the step just left are returned for the caller to clock.
    pub fn cycle(&mut self, ticks: u32) -> (r: FrameClocks)
        requires
            old(self).clock() + ticks <= u16::MAX,
        ensures
            ({
                let total = old(self).clock() + ticks;
                if total >= FRAME_SEQUENCER_PERIOD {
                    &&& r == step_clocks(old(self).step_index())
                    &&& final(self).clock() == total - FRAME_SEQUENCER_PERIOD
                    &&& final(self).step_index() == (old(self).step_index() + 1) % 8
                } else {
                    &&& r == no_clocks()
                    &&& final(self).clock() == total
                    &&& final(self).step_index() == old(self).step_index()
                }
            }),
    {
        self.clock = self.clock + ticks as u16;
        if self.clock < FRAME_SEQUENCER_PERIOD {
            return FrameClocks { length_timer: false, sweep: false, envelope: false };
        }
        let step = self.step;
        let clocks = FrameClocks {
            length_timer: step == 0 || step == 2 || step == 4 || step == 6,
            sweep: step == 2 || step == 6,
            envelope: step == 7,
        };
        self.clock = self.clock - FRAME_SEQUENCER_PERIOD;
        self.step = ((step as u16 + 1) % 8) as u8;
        clocks
    }

    pub fn reset(&mut self)
        ensures
            final(self).clock() == 0,
            final(self).step_index() == 0,
    {
        self.clock = 0;
        self.step = 0;
    }
}

} // verus!
