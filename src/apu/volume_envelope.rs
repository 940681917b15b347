use vstd::prelude::*;

verus! {

/// The volume envelope of a sound channel: every `pace` ticks of the frame
/// sequencer the volume moves one step up or down, until it reaches 0 or 15.
pub struct VolumeEnvelope {
    pub enabled: bool,
    pub counter: u8,
    pub pace: u8,
    pub direction: bool,
    pub volume: u8,
}

impl VolumeEnvelope {
    /// The tick counter never passes the pace, which fits in three bits.
    pub open spec fn wf(&self) -> bool {
        self.counter <= self.pace && self.pace <= 7
    }

    /// The register byte: volume in bits 4..7, direction in bit 3, pace in bits 0..2.
    pub open spec fn register(&self) -> u8 {
        (self.volume as int % 16 * 16 + (if self.direction { 8int } else { 0 }) + self.pace as int % 8) as u8
    }

    pub fn new() -> (r: Self)
        ensures
            r.wf(),
            !r.enabled && r.counter == 0 && r.pace == 0 && r.direction && r.volume == 0,
    {
        Self { enabled: false, counter: 0, pace: 0, direction: true, volume: 0 }
    }

    /// One envelope tick. Nothing happens while the envelope or its channel is
    /// off. Otherwise the counter advances; once it reaches the pace, the volume
    /// steps (saturating) in the envelope's direction, the counter restarts, and
    /// the envelope turns off when the volume is 0 or 15.
    pub fn cycle(&mut self, channel_enabled: &bool)
        requires
            old(self).wf(),
        ensures
            final(self).wf(),
            ({
                let o = *old(self);
                let n = *final(self);
                if !o.enabled || !*channel_enabled {
                    n == o
                } else if o.counter + 1 < o.pace {
                    n == VolumeEnvelope { counter: (o.counter + 1) as u8, ..o }
                } else {
                    let v: u8 = if o.direction {
                        if o.volume == 255 { 255 } else { (o.volume + 1) as u8 }
                    } else {
                        if o.volume == 0 { 0 } else { (o.volume - 1) as u8 }
                    };
                    n == VolumeEnvelope { volume: v, counter: 0, enabled: !(v == 0 || v == 15), ..o }
                }
            }),
    {
        if !self.enabled || !*channel_enabled {
            return;
        }
        self.counter = self.counter + 1;
        if self.counter < self.pace {
            return;
        }
        self.volume = if self.direction { self.volume.saturating_add(1) } else { self.volume.saturating_sub(1) };
        if self.volume == 0 || self.volume == 15 {
            self.enabled = false;
        }
        self.counter = 0;
    }

    /// Loads the register byte; a nonzero pace turns the envelope on.
    pub fn write(&mut self, value: u8)
        ensures
            final(self).wf(),
            final(self).volume == value / 16,
            final(self).direction == (value / 8 % 2 == 1),
            final(self).pace == value % 8,
            final(self).enabled == (value % 8 > 0),
            final(self).counter == 0,
    {
        self.volume = value / 16;
        self.direction = value / 8 % 2 == 1;
        self.pace = value % 8;
        self.enabled = self.pace > 0;
        self.counter = 0;
    }

    pub fn read(&self) -> (r: u8)
        ensures
            r == self.register(),
    {
        let direction: u8 = if self.direction { 8 } else { 0 };
        (self.volume % 16) * 16 + direction + self.pace % 8
    }

    pub fn reset(&mut self)
        ensures
            final(self).wf(),
            !final(self).enabled && final(self).counter == 0 && final(self).pace == 0 && final(self).direction
                && final(self).volume == 0,
    {
        self.enabled = false;
        self.counter = 0;
        self.volume = 0;
        self.direction = true;
        self.pace = 0;
    }
}

/// Reading the register back after writing it gives the byte written.
pub proof fn lemma_envelope_register_round_trip(value: u8)
    ensures
        (VolumeEnvelope {
            volume: value / 16,
            direction: value / 8 % 2 == 1,
            pace: value % 8,
            enabled: value % 8 > 0,
            counter: 0,
        }).register() == value,
{
}

} // verus!
