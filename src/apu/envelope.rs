use vstd::prelude::*;

verus! {

/// Volume envelope: a decaying volume, or a constant one when disabled.
pub struct Envelope {
    pub looped: bool,
    pub enabled: bool,
    pub rate: u8,
    pub volume: u8,
    pub reset: bool,
    pub counter: u8,
}

impl Envelope {
    pub open spec fn wf(&self) -> bool {
        self.volume <= 15 && self.rate <= 15
    }

    pub fn new() -> (r: Envelope)
        ensures
            r.wf(),
            !r.looped && !r.enabled && r.rate == 0 && r.volume == 0 && !r.reset && r.counter == 0,
    {
        Envelope { looped: false, enabled: false, rate: 0, volume: 0, reset: false, counter: 0 }
    }

    /// Loads the loop flag (bit 5), the constant-volume flag (bit 4, clear
    /// means the envelope runs) and the rate or volume (bits 0..3).
    pub fn set(&mut self, val: u8)
        requires
            old(self).wf(),
        ensures
            final(self).wf(),
            final(self).looped == (val & 0x20 != 0),
            final(self).enabled == (val & 0x10 == 0),
            final(self).rate == val & 0x0F,
            final(self).volume == old(self).volume,
            final(self).reset == old(self).reset,
            final(self).counter == old(self).counter,
    {
        self.looped = (val & 0x20) != 0;
        self.enabled = (val & 0x10) == 0;
        self.rate = val & 0x0F;
        proof {
            assert(val & 0x0F <= 15) by (bit_vector);
        }
    }

    /// Asks for a restart on the next quarter frame.
    pub fn reset(&mut self)
        ensures
            *final(self) == (Envelope { reset: true, ..*old(self) }),
    {
        self.reset = true;
    }

    /// `f` is this envelope after one quarter-frame clock.
    pub open spec fn ticked(&self, f: &Envelope) -> bool {
        if self.reset {
            *f == (Envelope { reset: false, volume: 15, counter: self.rate, ..*self })
        } else if self.counter > 0 {
            *f == (Envelope { counter: (self.counter - 1) as u8, ..*self })
        } else {
            *f == (Envelope {
                counter: self.rate,
                volume: if self.volume > 0 { (self.volume - 1) as u8 } else if self.looped { 15 } else { 0 },
                ..*self
            })
        }
    }

    /// Quarter-frame clock: a restart sets the volume to 15; otherwise the
    /// divider counts down and, when it runs out, the volume decays (or
    /// loops back to 15).
    pub fn tick(&mut self)
        requires
            old(self).wf(),
        ensures
            final(self).wf(),
            old(self).ticked(final(self)),
    {
        if self.reset {
            self.reset = false;
            self.volume = 15;
            self.counter = self.rate;
        } else if self.counter > 0 {
            self.counter = self.counter - 1;
        } else {
            self.counter = self.rate;
            if self.volume > 0 {
                self.volume = self.volume - 1;
            } else if self.looped {
                self.volume = 15;
            }
        }
    }

    /// Output volume: the decaying volume, or the constant one.
    pub fn output(&self) -> (r: u8)
        ensures
            r == if self.enabled { self.volume } else { self.rate },
    {
        if self.enabled { self.volume } else { self.rate }
    }
}

} // verus!
