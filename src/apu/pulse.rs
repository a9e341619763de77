use vstd::prelude::*;
use super::envelope::Envelope;
use super::lengthcounter::{LengthCounter, length_table};
use super::timer::Timer;

verus! {

#[derive(Clone, Copy, PartialEq, Eq, Structural, Debug)]
pub enum PulseChannel {
    One,
    Two,
}

pub struct Sweep {
    pub enabled: bool,
    pub period: u8,
    pub counter: u8,
    pub negated: bool,
    pub shift: u8,
    pub reload: bool,
}

/// Position in the eight-step waveform and the selected duty cycle.
pub struct Duty {
    pub value: u8,
    pub cycle: u8,
}

/// Level (0 or 1) of step `step` of duty waveform `cycle`: 12.5%, 25%, 50%
/// and 25% negated.
pub open spec fn duty_level(cycle: u8, step: u8) -> u8 {
    let t = seq![
        seq![0u8, 1, 0, 0, 0, 0, 0, 0],
        seq![0u8, 1, 1, 0, 0, 0, 0, 0],
        seq![0u8, 1, 1, 1, 1, 0, 0, 0],
        seq![1u8, 0, 0, 1, 1, 1, 1, 1],
    ];
    t[cycle as int % 4][step as int % 8]
}

fn duty_table(cycle: u8, step: u8) -> (r: u8)
    ensures
        r == duty_level(cycle, step),
{
    let c = cycle % 4;
    let s = step % 8;
    if c == 0 {
        if s == 1 { 1 } else { 0 }
    } else if c == 1 {
        if s == 1 || s == 2 { 1 } else { 0 }
    } else if c == 2 {
        if 1 <= s && s <= 4 { 1 } else { 0 }
    } else {
        if s == 1 || s == 2 { 0 } else { 1 }
    }
}

/// A square-wave channel.
pub struct Pulse {
    pub channel: PulseChannel,
    pub enabled: bool,
    pub sweep: Sweep,
    pub timer: Timer,
    pub length: LengthCounter,
    pub envelope: Envelope,
    pub duty: Duty,
}

/// Whether the sweep unit mutes the channel: a period under 8, or a target
/// period past 0x7FF when adding.
pub open spec fn sweep_mutes(period: u16, negated: bool, shift: u8) -> bool {
    period < 8 || (!negated && period as int + (period >> (shift % 8) as u16) as int > 0x7FF)
}

impl Pulse {
    /// `f` is this channel after one sweep clock: a pending reload restarts
    /// the divider; otherwise it counts down, and when it has run out it
    /// restarts and (sweep on, not muting) moves the period by
    /// `period >> shift`: up, or down with one more for channel one.
    pub open spec fn sweep_post(&self, f: &Pulse) -> bool {
        let p = self.timer.period;
        let delta = (p >> (self.sweep.shift as u16)) as int;
        let fire = !self.sweep.reload && self.sweep.counter == 0 && self.sweep.enabled
            && !sweep_mutes(p, self.sweep.negated, self.sweep.shift);
        let period = if !fire {
            p as int
        } else if self.sweep.negated {
            let d = delta + if self.channel == PulseChannel::One { 1int } else { 0int };
            if p >= d { p - d } else { 0 }
        } else {
            p + delta
        };
        let counter = if self.sweep.reload || self.sweep.counter == 0 {
            self.sweep.period
        } else {
            (self.sweep.counter - 1) as u8
        };
        *f == (Pulse {
            sweep: Sweep { counter: counter, reload: false, ..self.sweep },
            timer: Timer { period: period as u16, ..self.timer },
            ..*self
        })
    }

    pub open spec fn wf(&self) -> bool {
        &&& self.timer.period <= 0x7FF
        &&& self.envelope.wf()
        &&& self.duty.value < 8
        &&& self.duty.cycle < 4
        &&& self.sweep.shift < 8
        &&& self.sweep.period < 8
    }

    pub fn new(channel: PulseChannel) -> (r: Pulse)
        ensures
            r.wf(),
            r.channel == channel,
            !r.enabled,
            r.length.counter == 0,
    {
        Pulse {
            channel,
            enabled: false,
            sweep: Sweep { enabled: false, period: 0, counter: 0, negated: false, shift: 0, reload: false },
            timer: Timer::new(),
            length: LengthCounter::new(),
            envelope: Envelope::new(),
            duty: Duty { value: 0, cycle: 0 },
        }
    }

    pub fn length_counter(&self) -> (r: u8)
        ensures
            r == self.length.counter,
    {
        self.length.counter
    }

    /// Enables the channel; disabling also clears its length counter.
    pub fn set_enabled(&mut self, enabled: bool)
        requires
            old(self).wf(),
        ensures
            final(self).wf(),
            final(self).enabled == enabled,
            final(self).length.counter == if enabled { old(self).length.counter } else { 0 },
            final(self).timer == old(self).timer,
    {
        self.enabled = enabled;
        if !enabled {
            self.length.counter = 0;
        }
    }

    /// Duty cycle (bits 6..7), length halt (bit 5) and envelope (bits 0..5).
    pub fn write_control(&mut self, val: u8)
        requires
            old(self).wf(),
        ensures
            final(self).wf(),
            final(self).duty.cycle == (val >> 6) & 0x03,
            final(self).length.halted == (val & 0x20 != 0),
            final(self).length.counter == old(self).length.counter,
            final(self).envelope.rate == val & 0x0F,
            final(self).envelope.enabled == (val & 0x10 == 0),
            final(self).timer == old(self).timer,
    {
        self.duty.cycle = (val >> 6) & 0x03;
        proof {
            assert((val >> 6) & 0x03 < 4) by (bit_vector);
        }
        self.length.halted = (val & 0x20) != 0;
        self.envelope.set(val);
    }

    /// Sweep enable (bit 7), divider period (bits 4..6), negate (bit 3) and
    /// shift (bits 0..2); restarts the divider.
    pub fn write_sweep(&mut self, val: u8)
        requires
            old(self).wf(),
        ensures
            final(self).wf(),
            final(self).sweep.enabled == (val & 0x80 != 0),
            final(self).sweep.period == (val >> 4) & 0x07,
            final(self).sweep.negated == (val & 0x08 != 0),
            final(self).sweep.shift == val & 0x07,
            final(self).sweep.reload,
            final(self).timer == old(self).timer,
            final(self).length == old(self).length,
    {
        self.sweep.enabled = (val & 0x80) != 0;
        self.sweep.period = (val >> 4) & 0x07;
        self.sweep.negated = (val & 0x08) != 0;
        self.sweep.shift = val & 0x07;
        self.sweep.reload = true;
        proof {
            assert((val >> 4) & 0x07 < 8 && val & 0x07 < 8) by (bit_vector);
        }
    }

    /// Low eight bits of the timer period.
    pub fn write_timer_lo(&mut self, val: u8)
        requires
            old(self).wf(),
        ensures
            final(self).wf(),
            final(self).timer.period == (old(self).timer.period & 0xFF00) | val as u16,
            final(self).timer.current == old(self).timer.current,
            final(self).length == old(self).length,
    {
        self.timer.period = (self.timer.period & 0xFF00) | val as u16;
        proof {
            let p = old(self).timer.period;
            assert(p <= 0x7FF ==> (p & 0xFF00) | (val as u16) <= 0x7FF) by (bit_vector);
        }
    }

    /// High three bits of the period and a length index (bits 3..7, loaded
    /// only while enabled); restarts the timer, waveform and envelope.
    pub fn write_timer_hi(&mut self, val: u8)
        requires
            old(self).wf(),
        ensures
            final(self).wf(),
            final(self).timer.period == (old(self).timer.period & 0x00FF) | (((val & 0x07) as u16) << 8),
            final(self).timer.current == final(self).timer.period,
            final(self).duty.value == 0,
            final(self).envelope.reset,
            final(self).length.counter == if old(self).enabled { length_table(val >> 3) } else { old(self).length.counter },
    {
        self.timer.period = (self.timer.period & 0x00FF) | (((val & 0x07) as u16) << 8);
        proof {
            let p = old(self).timer.period;
            assert((p & 0x00FF) | (((val & 0x07) as u16) << 8) <= 0x7FF) by (bit_vector);
        }
        self.timer.reset();
        self.duty.value = 0;
        self.envelope.reset();
        if self.enabled {
            self.length.update(val >> 3);
        }
    }

    /// Timer clock (every other CPU cycle): when the period elapses the
    /// waveform moves one step.
    pub fn timer(&mut self)
        requires
            old(self).wf(),
        ensures
            final(self).wf(),
            final(self).duty.value == if old(self).timer.current == 0 {
                (old(self).duty.value + 1) % 8
            } else {
                old(self).duty.value as int
            },
            final(self).timer.period == old(self).timer.period,
            final(self).length == old(self).length,
    {
        if self.timer.tick() {
            self.duty.value = (self.duty.value + 1) % 8;
        }
    }

    pub fn quarter(&mut self)
        requires
            old(self).wf(),
        ensures
            final(self).wf(),
            old(self).envelope.ticked(&final(self).envelope),
            *final(self) == (Pulse { envelope: final(self).envelope, ..*old(self) }),
    {
        self.envelope.tick();
    }

    /// Half-frame clock: sweep unit, then length counter.
    pub fn half(&mut self)
        requires
            old(self).wf(),
        ensures
            final(self).wf(),
            final(self).length.counter == if !old(self).length.halted && old(self).length.counter > 0 {
                (old(self).length.counter - 1) as u8
            } else {
                old(self).length.counter
            },
            final(self).length.halted == old(self).length.halted,
            old(self).sweep_post(&Pulse { length: old(self).length, ..*final(self) }),
    {
        self.sweep_tick();
        self.length.tick();
    }

    /// The sweep divider; when it runs out (and the sweep is on and not
    /// muting) the period moves by `period >> shift`: up, or down with one
    /// more for channel one.
    fn sweep_tick(&mut self)
        requires
            old(self).wf(),
        ensures
            final(self).wf(),
            old(self).sweep_post(final(self)),
    {
        if self.sweep.reload {
            self.sweep.counter = self.sweep.period;
            self.sweep.reload = false;
        } else if self.sweep.counter > 0 {
            self.sweep.counter = self.sweep.counter - 1;
        } else {
            self.sweep.counter = self.sweep.period;
            if self.sweep.enabled && !self.sweep_silent() {
                let delta = self.timer.period >> (self.sweep.shift as u16);
                proof {
                    let p = self.timer.period;
                    let s = self.sweep.shift as u16;
                    assert(p >> s <= p) by (bit_vector);
                }
                if self.sweep.negated {
                    let d = match self.channel {
                        PulseChannel::One => delta + 1,
                        PulseChannel::Two => delta,
                    };
                    self.timer.period = self.timer.period.saturating_sub(d);
                } else {
                    self.timer.period = self.timer.period + delta;
                }
            }
        }
    }

    fn sweep_silent(&self) -> (r: bool)
        requires
            self.wf(),
        ensures
            r == sweep_mutes(self.timer.period, self.sweep.negated, self.sweep.shift),
    {
        proof {
            let p = self.timer.period;
            let s = self.sweep.shift as u16;
            assert(p >> s <= p) by (bit_vector);
            assert(self.sweep.shift % 8 == self.sweep.shift);
        }
        let next = self.timer.period + (self.timer.period >> (self.sweep.shift as u16));
        self.timer.period < 8 || (!self.sweep.negated && next > 0x7FF)
    }

    /// Output level 0..15: the envelope while the waveform is high, the
    /// length counter runs and the sweep does not mute.
    pub fn signal(&self) -> (r: u8)
        requires
            self.wf(),
        ensures
            r == if duty_level(self.duty.cycle, self.duty.value) != 0 && self.length.counter != 0
                && !sweep_mutes(self.timer.period, self.sweep.negated, self.sweep.shift) {
                if self.envelope.enabled { self.envelope.volume } else { self.envelope.rate }
            } else {
                0
            },
    {
        if duty_table(self.duty.cycle, self.duty.value) != 0 && self.length.counter != 0 && !self.sweep_silent() {
            self.envelope.output()
        } else {
            0
        }
    }
}

} // verus!
