use vstd::prelude::*;
use super::lengthcounter::{LengthCounter, length_table};
use super::timer::Timer;

verus! {

pub struct LinearCounter {
    pub reload: bool,
    pub control: bool,
    pub counter: u8,
    pub period: u8,
}

/// The triangle channel: a 32-step ramp 15..0, 0..15.
pub struct Triangle {
    pub enabled: bool,
    pub linear: LinearCounter,
    pub length: LengthCounter,
    pub timer: Timer,
    pub step: u8,
}

/// Output of step `step` of the ramp.
pub open spec fn ramp(step: u8) -> u8 {
    if step < 16 { (15 - step) as u8 } else { (step - 16) as u8 }
}

impl Triangle {
    pub open spec fn wf(&self) -> bool {
        self.step < 32
    }

    pub fn new() -> (r: Triangle)
        ensures
            r.wf(),
            !r.enabled,
            r.length.counter == 0,
            r.step == 0,
    {
        Triangle {
            enabled: false,
            linear: LinearCounter { reload: false, control: false, counter: 0, period: 0 },
            length: LengthCounter::new(),
            timer: Timer::new(),
            step: 0,
        }
    }

    pub fn length_counter(&self) -> (r: u8)
        ensures
            r == self.length.counter,
    {
        self.length.counter
    }

    pub fn set_enabled(&mut self, enabled: bool)
        requires
            old(self).wf(),
        ensures
            final(self).wf(),
            final(self).enabled == enabled,
            final(self).length.counter == if enabled { old(self).length.counter } else { 0 },
    {
        self.enabled = enabled;
        if !enabled {
            self.length.counter = 0;
        }
    }

    /// Control flag (bit 7, also halting the length counter) and linear
    /// counter reload value (bits 0..6).
    pub fn write_counter(&mut self, val: u8)
        requires
            old(self).wf(),
        ensures
            final(self).wf(),
            final(self).linear.control == (val & 0x80 != 0),
            final(self).length.halted == (val & 0x80 != 0),
            final(self).linear.period == val & 0x7F,
            final(self).length.counter == old(self).length.counter,
    {
        self.linear.control = val & 0x80 != 0;
        self.length.halted = val & 0x80 != 0;
        self.linear.period = val & 0x7F;
    }

    pub fn write_timer_lo(&mut self, val: u8)
        requires
            old(self).wf(),
        ensures
            final(self).wf(),
            final(self).timer.period == (old(self).timer.period & 0xFF00) | val as u16,
            final(self).length == old(self).length,
    {
        self.timer.period = (self.timer.period & 0xFF00) | val as u16;
    }

    /// High period bits and length index; asks for a linear counter reload.
    pub fn write_timer_hi(&mut self, val: u8)
        requires
            old(self).wf(),
        ensures
            final(self).wf(),
            final(self).timer.period == (old(self).timer.period & 0x00FF) | (((val & 0x07) as u16) << 8),
            final(self).timer.current == final(self).timer.period,
            final(self).linear.reload,
            final(self).length.counter == if old(self).enabled { length_table(val >> 3) } else { old(self).length.counter },
    {
        self.timer.period = (self.timer.period & 0x00FF) | (((val & 0x07) as u16) << 8);
        self.timer.reset();
        self.linear.reload = true;
        if self.enabled {
            self.length.update(val >> 3);
        }
    }

    /// Timer clock (every CPU cycle): the ramp moves on only while both
    /// counters are non-zero.
    pub fn timer(&mut self)
        requires
            old(self).wf(),
        ensures
            final(self).wf(),
            final(self).step == if old(self).timer.current == 0 && old(self).length.counter > 0 && old(self).linear.counter > 0 {
                ((old(self).step + 1) % 32) as u8
            } else {
                old(self).step
            },
            final(self).length == old(self).length,
            final(self).linear == old(self).linear,
    {
        if self.timer.tick() {
            if self.length.counter > 0 && self.linear.counter > 0 {
                self.step = (self.step + 1) % 32;
            }
        }
    }

    /// Quarter-frame clock of the linear counter.
    pub fn quarter(&mut self)
        requires
            old(self).wf(),
        ensures
            final(self).wf(),
            final(self).linear.counter == if old(self).linear.reload {
                old(self).linear.period
            } else if old(self).linear.counter > 0 {
                (old(self).linear.counter - 1) as u8
            } else {
                0
            },
            final(self).linear.reload == (old(self).linear.reload && old(self).linear.control),
            final(self).length == old(self).length,
    {
        if self.linear.reload {
            self.linear.counter = self.linear.period;
        } else if self.linear.counter > 0 {
            self.linear.counter = self.linear.counter - 1;
        }
        if !self.linear.control {
            self.linear.reload = false;
        }
    }

    pub fn half(&mut self)
        requires
            old(self).wf(),
        ensures
            final(self).wf(),
            final(self).length.counter == if !old(self).length.halted && old(self).length.counter > 0 {
                (old(self).length.counter - 1) as u8
            } else {
                old(self).length.counter
            },
            final(self).linear == old(self).linear,
            final(self).length.halted == old(self).length.halted,
    {
        self.length.tick();
    }

    /// Output level 0..15.
    pub fn signal(&self) -> (r: u8)
        requires
            self.wf(),
        ensures
            r == if self.enabled && self.length.counter != 0 && self.linear.counter != 0 { ramp(self.step) } else { 0 },
    {
        if self.enabled && self.length.counter != 0 && self.linear.counter != 0 {
            if self.step < 16 { 15 - self.step } else { self.step - 16 }
        } else {
            0
        }
    }
}

} // verus!
