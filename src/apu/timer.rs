use vstd::prelude::*;

verus! {

/// A down-counter that reloads from `period` when it runs out.
pub struct Timer {
    pub period: u16,
    pub current: u16,
}

impl Timer {
    pub fn new() -> (r: Timer)
        ensures
            r.period == 0 && r.current == 0,
    {
        Timer { period: 0, current: 0 }
    }

    pub fn reset(&mut self)
        ensures
            final(self).current == old(self).period,
            final(self).period == old(self).period,
    {
        self.current = self.period;
    }

    pub fn tick(&mut self) -> (r: bool)
        ensures
            r == (old(self).current == 0),
            final(self).period == old(self).period,
            final(self).current == if r { old(self).period } else { (old(self).current - 1) as u16 },
    {
        self.tick_cycles(1)
    }

    /// Counts down by `cycles` (not below zero); at zero instead reloads and
    /// reports that the period elapsed.
    pub fn tick_cycles(&mut self, cycles: u16) -> (r: bool)
        ensures
            r == (old(self).current == 0),
            final(self).period == old(self).period,
            final(self).current == if r {
                old(self).period
            } else if old(self).current >= cycles {
                (old(self).current - cycles) as u16
            } else {
                0
            },
    {
        if self.current > 0 {
            self.current = self.current.saturating_sub(cycles);
            false
        } else {
            self.reset();
            true
        }
    }
}

} // verus!
