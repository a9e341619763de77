use vstd::prelude::*;

verus! {

/// Length counter values selected by the five-bit index of a length write.
pub open spec fn length_table(index: u8) -> u8 {
    let t = seq![
        10u8, 254, 20, 2, 40, 4, 80, 6, 160, 8, 60, 10, 14, 12, 26, 14,
        12, 16, 24, 18, 48, 20, 96, 22, 192, 24, 72, 26, 16, 28, 32, 30,
    ];
    t[index as int % 32]
}

/// Silences a channel after a loaded number of half frames.
pub struct LengthCounter {
    pub counter: u8,
    pub halted: bool,
}

impl LengthCounter {
    pub fn new() -> (r: LengthCounter)
        ensures
            r.counter == 0 && r.halted,
    {
        LengthCounter { counter: 0, halted: true }
    }

    /// Loads the counter from the table.
    pub fn update(&mut self, index: u8)
        ensures
            final(self).counter == length_table(index),
            final(self).halted == old(self).halted,
    {
        let table: [u8; 32] = [
            10, 254, 20, 2, 40, 4, 80, 6, 160, 8, 60, 10, 14, 12, 26, 14,
            12, 16, 24, 18, 48, 20, 96, 22, 192, 24, 72, 26, 16, 28, 32, 30,
        ];
        self.counter = table[(index % 32) as usize];
        proof {
            assert(table@ =~= seq![
                10u8, 254, 20, 2, 40, 4, 80, 6, 160, 8, 60, 10, 14, 12, 26, 14,
                12, 16, 24, 18, 48, 20, 96, 22, 192, 24, 72, 26, 16, 28, 32, 30,
            ]);
        }
    }

    /// Half-frame clock: counts down unless halted or already zero.
    pub fn tick(&mut self)
        ensures
            final(self).counter == if !old(self).halted && old(self).counter > 0 {
                (old(self).counter - 1) as u8
            } else {
                old(self).counter
            },
            final(self).halted == old(self).halted,
    {
        if !self.halted && self.counter > 0 {
            self.counter = self.counter - 1;
        }
    }
}

} // verus!
