use vstd::prelude::*;
use super::envelope::Envelope;
use super::lengthcounter::{LengthCounter, length_table};
use super::timer::Timer;

verus! {

#[derive(Clone, Copy, PartialEq, Eq, Structural, Debug)]
pub enum ShiftMode {
    One,
    Six,
}

/// The 15-bit feedback shift register.
pub struct Shift {
    pub mode: ShiftMode,
    pub value: u16,
}

/// Timer periods selected by the low four bits of the period write.
pub open spec fn noise_period(index: u8) -> u16 {
    let t = seq![4u16, 8, 16, 32, 64, 96, 128, 160, 202, 254, 380, 508, 762, 1016, 2034, 4068];
    t[index as int % 16]
}

/// Next shift register value: feedback is bit 0 xor bit 1 (or bit 6 in the
/// short mode), fed in at bit 14 while the register shifts right.
pub open spec fn shift_next(value: u16, amount: u16) -> u16 {
    let feedback = (value & 0x01) ^ ((value >> amount) & 0x01);
    ((value & 0x7FFF) | (feedback << 14u16)) >> 1u16
}

pub struct Noise {
    pub enabled: bool,
    pub envelope: Envelope,
    pub length: LengthCounter,
    pub shift: Shift,
    pub timer: Timer,
}

impl Shift {
    /// The bit that feeds back with bit 0.
    pub fn amount(&self) -> (r: u16)
        ensures
            r == if self.mode == ShiftMode::One { 1u16 } else { 6u16 },
    {
        match self.mode {
            ShiftMode::One => 1,
            ShiftMode::Six => 6,
        }
    }
}

impl Noise {
    pub open spec fn wf(&self) -> bool {
        self.envelope.wf()
    }

    pub fn new() -> (r: Noise)
        ensures
            r.wf(),
            !r.enabled,
            r.length.counter == 0,
            r.shift.value == 1,
    {
        Noise {
            enabled: false,
            envelope: Envelope::new(),
            length: LengthCounter::new(),
            shift: Shift { mode: ShiftMode::One, value: 1 },
            timer: Timer::new(),
        }
    }

    pub fn length_counter(&self) -> (r: u8)
        ensures
            r == self.length.counter,
    {
        self.length.counter
    }

    pub fn set_enabled(&mut self, enabled: bool)
        requires
            old(self).wf(),
        ensures
            final(self).wf(),
            final(self).enabled == enabled,
            final(self).length.counter == if enabled { old(self).length.counter } else { 0 },
    {
        self.enabled = enabled;
        if !enabled {
            self.length.counter = 0;
        }
    }

    pub fn write_control(&mut self, val: u8)
        requires
            old(self).wf(),
        ensures
            final(self).wf(),
            final(self).length.halted == (val & 0x20 != 0),
            final(self).length.counter == old(self).length.counter,
            final(self).envelope.rate == val & 0x0F,
            final(self).envelope.enabled == (val & 0x10 == 0),
    {
        self.length.halted = (val & 0x20) != 0;
        self.envelope.set(val);
    }

    /// Period from the table (bits 0..3) and the mode (bit 7).
    pub fn write_timer(&mut self, val: u8)
        requires
            old(self).wf(),
        ensures
            final(self).wf(),
            final(self).timer.period == noise_period(val & 0x0F),
            final(self).shift.mode == if val & 0x80 == 0 { ShiftMode::One } else { ShiftMode::Six },
            final(self).shift.value == old(self).shift.value,
            final(self).length == old(self).length,
    {
        let table: [u16; 16] = [4, 8, 16, 32, 64, 96, 128, 160, 202, 254, 380, 508, 762, 1016, 2034, 4068];
        proof {
            assert(table@ =~= seq![4u16, 8, 16, 32, 64, 96, 128, 160, 202, 254, 380, 508, 762, 1016, 2034, 4068]);
            assert(val & 0x0F < 16) by (bit_vector);
        }
        self.timer.period = table[(val & 0x0F) as usize];
        self.shift.mode = if val & 0x80 == 0 { ShiftMode::One } else { ShiftMode::Six };
    }

    pub fn write_length(&mut self, val: u8)
        requires
            old(self).wf(),
        ensures
            final(self).wf(),
            final(self).envelope.reset,
            final(self).length.counter == if old(self).enabled { length_table(val >> 3) } else { old(self).length.counter },
    {
        self.envelope.reset();
        if self.enabled {
            self.length.update(val >> 3);
        }
    }

    /// Timer clock: when the period elapses the shift register steps.
    pub fn timer(&mut self)
        requires
            old(self).wf(),
        ensures
            final(self).wf(),
            final(self).shift.value == if old(self).timer.current == 0 {
                shift_next(old(self).shift.value, if old(self).shift.mode == ShiftMode::One { 1u16 } else { 6u16 })
            } else {
                old(self).shift.value
            },
            final(self).length == old(self).length,
    {
        if self.timer.tick() {
            let amount = self.shift.amount();
            let v = self.shift.value;
            let feedback = (v & 0x01) ^ ((v >> amount) & 0x01);
            self.shift.value = ((v & 0x7FFF) | (feedback << 14u16)) >> 1u16;
        }
    }

    pub fn quarter(&mut self)
        requires
            old(self).wf(),
        ensures
            final(self).wf(),
            old(self).envelope.ticked(&final(self).envelope),
            *final(self) == (Noise { envelope: final(self).envelope, ..*old(self) }),
    {
        self.envelope.tick();
    }

    pub fn half(&mut self)
        requires
            old(self).wf(),
        ensures
            final(self).wf(),
            final(self).length.counter == if !old(self).length.halted && old(self).length.counter > 0 {
                (old(self).length.counter - 1) as u8
            } else {
                old(self).length.counter
            },
            final(self).length.halted == old(self).length.halted,
            *final(self) == (Noise { length: final(self).length, ..*old(self) }),
    {
        self.length.tick();
    }

    /// Output level 0..15, silent while bit 0 of the shift register is set.
    pub fn signal(&self) -> (r: u8)
        requires
            self.wf(),
        ensures
            r == if self.enabled && self.shift.value & 0x01 == 0 && self.length.counter != 0 {
                if self.envelope.enabled { self.envelope.volume } else { self.envelope.rate }
            } else {
                0
            },
    {
        if self.enabled && self.shift.value & 0x01 == 0 && self.length.counter != 0 {
            self.envelope.output()
        } else {
            0
        }
    }
}

} // verus!
