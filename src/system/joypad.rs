use vstd::prelude::*;

verus! {

/// Controller buttons, in the order the shift register reports them.
#[derive(Clone, Copy, PartialEq, Eq, Structural, Debug)]
pub enum Flag {
    A,
    B,
    Select,
    Start,
    Up,
    Down,
    Left,
    Right,
}

pub open spec fn button_mask(button: Flag) -> u8 {
    match button {
        Flag::A => 0x01,
        Flag::B => 0x02,
        Flag::Select => 0x04,
        Flag::Start => 0x08,
        Flag::Up => 0x10,
        Flag::Down => 0x20,
        Flag::Left => 0x40,
        Flag::Right => 0x80,
    }
}

fn mask_of(button: Flag) -> (r: u8)
    ensures
        r == button_mask(button),
{
    match button {
        Flag::A => 0x01,
        Flag::B => 0x02,
        Flag::Select => 0x04,
        Flag::Start => 0x08,
        Flag::Up => 0x10,
        Flag::Down => 0x20,
        Flag::Left => 0x40,
        Flag::Right => 0x80,
    }
}

/// A standard controller: eight button bits read out serially.
pub struct Joypad {
    pub strobe: bool,
    pub index: u8,
    pub buttons: u8,
}

impl Joypad {
    pub open spec fn wf(&self) -> bool {
        self.index <= 8
    }

    pub fn new() -> (r: Joypad)
        ensures
            r.wf(),
            !r.strobe && r.index == 0 && r.buttons == 0,
    {
        Joypad { strobe: false, index: 0, buttons: 0 }
    }

    /// Next button bit (in bit 0, with 0x40 from the open bus); while the
    /// strobe is high the first button repeats. After all eight, 1 (0x41).
    pub fn read(&mut self) -> (r: u8)
        requires
            old(self).wf(),
        ensures
            final(self).wf(),
            old(self).index > 7 ==> r == 0x41 && *final(self) == *old(self),
            old(self).index <= 7 ==> r == (((old(self).buttons >> old(self).index) & 1) | 0x40)
                && final(self).index == if old(self).strobe { old(self).index } else { (old(self).index + 1) as u8 },
            final(self).buttons == old(self).buttons,
            final(self).strobe == old(self).strobe,
    {
        if self.index > 7 {
            return 0x41;
        }
        let res = (self.buttons >> self.index) & 1;
        if !self.strobe {
            self.index = self.index + 1;
        }
        res | 0x40
    }

    /// Strobe write (bit 0); a high strobe restarts the readout.
    pub fn write(&mut self, data: u8)
        requires
            old(self).wf(),
        ensures
            final(self).wf(),
            final(self).strobe == (data & 1 == 1),
            final(self).index == if data & 1 == 1 { 0 } else { old(self).index },
            final(self).buttons == old(self).buttons,
    {
        self.strobe = data & 1 == 1;
        if self.strobe {
            self.index = 0;
        }
    }

    pub fn push(&mut self, button: Flag)
        ensures
            *final(self) == (Joypad { buttons: old(self).buttons | button_mask(button), ..*old(self) }),
    {
        self.buttons = self.buttons | mask_of(button);
    }

    pub fn release(&mut self, button: Flag)
        ensures
            *final(self) == (Joypad { buttons: old(self).buttons & !button_mask(button), ..*old(self) }),
    {
        self.buttons = self.buttons & !mask_of(button);
    }
}

} // verus!
