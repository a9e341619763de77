use vstd::prelude::*;

verus! {

/// PPU control register (0x2000).
#[derive(Clone, Copy, PartialEq, Eq, Structural, Debug)]
pub struct Controller {
    pub value: u8,
}

/// PPU mask register (0x2001).
#[derive(Clone, Copy, PartialEq, Eq, Structural, Debug)]
pub struct Mask {
    pub value: u8,
}

/// PPU status register (0x2002): bit 7 vblank, bit 6 sprite 0 hit, bit 5
/// sprite overflow.
#[derive(Clone, Copy, PartialEq, Eq, Structural, Debug)]
pub struct Status {
    pub value: u8,
}

pub const CONTROL_VRAM_INC: u8 = 0x04;
pub const CONTROL_SPRITE_ADDR: u8 = 0x08;
pub const CONTROL_BACKGROUND_ADDR: u8 = 0x10;
pub const CONTROL_SPRITE_SIZE: u8 = 0x20;
pub const CONTROL_NMI: u8 = 0x80;

pub const MASK_SHOW_LEFT_BACKGROUND: u8 = 0x02;
pub const MASK_SHOW_LEFT_SPRITES: u8 = 0x04;
pub const MASK_SHOW_BACKGROUND: u8 = 0x08;
pub const MASK_SHOW_SPRITES: u8 = 0x10;

pub const STATUS_OVERFLOW: u8 = 0x20;
pub const STATUS_SPRITE_ZERO: u8 = 0x40;
pub const STATUS_VBLANK: u8 = 0x80;

impl Controller {
    pub open spec fn background_pattern_table_spec(&self) -> u16 {
        if self.value & CONTROL_BACKGROUND_ADDR != 0 { 0x1000u16 } else { 0u16 }
    }

    pub open spec fn sprite_pattern_table_spec(&self) -> u16 {
        if self.value & CONTROL_SPRITE_ADDR != 0 { 0x1000u16 } else { 0u16 }
    }

    pub open spec fn sprite_size_spec(&self) -> u16 {
        if self.value & CONTROL_SPRITE_SIZE != 0 { 16u16 } else { 8u16 }
    }

    /// Step added to the VRAM address after each data port access.
    pub fn vram_increment(&self) -> (r: u8)
        ensures
            r == if self.value & CONTROL_VRAM_INC != 0 { 32u8 } else { 1u8 },
    {
        if self.value & CONTROL_VRAM_INC != 0 { 32 } else { 1 }
    }

    /// Base address of the nametable selected by the two low bits.
    pub fn name_table(&self) -> (r: u16)
        ensures
            r == 0x2000 + 0x400 * (self.value % 4) as u16,
    {
        0x2000 + 0x400 * ((self.value % 4) as u16)
    }

    pub fn background_pattern_table(&self) -> (r: u16)
        ensures
            r == self.background_pattern_table_spec(),
    {
        if self.value & CONTROL_BACKGROUND_ADDR != 0 { 0x1000 } else { 0 }
    }

    pub fn sprite_pattern_table(&self) -> (r: u16)
        ensures
            r == self.sprite_pattern_table_spec(),
    {
        if self.value & CONTROL_SPRITE_ADDR != 0 { 0x1000 } else { 0 }
    }

    /// Sprite height in pixels.
    pub fn sprite_size(&self) -> (r: u16)
        ensures
            r == self.sprite_size_spec(),
    {
        if self.value & CONTROL_SPRITE_SIZE != 0 { 16 } else { 8 }
    }
}

/// The "loopy" model of the PPU's internal scroll registers, with the
/// control, mask, status and OAM address registers.
pub struct Registers {
    pub controller: Controller,
    pub status: Status,
    pub mask: Mask,
    pub oam_address: u8,
    pub v: u16,
    pub t: u16,
    pub x: u8,
    pub latch: bool,
}

/// `v` after a write that may carry it past the PPU address space folds it
/// back into 0x0000..0x3FFF.
pub open spec fn fold_address(v: u16) -> u16 {
    if v > 0x3FFF { v & 0x3FFF } else { v }
}

impl Registers {
    pub fn new() -> (r: Registers)
        ensures
            r.controller.value == 0,
            r.status.value == 0,
            r.mask.value == 0,
            r.oam_address == 0,
            r.v == 0,
            r.t == 0,
            r.x == 0,
            r.latch,
    {
        Registers {
            controller: Controller { value: 0 },
            status: Status { value: 0 },
            mask: Mask { value: 0 },
            oam_address: 0,
            v: 0,
            t: 0,
            x: 0,
            latch: true,
        }
    }

    pub fn write_oam_addr(&mut self, data: u8)
        ensures
            *final(self) == (Registers { oam_address: data, ..*old(self) }),
    {
        self.oam_address = data;
    }

    pub fn increment_oam_addr(&mut self)
        ensures
            *final(self) == (Registers { oam_address: old(self).oam_address.wrapping_add(1), ..*old(self) }),
    {
        self.oam_address = self.oam_address.wrapping_add(1);
    }

    fn mirror_address(&mut self)
        ensures
            *final(self) == (Registers { v: fold_address(old(self).v), ..*old(self) }),
    {
        if self.v > 0x3FFF {
            self.v = self.v & 0x3FFF;
        }
    }

    /// PPU address port: the first write sets t's high six bits (bit 14
    /// cleared), the second sets its low byte and copies t into v.
    pub fn write_address(&mut self, data: u8)
        ensures
            final(self).latch == !old(self).latch,
            old(self).latch ==> final(self).t == (old(self).t & 0x80FF) | (((data as u16) & 0x3F) << 8)
                && final(self).v == fold_address(old(self).v),
            !old(self).latch ==> final(self).t == (old(self).t & 0xFF00) | (data as u16)
                && final(self).v == fold_address(final(self).t),
            final(self).x == old(self).x,
            final(self).controller == old(self).controller,
            final(self).status == old(self).status,
            final(self).mask == old(self).mask,
            final(self).oam_address == old(self).oam_address,
    {
        if self.latch {
            self.t = (self.t & 0x80FF) | (((data as u16) & 0x3F) << 8);
        } else {
            self.t = (self.t & 0xFF00) | (data as u16);
            self.v = self.t;
        }
        self.mirror_address();
        self.latch = !self.latch;
    }

    /// PPU scroll port: the first write sets coarse X and fine x, the second
    /// fine Y and coarse Y.
    pub fn write_scroll(&mut self, data: u8)
        ensures
            final(self).latch == !old(self).latch,
            old(self).latch ==> final(self).t == (old(self).t & 0xFFE0) | ((data as u16) >> 3)
                && final(self).x == data & 0x07,
            !old(self).latch ==> final(self).t
                == (((old(self).t & 0x8FFF) | (((data as u16) & 0x07) << 12)) & 0xFC1F) | (((data as u16) & 0xF8) << 2)
                && final(self).x == old(self).x,
            final(self).v == old(self).v,
            final(self).controller == old(self).controller,
            final(self).status == old(self).status,
            final(self).mask == old(self).mask,
            final(self).oam_address == old(self).oam_address,
    {
        if self.latch {
            self.t = (self.t & 0xFFE0) | ((data as u16) >> 3);
            self.x = data & 0x07;
        } else {
            self.t = (self.t & 0x8FFF) | (((data as u16) & 0x07) << 12);
            self.t = (self.t & 0xFC1F) | (((data as u16) & 0xF8) << 2);
        }
        self.latch = !self.latch;
    }

    /// Control port: stores the value and the nametable bits into t; returns
    /// whether this write switched NMI generation on while vblank is set.
    pub fn write_controller(&mut self, data: u8) -> (r: bool)
        ensures
            final(self).controller.value == data,
            final(self).t == (old(self).t & 0xF3FF) | (((data as u16) & 0x03) << 10),
            r == (old(self).controller.value & CONTROL_NMI == 0 && data & CONTROL_NMI != 0
                && old(self).status.value & STATUS_VBLANK != 0),
            final(self).v == old(self).v,
            final(self).x == old(self).x,
            final(self).latch == old(self).latch,
            final(self).status == old(self).status,
            final(self).mask == old(self).mask,
            final(self).oam_address == old(self).oam_address,
    {
        let was = self.controller.value & CONTROL_NMI != 0;
        self.controller = Controller { value: data };
        self.t = (self.t & 0xF3FF) | (((data as u16) & 0x03) << 10);
        !was && data & CONTROL_NMI != 0 && self.status.value & STATUS_VBLANK != 0
    }

    pub fn read_address(&self) -> (r: u16)
        ensures
            r == self.v,
    {
        self.v
    }

    pub fn x(&self) -> (r: u8)
        ensures
            r == self.x,
    {
        self.x
    }

    /// Advances v by `inc` after a data port access.
    pub fn increment_address(&mut self, inc: u8)
        ensures
            *final(self) == (Registers { v: fold_address(old(self).v.wrapping_add(inc as u16)), ..*old(self) }),
    {
        self.v = self.v.wrapping_add(inc as u16);
        self.mirror_address();
    }

    pub fn reset_latch(&mut self)
        ensures
            *final(self) == (Registers { latch: true, ..*old(self) }),
    {
        self.latch = true;
    }

    /// Copies the vertical scroll bits of t into v.
    pub fn transfer_v(&mut self)
        ensures
            *final(self) == (Registers { v: (old(self).v & 0x841F) | (old(self).t & 0x7BE0), ..*old(self) }),
    {
        self.v = (self.v & 0x841F) | (self.t & 0x7BE0);
    }

    /// Copies the horizontal scroll bits of t into v.
    pub fn transfer_h(&mut self)
        ensures
            *final(self) == (Registers { v: (old(self).v & 0xFBE0) | (old(self).t & 0x041F), ..*old(self) }),
    {
        self.v = (self.v & 0xFBE0) | (self.t & 0x041F);
    }

    /// Next tile column: coarse X wraps from 31 to 0 and switches the
    /// horizontal nametable.
    pub fn increment_x(&mut self)
        ensures
            final(self).v == if old(self).v & 0x1F == 0x1F {
                (old(self).v & !0x1Fu16) ^ 0x0400
            } else {
                (old(self).v + 1) as u16
            },
            *final(self) == (Registers { v: final(self).v, ..*old(self) }),
    {
        if self.v & 0x1F == 0x1F {
            self.v = (self.v & !0x1Fu16) ^ 0x0400;
        } else {
            proof {
                let v = self.v;
                assert(v & 0x1F != 0x1F ==> v < 0xFFFF) by (bit_vector);
            }
            self.v = self.v + 1;
        }
    }

    /// Next pixel row: fine Y counts up to 7, then coarse Y moves on, from
    /// 29 to 0 with a switch of vertical nametable, from 31 to 0 without.
    pub fn increment_y(&mut self)
        ensures
            final(self).v == if old(self).v & 0x7000 != 0x7000 {
                (old(self).v + 0x1000) as u16
            } else {
                let w = old(self).v & !0x7000u16;
                let y = (w & 0x03E0) >> 5;
                if y == 29 {
                    ((w ^ 0x0800) & !0x03E0u16)
                } else if y == 31 {
                    (w & !0x03E0u16)
                } else {
                    (w & !0x03E0u16) | (((y + 1) as u16) << 5)
                }
            },
            *final(self) == (Registers { v: final(self).v, ..*old(self) }),
    {
        if self.v & 0x7000 != 0x7000 {
            proof {
                let v = self.v;
                assert(v & 0x7000 != 0x7000 ==> v <= 0xEFFF) by (bit_vector);
            }
            self.v = self.v + 0x1000;
        } else {
            self.v = self.v & !0x7000u16;
            let y = (self.v & 0x03E0) >> 5;
            proof {
                let v = self.v;
                assert((v & 0x03E0) >> 5 <= 31) by (bit_vector);
            }
            if y == 29 {
                self.v = (self.v ^ 0x0800) & !0x03E0u16;
            } else if y == 31 {
                self.v = self.v & !0x03E0u16;
            } else {
                self.v = (self.v & !0x03E0u16) | ((y + 1) << 5);
            }
        }
    }
}

} // verus!
