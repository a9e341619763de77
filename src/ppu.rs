pub mod frame;
pub mod palette;
pub mod register;
pub mod state;

use vstd::prelude::*;
use crate::mapper::{Mapper, MapperEvent, Mirroring, mirror_coeff};
use frame::Frame;
use palette::system_color;
use register::{
    fold_address, Controller, Mask, Registers, Status, CONTROL_NMI, CONTROL_VRAM_INC, MASK_SHOW_BACKGROUND,
    MASK_SHOW_LEFT_BACKGROUND, MASK_SHOW_LEFT_SPRITES, MASK_SHOW_SPRITES, STATUS_OVERFLOW,
    STATUS_SPRITE_ZERO, STATUS_VBLANK,
};
use state::{RenderState, SpriteState, State};

verus! {

pub const TOTAL_SCANLINES: u16 = 262;
pub const SCANLINE_DURATION: u16 = 341;
/// The scanline on whose second dot vblank starts.
pub const VBLANK_LINE: u16 = 241;
/// PPU ticks between the NMI condition rising and the CPU seeing it.
pub const NMI_DELAY: u8 = 15;

/// The NMI output, asserted a few ticks after vblank and NMI-enable are
/// both on.
pub struct NMI {
    pub pending: bool,
    pub delay: u8,
    pub prev: bool,
}

impl NMI {
    pub fn new() -> (r: NMI)
        ensures
            !r.pending && r.delay == 0 && !r.prev,
    {
        NMI { pending: false, delay: 0, prev: false }
    }

    /// Follows the level `occurred && enabled`; a rising edge starts the
    /// countdown.
    pub fn change(&mut self, occurred: bool, enabled: bool)
        ensures
            final(self).prev == (occurred && enabled),
            final(self).delay == if occurred && enabled && !old(self).prev { NMI_DELAY } else { old(self).delay },
            final(self).pending == old(self).pending,
    {
        let curr = enabled && occurred;
        if curr && !self.prev {
            self.delay = NMI_DELAY;
        }
        self.prev = curr;
    }

    /// Takes the pending NMI, if any.
    pub fn poll(&mut self) -> (r: bool)
        ensures
            r == old(self).pending,
            !final(self).pending,
            final(self).delay == old(self).delay,
            final(self).prev == old(self).prev,
    {
        let res = self.pending;
        self.pending = false;
        res
    }

    /// One PPU tick of the countdown; reaching zero asserts NMI.
    pub fn tick(&mut self)
        ensures
            final(self).delay == if old(self).delay > 0 { (old(self).delay - 1) as u8 } else { 0 },
            final(self).pending == (old(self).pending || old(self).delay == 1),
            final(self).prev == old(self).prev,
    {
        if self.delay > 0 {
            self.delay = self.delay - 1;
            if self.delay == 0 {
                self.pending = true;
            }
        }
    }
}

/// Index into palette RAM for a PPU address at 0x3F00 and up: entries 0x10,
/// 0x14, 0x18 and 0x1C alias 0x00, 0x04, 0x08 and 0x0C.
pub open spec fn palette_index(addr: u16) -> int {
    let a = addr as int % 0x20;
    if a == 0x10 || a == 0x14 || a == 0x18 || a == 0x1C { a - 0x10 } else { a }
}

/// Index into the 2 KiB of nametable RAM for a PPU address at 0x2000 and up.
pub open spec fn vram_index(m: Mirroring, addr: u16) -> int {
    let a = (addr - 0x2000) % 0x1000;
    (mirror_coeff(m, a / 0x400) * 0x400 + a % 0x400) % 0x800
}

/// Beam position after one dot: the last dot of the pre-render line is
/// skipped on odd frames while rendering is on.
pub open spec fn next_position(line: u16, dot: u16, odd: bool, rendering: bool) -> (u16, u16, bool) {
    if rendering && odd && line == 261 && dot == 339 {
        (0, 0, false)
    } else if dot + 1 == 341 {
        if line + 1 == 262 { (0, 0, !odd) } else { ((line + 1) as u16, 0, odd) }
    } else {
        (line, (dot + 1) as u16, odd)
    }
}

/// Beam position after `k` dots from (`line`, `dot`) with rendering fixed.
pub open spec fn advance(line: u16, dot: u16, odd: bool, rendering: bool, k: nat) -> (u16, u16, bool)
    decreases k,
{
    if k == 0 {
        (line, dot, odd)
    } else {
        let p = advance(line, dot, odd, rendering, (k - 1) as nat);
        next_position(p.0, p.1, p.2, rendering)
    }
}

/// Dots in a frame: 262 x 341, one fewer on odd frames while rendering.
pub open spec fn frame_dots(odd: bool, rendering: bool) -> nat {
    if odd && rendering { 89341 } else { 89342 }
}

/// A frame from (0, 0) visits dot k of the frame (line k / 341, dot
/// k % 341) after k ticks, and is back at (0, 0) of the next frame after
/// exactly `frame_dots` ticks.
pub proof fn lemma_frame_length(odd: bool, rendering: bool, k: nat)
    requires
        k <= frame_dots(odd, rendering),
    ensures
        k < frame_dots(odd, rendering) ==> advance(0, 0, odd, rendering, k) == ((k / 341) as u16, (k % 341) as u16, odd),
        k == frame_dots(odd, rendering) ==> advance(0, 0, odd, rendering, k) == (0u16, 0u16, !odd),
    decreases k,
{
    if k > 0 {
        lemma_frame_length(odd, rendering, (k - 1) as nat);
        let j = (k - 1) as nat;
        assert(j / 341 <= 261);
        if j % 341 == 340 {
            assert(k / 341 == j / 341 + 1 && k % 341 == 0);
        } else {
            assert(k / 341 == j / 341 && k % 341 == j % 341 + 1);
        }
    }
}

/// Vblank (the frame signal and the NMI source) starts at exactly one dot
/// of each frame: line 241, dot 1.
pub proof fn lemma_one_vblank_per_frame(odd: bool, rendering: bool, k: nat)
    requires
        k < frame_dots(odd, rendering),
    ensures
        ({
            let p = advance(0, 0, odd, rendering, k);
            (p.0 == VBLANK_LINE && p.1 == 1) <==> k == 241 * 341 + 1
        }),
{
    lemma_frame_length(odd, rendering, k);
}

/// Background and sprite pixels combined into the low byte of a palette
/// address: sprite colors get bit 4 set; when both are opaque the sprite's
/// priority bit decides (0 = sprite in front).
pub open spec fn compose_spec(background: u8, sprite: u8, priority: u8) -> u16 {
    let b = background % 4 != 0;
    let s = sprite % 4 != 0;
    if !b && !s {
        0
    } else if !b {
        (sprite as u16) | 0x10
    } else if !s {
        background as u16
    } else if priority == 0 {
        (sprite as u16) | 0x10
    } else {
        background as u16
    }
}

pub fn compose(background: u8, sprite: u8, priority: u8) -> (r: u16)
    ensures
        r == compose_spec(background, sprite, priority),
{
    let b = background % 4 != 0;
    let s = sprite % 4 != 0;
    if !b && !s {
        0
    } else if !b {
        (sprite as u16) | 0x10
    } else if !s {
        background as u16
    } else if priority == 0 {
        (sprite as u16) | 0x10
    } else {
        background as u16
    }
}

/// Four-bit pixel from bit `b` of the two pattern planes and the palette
/// bits `attr`.
pub open spec fn pixel_nibble(lo: u8, hi: u8, attr: u8, b: u8) -> u32 {
    (attr as u32) | (((lo >> b) & 1) as u32) | ((((hi >> b) & 1) as u32) << 1)
}

/// Eight pixels of one pattern row, leftmost in the high nibble; `flip`
/// mirrors the row.
pub open spec fn row_pattern(lo: u8, hi: u8, attr: u8, flip: bool) -> u32 {
    let b = |k: u8| if flip { k } else { (7 - k) as u8 };
    (pixel_nibble(lo, hi, attr, b(0)) << 28) | (pixel_nibble(lo, hi, attr, b(1)) << 24)
        | (pixel_nibble(lo, hi, attr, b(2)) << 20) | (pixel_nibble(lo, hi, attr, b(3)) << 16)
        | (pixel_nibble(lo, hi, attr, b(4)) << 12) | (pixel_nibble(lo, hi, attr, b(5)) << 8)
        | (pixel_nibble(lo, hi, attr, b(6)) << 4) | pixel_nibble(lo, hi, attr, b(7))
}

fn nibble(lo: u8, hi: u8, attr: u8, b: u8) -> (r: u32)
    requires
        b < 8,
    ensures
        r == pixel_nibble(lo, hi, attr, b),
{
    (attr as u32) | (((lo >> b) & 1) as u32) | ((((hi >> b) & 1) as u32) << 1)
}

pub fn pattern_row(lo: u8, hi: u8, attr: u8, flip: bool) -> (r: u32)
    ensures
        r == row_pattern(lo, hi, attr, flip),
{
    let b0: u8 = if flip { 0 } else { 7 };
    let b1: u8 = if flip { 1 } else { 6 };
    let b2: u8 = if flip { 2 } else { 5 };
    let b3: u8 = if flip { 3 } else { 4 };
    let b4: u8 = if flip { 4 } else { 3 };
    let b5: u8 = if flip { 5 } else { 2 };
    let b6: u8 = if flip { 6 } else { 1 };
    let b7: u8 = if flip { 7 } else { 0 };
    (nibble(lo, hi, attr, b0) << 28) | (nibble(lo, hi, attr, b1) << 24)
        | (nibble(lo, hi, attr, b2) << 20) | (nibble(lo, hi, attr, b3) << 16)
        | (nibble(lo, hi, attr, b4) << 12) | (nibble(lo, hi, attr, b5) << 8)
        | (nibble(lo, hi, attr, b6) << 4) | nibble(lo, hi, attr, b7)
}

/// Color (0..15) that a sprite row `pattern` placed at `position` shows at
/// screen dot `dot` (pixel x + 1); 0 where it does not cover the dot.
pub open spec fn sprite_color(pattern: u32, position: u8, dot: u16) -> u8 {
    let off = dot as int - 1 - position as int;
    if 0 <= off <= 7 { ((pattern >> ((7 - off) * 4) as u32) & 0x0F) as u8 } else { 0 }
}

/// Whether OAM entry `i` covers scanline `line` for sprites `size` rows tall.
pub open spec fn covers(oam: Seq<u8>, i: int, line: u16, size: u16) -> bool {
    let d = (line as int) - (oam[4 * i] as int);
    0 <= d && d < (size as int)
}

/// How many of the first `n` OAM entries cover scanline `line`.
pub open spec fn covering(oam: Seq<u8>, line: u16, size: u16, n: nat) -> nat
    decreases n,
{
    if n == 0 {
        0
    } else {
        covering(oam, line, size, (n - 1) as nat) + if covers(oam, n - 1, line, size) { 1nat } else { 0nat }
    }
}

/// Pattern address of row `row` of a sprite with tile byte `tile` and
/// attributes `attrs`: 8x8 sprites use the controller's table; 8x16 sprites
/// take the table from bit 0 of the tile and use tiles `tile & 0xFE` and the
/// next. Bit 7 of the attributes flips vertically.
pub open spec fn sprite_address(table: u16, size: u16, tile: u8, attrs: u8, row: u16) -> u16 {
    if size == 8 {
        let r = if attrs & 0x80 != 0 { 7 - row } else { row as int };
        (table + tile as int * 16 + r) as u16
    } else {
        let r = if attrs & 0x80 != 0 { 15 - row } else { row as int };
        let t = (tile & 0xFE) as int + if r > 7 { 1int } else { 0int };
        let rr = if r > 7 { r - 8 } else { r };
        (0x1000 * (tile & 1) as int + t * 16 + rr) as u16
    }
}

/// The NMI latch after following the level `vblank && enabled`: a rising
/// edge starts the countdown.
pub open spec fn nmi_followed(o: &NMI, f: &NMI, level: bool) -> bool {
    &&& f.prev == level
    &&& f.pending == o.pending
    &&& f.delay == if level && !o.prev { NMI_DELAY } else { o.delay }
}

/// What a data port write of `data` leaves: the byte stored at v (CHR
/// through the mapper, nametable RAM or palette RAM) and v advanced.
pub open spec fn data_written(o: &PPU, f: &PPU, data: u8) -> bool {
    let v = o.registers.v % 0x4000;
    let nv = fold_address(o.registers.v.wrapping_add(
        if o.registers.controller.value & CONTROL_VRAM_INC != 0 { 32u16 } else { 1u16 }));
    &&& v < 0x2000 ==> o.mapper.write_post(&f.mapper, v, data) && *f == (PPU {
        mapper: f.mapper, registers: Registers { v: nv, ..o.registers }, ..*o })
    &&& 0x2000 <= v < 0x3F00 ==> *f == (PPU {
        vram: f.vram, registers: Registers { v: nv, ..o.registers }, ..*o })
        && f.vram@ == o.vram@.update(vram_index(o.mapper.mirroring_spec(), v), data)
    &&& v >= 0x3F00 ==> *f == (PPU {
        palette: f.palette, registers: Registers { v: nv, ..o.registers }, ..*o })
        && f.palette@ == o.palette@.update(palette_index(v), data)
}

/// What a CPU read of PPU port `port` (0..7) returns and leaves behind.
pub open spec fn port_read_post(o: &PPU, f: &PPU, r: u8, port: u16) -> bool {
    &&& port == 2 ==> r == o.registers.status.value && f.registers.latch
        && f.registers.status.value == o.registers.status.value & !STATUS_VBLANK
        && f.registers.v == o.registers.v
        && *f == (PPU {
            registers: Registers { status: Status { value: o.registers.status.value & !STATUS_VBLANK }, latch: true, ..o.registers },
            nmi: f.nmi,
            ..*o
        })
        && nmi_followed(&o.nmi, &f.nmi, false)
    &&& port == 4 ==> r == o.oam@[o.registers.oam_address as int]
    &&& port == 7 ==> {
        let v = o.registers.v;
        let below = if v % 0x4000 >= 0x3F00 { (v % 0x4000 - 0x1000) as u16 } else { v % 0x4000 };
        &&& r == if v % 0x4000 >= 0x3F00 { o.palette@[palette_index(v)] } else { o.state.buffer }
        &&& f.state.buffer == o.memory_at(below)
        &&& f.registers.v == fold_address(v.wrapping_add(
                if o.registers.controller.value & CONTROL_VRAM_INC != 0 { 32u16 } else { 1u16 }))
        &&& f.vram == o.vram
        &&& f.mapper == o.mapper
        &&& f.registers.controller == o.registers.controller
        &&& f.registers.latch == o.registers.latch
        &&& *f == (PPU {
            state: State { buffer: f.state.buffer, ..o.state },
            registers: Registers { v: f.registers.v, ..o.registers },
            ..*o
        })
    }
    &&& port != 2 && port != 4 && port != 7 ==> r == 0
    &&& port != 2 && port != 7 ==> *f == *o
    &&& f.oam == o.oam
    &&& f.registers.oam_address == o.registers.oam_address
    &&& f.mapper == o.mapper
    &&& f.scan == o.scan
    &&& f.state.odd == o.state.odd
    &&& f.registers.mask == o.registers.mask
}

/// What a CPU write of `data` to PPU port `port` (0..7) leaves behind.
pub open spec fn port_write_post(o: &PPU, f: &PPU, data: u8, port: u16) -> bool {
    &&& port == 3 ==> f.registers.oam_address == data && f.oam == o.oam
    &&& port == 4 ==> f.oam@ == o.oam@.update(o.registers.oam_address as int,
        if o.registers.oam_address % 4 == 2 { data & 0xE3 } else { data })
        && f.registers.oam_address == o.registers.oam_address.wrapping_add(1)
    &&& port == 6 ==> {
        &&& f.registers.latch == !o.registers.latch
        &&& o.registers.latch ==> f.registers.t == (o.registers.t & 0x80FF) | (((data as u16) & 0x3F) << 8)
        &&& !o.registers.latch ==> f.registers.t == (o.registers.t & 0xFF00) | (data as u16)
            && f.registers.v == fold_address(f.registers.t)
        &&& f.registers.controller == o.registers.controller
        &&& f.state.buffer == o.state.buffer
        &&& f.vram == o.vram
        &&& f.mapper == o.mapper
    }
    &&& port == 2 ==> *f == *o
    &&& port == 0 ==> *f == (PPU {
        registers: Registers {
            controller: Controller { value: data },
            t: (o.registers.t & 0xF3FF) | (((data as u16) & 0x03) << 10),
            ..o.registers
        },
        nmi: f.nmi,
        ..*o
    }) && nmi_followed(&o.nmi, &f.nmi, o.registers.status.value & STATUS_VBLANK != 0 && data & CONTROL_NMI != 0)
    &&& port == 1 ==> *f == (PPU { registers: Registers { mask: Mask { value: data }, ..o.registers }, ..*o })
    &&& port == 3 ==> *f == (PPU { registers: Registers { oam_address: data, ..o.registers }, ..*o })
    &&& port == 4 ==> *f == (PPU {
        oam: f.oam,
        registers: Registers { oam_address: o.registers.oam_address.wrapping_add(1), ..o.registers },
        ..*o
    })
    &&& port == 5 ==> *f == (PPU {
        registers: Registers {
            t: if o.registers.latch {
                (o.registers.t & 0xFFE0) | ((data as u16) >> 3)
            } else {
                (((o.registers.t & 0x8FFF) | (((data as u16) & 0x07) << 12)) & 0xFC1F) | (((data as u16) & 0xF8) << 2)
            },
            x: if o.registers.latch { data & 0x07 } else { o.registers.x },
            latch: !o.registers.latch,
            ..o.registers
        },
        ..*o
    })
    &&& port == 6 ==> *f == (PPU {
        registers: Registers { t: f.registers.t, v: f.registers.v, latch: !o.registers.latch, ..o.registers },
        ..*o
    }) && (o.registers.latch ==> f.registers.v == fold_address(o.registers.v))
    &&& port == 7 ==> data_written(o, f, data)
    &&& f.mapper.number() == o.mapper.number()
}

/// The pattern row that sprite `i` shows on the scanline `row` rows below
/// its top, as `fetch_sprite_patterns` reads it.
pub open spec fn sprite_row_pattern(p: &PPU, i: int, row: u16) -> u32 {
    let tile = p.oam@[4 * i + 1];
    let attrs = p.oam@[4 * i + 2];
    let addr = sprite_address(p.registers.controller.sprite_pattern_table_spec(),
        p.registers.controller.sprite_size_spec(), tile, attrs, row);
    row_pattern(p.mapper.read_spec(addr), p.mapper.read_spec((addr + 8) as u16), (attrs & 0x03) << 2, attrs & 0x40 != 0)
}

/// Slot `k` of `sprites` holds the `k`-th OAM entry (in OAM order) that
/// covers the scanline of `p`: its index, X position, priority bit and row.
pub open spec fn slot_holds(p: &PPU, sprites: &SpriteState, k: int) -> bool {
    let i = sprites.indices@[k] as int;
    let line = p.scan.line;
    let size = p.registers.controller.sprite_size_spec();
    &&& 0 <= i < 64
    &&& covers(p.oam@, i, line, size)
    &&& covering(p.oam@, line, size, i as nat) == k
    &&& sprites.positions@[k] == p.oam@[4 * i + 3]
    &&& sprites.priorities@[k] == (p.oam@[4 * i + 2] >> 5) & 0x01
    &&& sprites.patterns@[k] == sprite_row_pattern(p, i, (line - p.oam@[4 * i]) as u16)
}

/// A read of a PPU port is determined by the port: two reads of the same
/// port (for instance through two mirrors of it) from the same PPU give the
/// same byte and the same PPU.
pub proof fn lemma_port_read_determined(o: PPU, f1: PPU, f2: PPU, r1: u8, r2: u8, port: u16)
    requires
        port < 8,
        port_read_post(&o, &f1, r1, port),
        port_read_post(&o, &f2, r2, port),
    ensures
        r1 == r2,
        f1 == f2,
{
    if port == 2 {
        assert(f1.nmi == f2.nmi);
    }
}

/// A write of a PPU port is determined by the port, except where a CHR
/// write goes through the cartridge: two writes of the same byte to the same
/// port (for instance through two mirrors) from the same PPU leave the same
/// registers, OAM, VRAM, palette and NMI state.
pub proof fn lemma_port_write_determined(o: PPU, f1: PPU, f2: PPU, data: u8, port: u16)
    requires
        port < 8,
        port_write_post(&o, &f1, data, port),
        port_write_post(&o, &f2, data, port),
    ensures
        f1.registers == f2.registers,
        f1.oam@ == f2.oam@,
        f1.vram@ == f2.vram@,
        f1.palette@ == f2.palette@,
        f1.nmi == f2.nmi,
        f1.state == f2.state,
        f1.scan == f2.scan,
{
    if port == 6 {
        if o.registers.latch {
            assert(f1.registers.t == f2.registers.t);
        }
    }
}

/// Two writes to the address port then three data port reads: the first
/// returns the stale buffer, the next two the bytes at the address and at
/// the address plus the increment (below the palette).
pub proof fn lemma_data_port_round_trip(
    s0: PPU, s1: PPU, s2: PPU, s3: PPU, s4: PPU, s5: PPU,
    hi: u8, lo: u8, r3: u8, r4: u8, r5: u8,
)
    requires
        s0.registers.latch,
        port_write_post(&s0, &s1, hi, 6),
        port_write_post(&s1, &s2, lo, 6),
        port_read_post(&s2, &s3, r3, 7),
        port_read_post(&s3, &s4, r4, 7),
        port_read_post(&s4, &s5, r5, 7),
        ((hi as u16 & 0x3F) << 8 | lo as u16) + 64 < 0x3F00,
    ensures
        ({
            let v = (hi as u16 & 0x3F) << 8 | lo as u16;
            let inc: u16 = if s0.registers.controller.value & CONTROL_VRAM_INC != 0 { 32 } else { 1 };
            &&& r4 == s0.memory_at(v)
            &&& r5 == s0.memory_at((v + inc) as u16)
        }),
{
    let t0 = s0.registers.t;
    let hh = hi as u16;
    let ll = lo as u16;
    let t1 = (t0 & 0x80FF) | ((hh & 0x3F) << 8);
    let t2 = (t1 & 0xFF00) | ll;
    assert(t2 == s2.registers.t);
    assert(fold_address(t2) == (hh & 0x3F) << 8 | ll) by (bit_vector)
        requires t2 == (((t0 & 0x80FF) | ((hh & 0x3F) << 8)) & 0xFF00) | ll, ll < 256, hh < 256;
    let v = (hh & 0x3F) << 8 | ll;
    assert(v % 0x4000 == v);
    let inc: u16 = if s0.registers.controller.value & CONTROL_VRAM_INC != 0 { 32 } else { 1 };
    assert(s3.registers.v == fold_address(v.wrapping_add(inc)));
    assert(v.wrapping_add(inc) == v + inc);
    assert((v + inc) as u16 % 0x4000 == (v + inc) as u16);
    assert(s2.registers.v == v);
    assert(s3.state.buffer == s2.memory_at(v));
    assert(s3.registers.v == (v + inc) as u16);
    assert(r4 == s3.state.buffer);
    assert(s2.memory_at(v) == s0.memory_at(v));
    assert(s4.state.buffer == s3.memory_at((v + inc) as u16));
    assert(s4.registers.v == fold_address(((v + inc) as u16).wrapping_add(inc)));
    assert(((v + inc) as u16).wrapping_add(inc) == (v + 2 * inc) as u16);
    assert(s4.registers.v == (v + 2 * inc) as u16);
    assert(r5 == s4.state.buffer);
    assert(s3.memory_at((v + inc) as u16) == s0.memory_at((v + inc) as u16));
}

/// A byte stored through the OAM data port reads back at the same OAM
/// address, with the unused bits of attribute bytes (offset 2) cleared.
pub proof fn lemma_oam_round_trip(s0: PPU, s1: PPU, s2: PPU, s3: PPU, s4: PPU, addr: u8, data: u8, r: u8)
    requires
        s0.wf(),
        port_write_post(&s0, &s1, addr, 3),
        port_write_post(&s1, &s2, data, 4),
        port_write_post(&s2, &s3, addr, 3),
        port_read_post(&s3, &s4, r, 4),
    ensures
        r == if addr % 4 == 2 { data & 0xE3 } else { data },
{
}

/// The first sprite slot from `i` on that is opaque at `dot`, with its
/// color; (0, 0) when there is none.
pub open spec fn first_opaque(patterns: Seq<u32>, positions: Seq<u8>, count: int, dot: u16, i: int) -> (usize, u8)
    decreases 8 - i,
{
    if i >= count || i >= 8 || i < 0 {
        (0, 0)
    } else {
        let c = sprite_color(patterns[i], positions[i], dot);
        if c % 4 != 0 { (i as usize, c) } else { first_opaque(patterns, positions, count, dot, i + 1) }
    }
}

pub struct PPU {
    pub palette: Vec<u8>,
    pub vram: Vec<u8>,
    pub oam: Vec<u8>,
    pub mapper: Mapper,
    pub frame: Frame,
    pub registers: Registers,
    pub nmi: NMI,
    pub state: State,
    pub scan: RenderState,
    pub sprites: SpriteState,
}

impl PPU {
    /// Background color under the beam (see `background_pixel`).
    pub open spec fn background_value(&self) -> u8 {
        if self.registers.mask.value & MASK_SHOW_BACKGROUND != 0 {
            ((((self.state.tile >> 32u64) as u32) >> ((7 - self.registers.x) * 4) as u32) & 0x0F) as u8
        } else {
            0
        }
    }

    /// Sprite slot and color under the beam (see `sprite_pixel`).
    pub open spec fn sprite_value(&self) -> (usize, u8) {
        if self.registers.mask.value & MASK_SHOW_SPRITES != 0 {
            first_opaque(self.sprites.patterns@, self.sprites.positions@, self.sprites.count as int, self.scan.dot, 0)
        } else {
            (0, 0)
        }
    }

    /// The pixel under the beam: both layers clipped in the leftmost eight
    /// columns as the mask says, composed, and whether sprite 0 hits.
    pub open spec fn pixel_layers(&self) -> (u8, u8, usize) {
        let x = self.scan.dot - 1;
        let (idx, sp0) = self.sprite_value();
        let bg = if x < 8 && self.registers.mask.value & MASK_SHOW_LEFT_BACKGROUND == 0 { 0 } else { self.background_value() };
        let sp = if x < 8 && self.registers.mask.value & MASK_SHOW_LEFT_SPRITES == 0 { 0 } else { sp0 };
        (bg, sp, idx)
    }

    pub open spec fn wf(&self) -> bool {
        &&& self.palette@.len() == 0x20
        &&& self.vram@.len() == 0x800
        &&& self.oam@.len() == 0x100
        &&& self.mapper.wf()
        &&& self.frame.wf()
        &&& self.sprites.wf()
        &&& self.scan.line < 262
        &&& self.scan.dot < 341
        &&& self.registers.x < 8
    }

    pub open spec fn rendering(&self) -> bool {
        self.registers.mask.value & (MASK_SHOW_BACKGROUND | MASK_SHOW_SPRITES) != 0
    }

    /// What the data port reads from below the palette: CHR through the
    /// mapper, or nametable RAM.
    pub open spec fn memory_at(&self, addr: u16) -> u8 {
        if addr < 0x2000 {
            self.mapper.read_spec(addr)
        } else {
            self.vram@[vram_index(self.mapper.mirroring_spec(), addr)]
        }
    }

    pub fn new(mapper: Mapper) -> (r: PPU)
        requires
            mapper.wf(),
        ensures
            r.wf(),
            r.mapper == mapper,
            r.scan.line == 0 && r.scan.dot == 0 && !r.state.odd,
            r.registers.controller.value == 0 && r.registers.mask.value == 0 && r.registers.status.value == 0,
            r.registers.v == 0 && r.registers.t == 0 && r.registers.latch,
            r.state.buffer == 0,
            !r.nmi.pending && r.nmi.delay == 0 && !r.nmi.prev,
            r.vram@ == Seq::new(0x800, |i: int| 0u8),
            r.palette@ == Seq::new(0x20, |i: int| 0u8),
            r.oam@ == Seq::new(0x100, |i: int| 0u8),
    {
        let palette: Vec<u8> = vec![0u8; 0x20];
        let vram: Vec<u8> = vec![0u8; 0x800];
        let oam: Vec<u8> = vec![0u8; 0x100];
        proof {
            assert(palette@ =~= Seq::new(0x20, |i: int| 0u8));
            assert(vram@ =~= Seq::new(0x800, |i: int| 0u8));
            assert(oam@ =~= Seq::new(0x100, |i: int| 0u8));
        }
        PPU {
            palette,
            vram,
            oam,
            mapper,
            frame: Frame::new(),
            registers: Registers::new(),
            nmi: NMI::new(),
            state: State::new(),
            scan: RenderState::new(),
            sprites: SpriteState::new(),
        }
    }

    fn mirror_vram(&self, addr: u16) -> (r: usize)
        requires
            addr >= 0x2000,
        ensures
            r == vram_index(self.mapper.mirroring_spec(), addr),
            r < 0x800,
    {
        let a = (addr - 0x2000) % 0x1000;
        let table = (a / 0x400) as usize;
        let offset = a % 0x400;
        let coeff = self.mapper.mirroring().coeff();
        assert(table < 4);
        assert(0 <= mirror_coeff(self.mapper.mirroring_spec(), table as int) <= 3);
        ((coeff[table] * 0x400 + offset) % 0x800) as usize
    }

    fn palette_slot(addr: u16) -> (r: usize)
        ensures
            r == palette_index(addr),
            r < 0x20,
    {
        let a = addr % 0x20;
        if a == 0x10 || a == 0x14 || a == 0x18 || a == 0x1C { (a - 0x10) as usize } else { a as usize }
    }

    pub fn palette_read(&self, addr: u16) -> (r: u8)
        requires
            self.wf(),
        ensures
            r == self.palette@[palette_index(addr)],
    {
        self.palette[PPU::palette_slot(addr)]
    }

    pub fn palette_write(&mut self, addr: u16, data: u8)
        requires
            old(self).wf(),
        ensures
            final(self).wf(),
            *final(self) == (PPU { palette: final(self).palette, ..*old(self) }),
            final(self).palette@ == old(self).palette@.update(palette_index(addr), data),
    {
        let i = PPU::palette_slot(addr);
        self.palette[i] = data;
    }

    pub fn vram_write(&mut self, addr: u16, data: u8)
        requires
            old(self).wf(),
            addr >= 0x2000,
        ensures
            final(self).wf(),
            *final(self) == (PPU { vram: final(self).vram, ..*old(self) }),
            final(self).vram@ == old(self).vram@.update(vram_index(old(self).mapper.mirroring_spec(), addr), data),
    {
        let i = self.mirror_vram(addr);
        self.vram[i] = data;
    }

    /// Byte below the palette at `addr` (0x0000..0x3EFF, folded).
    fn memory_read(&self, addr: u16) -> (r: u8)
        requires
            self.wf(),
        ensures
            r == self.memory_at(addr),
    {
        if addr < 0x2000 {
            self.mapper.read(addr)
        } else {
            self.vram[self.mirror_vram(addr)]
        }
    }

    fn nmi_change(&mut self)
        ensures
            *final(self) == (PPU { nmi: final(self).nmi, ..*old(self) }),
            final(self).nmi.prev == (old(self).registers.status.value & STATUS_VBLANK != 0
                && old(self).registers.controller.value & CONTROL_NMI != 0),
            final(self).nmi.pending == old(self).nmi.pending,
            final(self).nmi.delay == if final(self).nmi.prev && !old(self).nmi.prev { NMI_DELAY } else { old(self).nmi.delay },
    {
        let occurred = self.registers.status.value & STATUS_VBLANK != 0;
        let enabled = self.registers.controller.value & CONTROL_NMI != 0;
        self.nmi.change(occurred, enabled);
    }

    /// Data port read: below the palette the buffered byte comes back and the
    /// buffer refills from `v`; palette bytes come back at once while the
    /// buffer refills from the nametable under them. Then v advances.
    fn read_data(&mut self) -> (r: u8)
        requires
            old(self).wf(),
        ensures
            final(self).wf(),
            ({
                let v = old(self).registers.v;
                let below = if v % 0x4000 >= 0x3F00 { (v % 0x4000 - 0x1000) as u16 } else { v % 0x4000 };
                &&& r == if v % 0x4000 >= 0x3F00 { old(self).palette@[palette_index(v)] } else { old(self).state.buffer }
                &&& final(self).state.buffer == old(self).memory_at(below)
                &&& final(self).registers.v == fold_address(v.wrapping_add(
                        if old(self).registers.controller.value & CONTROL_VRAM_INC != 0 { 32u16 } else { 1u16 }))
            }),
            final(self).vram == old(self).vram,
            final(self).oam == old(self).oam,
            final(self).palette == old(self).palette,
            final(self).mapper == old(self).mapper,
            final(self).registers.controller == old(self).registers.controller,
            final(self).registers.t == old(self).registers.t,
            final(self).registers.latch == old(self).registers.latch,
            final(self).registers.oam_address == old(self).registers.oam_address,
            final(self).scan == old(self).scan,
            final(self).state.odd == old(self).state.odd,
            final(self).registers.mask == old(self).registers.mask,
            *final(self) == (PPU {
                state: State { buffer: final(self).state.buffer, ..old(self).state },
                registers: Registers { v: final(self).registers.v, ..old(self).registers },
                ..*old(self)
            }),
    {
        let v = self.registers.read_address();
        let inc = self.registers.controller.vram_increment();
        let addr = v % 0x4000;
        let res = if addr >= 0x3F00 { self.palette_read(addr) } else { self.state.buffer };
        let below = if addr >= 0x3F00 { addr - 0x1000 } else { addr };
        self.state.buffer = self.memory_read(below);
        self.registers.increment_address(inc);
        proof {
            assert(palette_index(addr) == palette_index(v));
        }
        res
    }

    /// Data port write to the byte at `v`, then v advances.
    fn write_data(&mut self, data: u8)
        requires
            old(self).wf(),
        ensures
            final(self).wf(),
            ({
                let v = old(self).registers.v % 0x4000;
                &&& v >= 0x3F00 ==> final(self).palette@ == old(self).palette@.update(palette_index(v), data)
                &&& 0x2000 <= v < 0x3F00 ==> final(self).vram@
                    == old(self).vram@.update(vram_index(old(self).mapper.mirroring_spec(), v), data)
            }),
            final(self).registers.v == fold_address(old(self).registers.v.wrapping_add(
                if old(self).registers.controller.value & CONTROL_VRAM_INC != 0 { 32u16 } else { 1u16 })),
            final(self).state.buffer == old(self).state.buffer,
            final(self).oam == old(self).oam,
            final(self).mapper.number() == old(self).mapper.number(),
            data_written(old(self), final(self), data),
    {
        let v = self.registers.read_address();
        let inc = self.registers.controller.vram_increment();
        let addr = v % 0x4000;
        if addr < 0x2000 {
            self.mapper.write(addr, data);
        } else if addr < 0x3F00 {
            self.vram_write(addr, data);
        } else {
            self.palette_write(addr, data);
        }
        self.registers.increment_address(inc);
    }

    fn read_oam_data(&self) -> (r: u8)
        requires
            self.wf(),
        ensures
            r == self.oam@[self.registers.oam_address as int],
    {
        self.oam[self.registers.oam_address as usize]
    }

    /// Stores at the OAM address (the unused bits of attribute bytes read
    /// back as zero) and moves the address on.
    fn write_oam_data(&mut self, data: u8)
        requires
            old(self).wf(),
        ensures
            final(self).wf(),
            final(self).oam@ == old(self).oam@.update(old(self).registers.oam_address as int,
                if old(self).registers.oam_address % 4 == 2 { data & 0xE3 } else { data }),
            final(self).registers.oam_address == old(self).registers.oam_address.wrapping_add(1),
            final(self).registers.v == old(self).registers.v,
            final(self).registers.latch == old(self).registers.latch,
            final(self).registers.status == old(self).registers.status,
            final(self).state.buffer == old(self).state.buffer,
            final(self).mapper == old(self).mapper,
            *final(self) == (PPU {
                oam: final(self).oam,
                registers: Registers { oam_address: old(self).registers.oam_address.wrapping_add(1), ..old(self).registers },
                ..*old(self)
            }),
    {
        let a = self.registers.oam_address;
        let val = if a % 4 == 2 { data & 0xE3 } else { data };
        self.oam[a as usize] = val;
        self.registers.increment_oam_addr();
    }

    /// Status read: clears vblank and the write toggle.
    fn read_status(&mut self) -> (r: u8)
        requires
            old(self).wf(),
        ensures
            final(self).wf(),
            r == old(self).registers.status.value,
            final(self).registers.status.value == old(self).registers.status.value & !STATUS_VBLANK,
            final(self).registers.latch,
            final(self).registers.v == old(self).registers.v,
            final(self).registers.t == old(self).registers.t,
            final(self).registers.oam_address == old(self).registers.oam_address,
            final(self).oam == old(self).oam,
            final(self).state.buffer == old(self).state.buffer,
            final(self).mapper == old(self).mapper,
            final(self).scan == old(self).scan,
            final(self).state.odd == old(self).state.odd,
            final(self).registers.mask == old(self).registers.mask,
            *final(self) == (PPU {
                registers: Registers {
                    status: Status { value: old(self).registers.status.value & !STATUS_VBLANK },
                    latch: true,
                    ..old(self).registers
                },
                nmi: final(self).nmi,
                ..*old(self)
            }),
            nmi_followed(&old(self).nmi, &final(self).nmi, false),
    {
        let res = self.registers.status.value;
        proof {
            assert((res & !0x80u8) & 0x80u8 == 0) by (bit_vector);
        }
        self.registers.status = Status { value: res & !STATUS_VBLANK };
        self.nmi_change();
        self.registers.reset_latch();
        res
    }

    /// CPU read of a PPU port; the eight ports repeat through 0x3FFF, so only
    /// `addr % 8` matters. Write-only ports read as 0.
    pub fn read(&mut self, addr: u16) -> (r: u8)
        requires
            old(self).wf(),
        ensures
            final(self).wf(),
            port_read_post(old(self), final(self), r, addr % 8),
    {
        let reg = addr % 8;
        if reg == 2 {
            self.read_status()
        } else if reg == 4 {
            self.read_oam_data()
        } else if reg == 7 {
            self.read_data()
        } else {
            0
        }
    }

    /// CPU write of a PPU port; only `addr % 8` matters. The status port
    /// ignores writes.
    pub fn write(&mut self, addr: u16, data: u8)
        requires
            old(self).wf(),
        ensures
            final(self).wf(),
            port_write_post(old(self), final(self), data, addr % 8),
    {
        let reg = addr % 8;
        if reg == 0 {
            self.registers.write_controller(data);
            self.nmi_change();
        } else if reg == 1 {
            self.registers.mask = Mask { value: data };
        } else if reg == 3 {
            self.registers.write_oam_addr(data);
        } else if reg == 4 {
            self.write_oam_data(data);
        } else if reg == 5 {
            self.registers.write_scroll(data);
            proof {
                assert(data & 0x07 < 8) by (bit_vector);
            }
        } else if reg == 6 {
            self.registers.write_address(data);
        } else if reg == 7 {
            self.write_data(data);
        }
    }

    pub fn rendering_enabled(&self) -> (r: bool)
        ensures
            r == self.rendering(),
    {
        self.registers.mask.value & (MASK_SHOW_BACKGROUND | MASK_SHOW_SPRITES) != 0
    }

    /// Background color (0..15) under the beam, from the tile shift state
    /// and fine x; 0 while the background is hidden.
    fn background_pixel(&self) -> (r: u8)
        requires
            self.wf(),
        ensures
            r == self.background_value(),
    {
        if self.registers.mask.value & MASK_SHOW_BACKGROUND != 0 {
            let tile = ((self.state.tile >> 32u64) as u32) >> ((7 - self.registers.x) * 4) as u32;
            (tile & 0x0F) as u8
        } else {
            0
        }
    }

    /// The first selected sprite that is opaque under the beam, with its
    /// color; (0, 0) when there is none or sprites are hidden.
    fn sprite_pixel(&self) -> (r: (usize, u8))
        requires
            self.wf(),
        ensures
            r.1 != 0 ==> {
                &&& r.0 < self.sprites.count
                &&& r.1 == sprite_color(self.sprites.patterns@[r.0 as int], self.sprites.positions@[r.0 as int], self.scan.dot)
                &&& r.1 % 4 != 0
                &&& forall|j: int| 0 <= j < r.0 ==> #[trigger] sprite_color(self.sprites.patterns@[j], self.sprites.positions@[j], self.scan.dot) % 4 == 0
            },
            r.1 == 0 ==> r.0 == 0,
            r.1 == 0 && self.registers.mask.value & MASK_SHOW_SPRITES != 0 ==>
                forall|j: int| 0 <= j < self.sprites.count ==> #[trigger] sprite_color(self.sprites.patterns@[j], self.sprites.positions@[j], self.scan.dot) % 4 == 0,
            self.registers.mask.value & MASK_SHOW_SPRITES == 0 ==> r == (0usize, 0u8),
            r == self.sprite_value(),
    {
        if self.registers.mask.value & MASK_SHOW_SPRITES == 0 {
            return (0, 0);
        }
        let mut i: usize = 0;
        while i < self.sprites.count
            invariant
                self.wf(),
                self.registers.mask.value & MASK_SHOW_SPRITES != 0,
                i <= self.sprites.count,
                forall|j: int| 0 <= j < i ==> #[trigger] sprite_color(self.sprites.patterns@[j], self.sprites.positions@[j], self.scan.dot) % 4 == 0,
                first_opaque(self.sprites.patterns@, self.sprites.positions@, self.sprites.count as int, self.scan.dot, 0)
                    == first_opaque(self.sprites.patterns@, self.sprites.positions@, self.sprites.count as int, self.scan.dot, i as int),
            decreases self.sprites.count - i,
        {
            let off: i32 = (self.scan.dot as i32 - 1) - self.sprites.positions[i] as i32;
            if 0 <= off && off <= 7 {
                let color = ((self.sprites.patterns[i] >> ((7 - off) * 4) as u32) & 0x0F) as u8;
                if color % 4 != 0 {
                    return (i, color);
                }
            }
            i = i + 1;
        }
        (0, 0)
    }

    /// Appends the fetched tile row to the background shift state.
    fn store_tile_state(&mut self)
        ensures
            *final(self) == (PPU { state: State { tile: old(self).state.tile | (row_pattern(
                old(self).state.lotile, old(self).state.hitile, old(self).state.attrtable, false) as u64), ..old(self).state }, ..*old(self) }),
    {
        let data = pattern_row(self.state.lotile, self.state.hitile, self.state.attrtable, false);
        self.state.tile = self.state.tile | (data as u64);
    }

    /// Nametable byte of the tile at v.
    fn fetch_nametable(&self) -> (r: u8)
        requires
            self.wf(),
        ensures
            r == self.vram@[vram_index(self.mapper.mirroring_spec(), (0x2000 | (self.registers.v & 0x0FFF)) as u16)],
    {
        let v = self.registers.read_address();
        let address = 0x2000 | (v & 0x0FFF);
        proof {
            assert((0x2000 | (v & 0x0FFF)) >= 0x2000) by (bit_vector);
        }
        self.vram[self.mirror_vram(address)]
    }

    /// Palette bits (shifted to bits 2..3) of the tile at v, from its
    /// attribute byte.
    fn fetch_attrtable(&self) -> (r: u8)
        requires
            self.wf(),
        ensures
            ({
                let v = self.registers.v;
                let address = (0x23C0 | (v & 0x0C00) | ((v >> 4) & 0x0038) | ((v >> 2) & 0x0007)) as u16;
                let byte = self.vram@[vram_index(self.mapper.mirroring_spec(), address)];
                let shift = (((v >> 4) & 0x04) | (v & 0x02)) as u8;
                r == ((byte >> shift) & 0x03) << 2
            }),
    {
        let v = self.registers.read_address();
        let address = 0x23C0 | (v & 0x0C00) | ((v >> 4) & 0x0038) | ((v >> 2) & 0x0007);
        proof {
            assert((0x23C0 | (v & 0x0C00) | ((v >> 4) & 0x0038) | ((v >> 2) & 0x0007)) >= 0x2000) by (bit_vector);
            assert((((v >> 4) & 0x04) | (v & 0x02)) < 8) by (bit_vector);
        }
        let byte = self.vram[self.mirror_vram(address)];
        let shift = (((v >> 4) & 0x04) | (v & 0x02)) as u8;
        ((byte >> shift) & 0x03) << 2
    }

    /// Reads a pattern byte, telling the mapper about the address.
    fn fetch_pattern(&mut self, address: u16) -> (r: u8)
        requires
            old(self).wf(),
        ensures
            final(self).wf(),
            r == old(self).mapper.read_spec(address),
            *final(self) == (PPU { mapper: final(self).mapper, ..*old(self) }),
            forall|a: u16| final(self).mapper.read_spec(a) == old(self).mapper.read_spec(a),
            final(self).mapper.mirroring_spec() == old(self).mapper.mirroring_spec(),
            final(self).mapper.number() == old(self).mapper.number(),
    {
        let r = self.mapper.read(address);
        self.mapper.notify(MapperEvent::VRAMAddressChanged(address));
        r
    }

    /// Address of one plane of the background tile row at v.
    fn tile_address(&self, plane: u16) -> (r: u16)
        requires
            plane <= 8,
        ensures
            r == self.registers.controller.background_pattern_table_spec()
                + ((self.registers.v >> 12) & 0x07) + 16 * (self.state.nametable as u16) + plane,
    {
        let y = (self.registers.read_address() >> 12) & 0x07;
        proof {
            let v = self.registers.v;
            assert((v >> 12) & 0x07 <= 7) by (bit_vector);
        }
        self.registers.controller.background_pattern_table() + y + 16 * (self.state.nametable as u16) + plane
    }

    fn fetch_lotile(&mut self) -> (r: u8)
        requires
            old(self).wf(),
        ensures
            final(self).wf(),
            r == old(self).mapper.read_spec(old(self).tile_address_spec(0)),
            *final(self) == (PPU { mapper: final(self).mapper, ..*old(self) }),
            forall|a: u16| final(self).mapper.read_spec(a) == old(self).mapper.read_spec(a),
            final(self).mapper.mirroring_spec() == old(self).mapper.mirroring_spec(),
            final(self).mapper.number() == old(self).mapper.number(),
    {
        let a = self.tile_address(0);
        self.fetch_pattern(a)
    }

    fn fetch_hitile(&mut self) -> (r: u8)
        requires
            old(self).wf(),
        ensures
            final(self).wf(),
            r == old(self).mapper.read_spec(old(self).tile_address_spec(8)),
            *final(self) == (PPU { mapper: final(self).mapper, ..*old(self) }),
            forall|a: u16| final(self).mapper.read_spec(a) == old(self).mapper.read_spec(a),
            final(self).mapper.mirroring_spec() == old(self).mapper.mirroring_spec(),
            final(self).mapper.number() == old(self).mapper.number(),
    {
        let a = self.tile_address(8);
        self.fetch_pattern(a)
    }

    pub open spec fn tile_address_spec(&self, plane: u16) -> u16 {
        (self.registers.controller.background_pattern_table_spec()
            + ((self.registers.v >> 12) & 0x07) + 16 * (self.state.nametable as u16) + plane) as u16
    }

    /// Pattern row `row` of OAM entry `i`, flipped as its attributes say.
    fn fetch_sprite_patterns(&mut self, i: usize, row: u16) -> (r: u32)
        requires
            old(self).wf(),
            i < 64,
            row < old(self).registers.controller.sprite_size_spec(),
        ensures
            final(self).wf(),
            ({
                let tile = old(self).oam@[4 * i + 1];
                let attrs = old(self).oam@[4 * i + 2];
                let addr = sprite_address(old(self).registers.controller.sprite_pattern_table_spec(),
                    old(self).registers.controller.sprite_size_spec(), tile, attrs, row);
                r == row_pattern(old(self).mapper.read_spec(addr), old(self).mapper.read_spec((addr + 8) as u16),
                    (attrs & 0x03) << 2, attrs & 0x40 != 0)
            }),
            *final(self) == (PPU { mapper: final(self).mapper, ..*old(self) }),
            forall|a: u16| final(self).mapper.read_spec(a) == old(self).mapper.read_spec(a),
            final(self).mapper.mirroring_spec() == old(self).mapper.mirroring_spec(),
            final(self).mapper.number() == old(self).mapper.number(),
    {
        let tile = self.oam[4 * i + 1];
        let attrs = self.oam[4 * i + 2];
        let size = self.registers.controller.sprite_size();
        let address: u16 = if size == 8 {
            let r = if attrs & 0x80 != 0 { 7 - row } else { row };
            self.registers.controller.sprite_pattern_table() + (tile as u16) * 16 + r
        } else {
            proof {
                assert(tile & 0xFE <= 254 && tile & 1 <= 1) by (bit_vector);
            }
            let r = if attrs & 0x80 != 0 { 15 - row } else { row };
            let t = ((tile & 0xFE) as u16) + if r > 7 { 1u16 } else { 0u16 };
            let rr = if r > 7 { r - 8 } else { r };
            0x1000 * ((tile & 1) as u16) + t * 16 + rr
        };
        let lo = self.fetch_pattern(address);
        let hi = self.fetch_pattern(address + 8);
        pattern_row(lo, hi, (attrs & 0x03) << 2, attrs & 0x40 != 0)
    }

    /// Picks the first eight OAM entries that cover the current scanline and
    /// fetches their rows; more than eight sets the overflow flag.
    fn evaluate_sprites(&mut self)
        requires
            old(self).wf(),
        ensures
            final(self).wf(),
            ({
                let n = covering(old(self).oam@, old(self).scan.line, old(self).registers.controller.sprite_size_spec(), 64);
                &&& final(self).sprites.count == if n > 8 { 8 } else { n }
                &&& forall|k: int| 0 <= k < final(self).sprites.count ==> #[trigger] slot_holds(old(self), &final(self).sprites, k)
                &&& final(self).registers.status.value == if n > 8 {
                        old(self).registers.status.value | STATUS_OVERFLOW
                    } else {
                        old(self).registers.status.value
                    }
            }),
            final(self).scan == old(self).scan,
            final(self).state == old(self).state,
            final(self).oam == old(self).oam,
            final(self).vram == old(self).vram,
            final(self).palette == old(self).palette,
            final(self).nmi == old(self).nmi,
            final(self).frame == old(self).frame,
            final(self).registers.controller == old(self).registers.controller,
            final(self).registers.mask == old(self).registers.mask,
            final(self).registers.v == old(self).registers.v,
            final(self).registers.t == old(self).registers.t,
            final(self).registers.x == old(self).registers.x,
            final(self).registers.latch == old(self).registers.latch,
            final(self).registers.oam_address == old(self).registers.oam_address,
            final(self).mapper.number() == old(self).mapper.number(),
            final(self).mapper.mirroring_spec() == old(self).mapper.mirroring_spec(),
    {
        let size = self.registers.controller.sprite_size();
        let line = self.scan.line;
        let mut count: usize = 0;
        let mut i: usize = 0;
        while i < 64
            invariant
                self.wf(),
                i <= 64,
                size == old(self).registers.controller.sprite_size_spec(),
                line == old(self).scan.line,
                count == covering(old(self).oam@, line, size, i as nat),
                count <= i,
                self.scan == old(self).scan,
                self.state == old(self).state,
                self.oam == old(self).oam,
                self.vram == old(self).vram,
                self.palette == old(self).palette,
                self.nmi == old(self).nmi,
                self.frame == old(self).frame,
                self.registers == old(self).registers,
                self.mapper.number() == old(self).mapper.number(),
                self.mapper.mirroring_spec() == old(self).mapper.mirroring_spec(),
                forall|a: u16| self.mapper.read_spec(a) == old(self).mapper.read_spec(a),
                forall|k: int| 0 <= k < count && k < 8 ==> #[trigger] slot_holds(old(self), &self.sprites, k),
            decreases 64 - i,
        {
            let y = self.oam[4 * i];
            let a = self.oam[4 * i + 2];
            let x = self.oam[4 * i + 3];
            let row: i32 = line as i32 - y as i32;
            if 0 <= row && row < size as i32 {
                if count < 8 {
                    let ghost before = self.sprites;
                    let pattern = self.fetch_sprite_patterns(i, row as u16);
                    assert(pattern == sprite_row_pattern(old(self), i as int, row as u16));
                    self.sprites.patterns.set(count, pattern);
                    self.sprites.positions.set(count, x);
                    self.sprites.priorities.set(count, (a >> 5) & 0x01);
                    self.sprites.indices.set(count, i as u8);
                    assert(slot_holds(old(self), &self.sprites, count as int));
                    assert forall|k: int| 0 <= k < count && k < 8 implies #[trigger] slot_holds(old(self), &self.sprites, k) by {
                        assert(slot_holds(old(self), &before, k));
                    }
                }
                count = count + 1;
            }
            i = i + 1;
        }
        if count > 8 {
            count = 8;
            self.registers.status = Status { value: self.registers.status.value | STATUS_OVERFLOW };
        }
        let ghost filled = self.sprites;
        self.sprites.count = count;
        assert forall|k: int| 0 <= k < self.sprites.count implies #[trigger] slot_holds(old(self), &self.sprites, k) by {
            assert(slot_holds(old(self), &filled, k));
        }
    }

    /// Draws the pixel under the beam: background and sprite composed, the
    /// leftmost eight columns clipped as the mask says, sprite 0 hit
    /// detected, and the palette entry looked up in the system palette.
    fn render_pixel(&mut self)
        requires
            old(self).wf(),
            1 <= old(self).scan.dot <= 256,
            old(self).scan.line < 240,
        ensures
            final(self).wf(),
            *final(self) == (PPU { frame: final(self).frame, registers: final(self).registers, ..*old(self) }),
            final(self).registers == (Registers { status: final(self).registers.status, ..old(self).registers }),
            ({
                let (bg, sp, idx) = old(self).pixel_layers();
                let lo = compose_spec(bg, sp, old(self).sprites.priorities@[idx as int]);
                let color = palette::system_palette(old(self).palette@[palette_index((0x3F00u16 | lo) as u16)] % 64);
                let off = frame::pixel_offset(old(self).scan.dot - 1, old(self).scan.line as int);
                &&& final(self).frame.data@ == old(self).frame.data@.update(off, color.0).update(off + 1, color.1)
                    .update(off + 2, color.2)
                &&& final(self).registers.status.value == if bg % 4 != 0 && sp % 4 != 0
                        && old(self).sprites.indices@[idx as int] == 0 && old(self).scan.dot - 1 < 255 {
                        old(self).registers.status.value | STATUS_SPRITE_ZERO
                    } else {
                        old(self).registers.status.value
                    }
            }),
            final(self).frame.number == old(self).frame.number,
    {
        let x = (self.scan.dot - 1) as usize;
        let y = self.scan.line as usize;
        let mut background = self.background_pixel();
        let (sprite_idx, mut sprite) = self.sprite_pixel();
        if x < 8 {
            if self.registers.mask.value & MASK_SHOW_LEFT_BACKGROUND == 0 {
                background = 0;
            }
            if self.registers.mask.value & MASK_SHOW_LEFT_SPRITES == 0 {
                sprite = 0;
            }
        }
        let priority = self.sprites.priorities[sprite_idx];
        if background % 4 != 0 && sprite % 4 != 0 && self.sprites.indices[sprite_idx] == 0 && x < 255 {
            self.registers.status = Status { value: self.registers.status.value | STATUS_SPRITE_ZERO };
        }
        let lo = compose(background, sprite, priority);
        let entry = self.palette_read(0x3F00 | lo);
        let color = system_color(entry % 64);
        self.frame.set_pixel(x, y, color);
    }

    /// Advances one dot: moves the beam, renders and fetches on rendering
    /// lines, updates the scroll registers, evaluates sprites, and starts or
    /// ends vblank. Returns whether vblank started, which ends a frame.
    pub fn tick(&mut self) -> (r: bool)
        requires
            old(self).wf(),
        ensures
            final(self).wf(),
            (final(self).scan.line, final(self).scan.dot, final(self).state.odd)
                == next_position(old(self).scan.line, old(self).scan.dot, old(self).state.odd, old(self).rendering()),
            r == (final(self).scan.line == VBLANK_LINE && final(self).scan.dot == 1),
            r ==> final(self).registers.status.value & STATUS_VBLANK != 0,
            final(self).scan.line == 261 && final(self).scan.dot == 1 ==>
                final(self).registers.status.value & (STATUS_SPRITE_ZERO | STATUS_OVERFLOW | STATUS_VBLANK) == 0,
            final(self).mapper.number() == old(self).mapper.number(),
            final(self).registers.controller == old(self).registers.controller,
            final(self).registers.mask == old(self).registers.mask,
    {
        self.clock_tick();
        let line = self.scan.line;
        let dot = self.scan.dot;
        let prerender = line == 261;
        let visible = line < 240;
        let render = prerender || visible;
        let prefetch = dot >= 321 && dot <= 336;
        let render_cycle = dot > 0 && dot <= 256;
        let fetch = prefetch || render_cycle;

        if self.rendering_enabled() {
            if visible && render_cycle {
                self.render_pixel();
            }
            if render && fetch {
                self.state.tile = self.state.tile << 4u64;
                let phase = dot % 8;
                if phase == 0 {
                    self.store_tile_state();
                } else if phase == 1 {
                    self.state.nametable = self.fetch_nametable();
                } else if phase == 3 {
                    self.state.attrtable = self.fetch_attrtable();
                } else if phase == 5 {
                    let b = self.fetch_lotile();
                    self.state.lotile = b;
                } else if phase == 7 {
                    let b = self.fetch_hitile();
                    self.state.hitile = b;
                }
            }
            if prerender && dot >= 280 && dot <= 304 {
                self.registers.transfer_v();
            }
            if render {
                if fetch && dot % 8 == 0 {
                    self.registers.increment_x();
                }
                if dot == 256 {
                    self.registers.increment_y();
                }
                if dot == 257 {
                    self.registers.transfer_h();
                }
            }
        }
        if self.rendering_enabled() && dot == 257 {
            if visible {
                self.evaluate_sprites();
            } else {
                self.sprites.count = 0;
            }
        }
        if line == VBLANK_LINE && dot == 1 {
            self.registers.status = Status { value: self.registers.status.value | STATUS_VBLANK };
            self.nmi_change();
            proof {
                let s = old(self).registers.status.value;
                assert((s | 0x80u8) & 0x80u8 != 0) by (bit_vector);
            }
            return true;
        }
        if prerender && dot == 1 {
            let cleared = self.registers.status.value & !(STATUS_SPRITE_ZERO | STATUS_OVERFLOW | STATUS_VBLANK);
            proof {
                let s = self.registers.status.value;
                assert((s & !(0x40u8 | 0x20u8 | 0x80u8)) & (0x40u8 | 0x20u8 | 0x80u8) == 0) by (bit_vector);
            }
            self.registers.status = Status { value: cleared };
            self.nmi_change();
        }
        false
    }

    /// Takes the pending NMI, if any.
    pub fn poll(&mut self) -> (r: bool)
        ensures
            r == old(self).nmi.pending,
            !final(self).nmi.pending,
            final(self).nmi.delay == old(self).nmi.delay,
            final(self).nmi.prev == old(self).nmi.prev,
            *final(self) == (PPU { nmi: final(self).nmi, ..*old(self) }),
    {
        self.nmi.poll()
    }

    /// Moves the beam one dot on.
    fn clock_tick(&mut self)
        requires
            old(self).wf(),
        ensures
            final(self).wf(),
            (final(self).scan.line, final(self).scan.dot, final(self).state.odd)
                == next_position(old(self).scan.line, old(self).scan.dot, old(self).state.odd, old(self).rendering()),
            final(self).registers == old(self).registers,
            final(self).mapper == old(self).mapper,
            final(self).nmi.prev == old(self).nmi.prev,
            final(self).nmi.pending == (old(self).nmi.pending || old(self).nmi.delay == 1),
    {
        self.nmi.tick();
        if self.rendering_enabled() && self.state.odd && self.scan.line == 261 && self.scan.dot == 339 {
            self.scan.line = 0;
            self.scan.dot = 0;
            self.state.odd = false;
            return;
        }
        self.scan.dot = self.scan.dot + 1;
        if self.scan.dot == 341 {
            self.scan.dot = 0;
            self.scan.line = self.scan.line + 1;
            if self.scan.line == 262 {
                self.scan.line = 0;
                self.state.odd = !self.state.odd;
            }
        }
    }
}

} // verus!
