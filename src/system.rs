pub mod cartridge;
pub mod joypad;
pub mod memory;

use vstd::prelude::*;
use crate::apu::APU;
use crate::ppu::{PPU, advance, port_read_post, port_write_post};
use cartridge::Cartridge;
use joypad::Joypad;
use memory::Memory;

verus! {

pub const RAM_END: u16 = 0x1FFF;
pub const PPU_END: u16 = 0x3FFF;
pub const OAM_REQ: u16 = 0x4014;
pub const JOYPAD1: u16 = 0x4016;
pub const JOYPAD2: u16 = 0x4017;
pub const EROM: u16 = 0x4020;
pub const SRAM: u16 = 0x6000;

/// The console: CPU-side memory map over RAM, PPU, APU, controllers and the
/// cartridge, and the clock that runs PPU and APU alongside the CPU.
pub struct System {
    pub apu: APU,
    pub ppu: PPU,
    pub joypads: (Joypad, Joypad),
    pub cycles: usize,
    pub memory: Memory,
}

impl System {
    pub open spec fn wf(&self) -> bool {
        &&& self.apu.wf()
        &&& self.ppu.wf()
        &&& self.memory.wf()
        &&& self.joypads.0.wf()
        &&& self.joypads.1.wf()
    }

    /// The byte at `addr` for addresses whose reads have no side effects:
    /// RAM, the unused expansion area and the cartridge.
    pub open spec fn peek(&self, addr: u16) -> Option<u8> {
        if addr <= RAM_END {
            Some(self.memory.ram@[addr as int % 0x800])
        } else if EROM <= addr < SRAM {
            Some(0)
        } else if addr >= SRAM {
            Some(self.ppu.mapper.read_spec(addr))
        } else {
            None
        }
    }

    pub fn new(cartridge: Cartridge) -> (r: System)
        requires
            cartridge.mapper.wf(),
        ensures
            r.wf(),
            r.ppu.mapper == cartridge.mapper,
            r.cycles == 0,
            r.memory.ram@ == Seq::new(0x800, |i: int| 0u8),
            r.ppu.scan.line == 0 && r.ppu.scan.dot == 0 && !r.ppu.state.odd,
            r.ppu.registers.controller.value == 0 && r.ppu.registers.mask.value == 0,
            r.ppu.registers.status.value == 0,
            !r.ppu.nmi.pending && r.ppu.nmi.delay == 0 && !r.ppu.nmi.prev,
    {
        System {
            apu: APU::new(),
            ppu: PPU::new(cartridge.mapper),
            joypads: (Joypad::new(), Joypad::new()),
            cycles: 0,
            memory: Memory::new(),
        }
    }

    /// CPU read. RAM repeats every 0x800 bytes and the PPU ports every 8;
    /// 0x4015 is the APU status, 0x4016/0x4017 the controllers; the
    /// cartridge answers from 0x6000 up; anything else reads as 0.
    pub fn read(&mut self, addr: u16) -> (r: u8)
        requires
            old(self).wf(),
        ensures
            final(self).wf(),
            old(self).peek(addr) is Some ==> r == old(self).peek(addr)->0 && *final(self) == *old(self),
            0x2000 <= addr <= PPU_END ==> port_read_post(&old(self).ppu, &final(self).ppu, r, addr % 8)
                && final(self).memory == old(self).memory,
            addr > RAM_END ==> final(self).memory == old(self).memory,
            final(self).ppu.scan == old(self).ppu.scan,
            final(self).ppu.state.odd == old(self).ppu.state.odd,
            final(self).ppu.registers.mask == old(self).ppu.registers.mask,
            final(self).apu.samples == old(self).apu.samples,
            final(self).cycles == old(self).cycles,
            final(self).ppu.mapper.number() == old(self).ppu.mapper.number(),
    {
        if addr <= RAM_END {
            self.memory.read(addr)
        } else if addr <= PPU_END {
            self.ppu.read(addr)
        } else if addr == JOYPAD1 {
            self.joypads.0.read()
        } else if addr == JOYPAD2 {
            self.joypads.1.read()
        } else if addr == 0x4015 {
            self.apu.read(addr)
        } else if addr >= SRAM {
            self.ppu.mapper.read(addr)
        } else {
            0
        }
    }

    /// CPU write, routed like reads; 0x4014 starts an OAM DMA, 0x4016
    /// strobes both controllers, 0x4017 goes to the frame counter.
    pub fn write(&mut self, addr: u16, data: u8)
        requires
            old(self).wf(),
        ensures
            final(self).wf(),
            addr <= RAM_END ==> *final(self) == (System {
                memory: Memory { ram: final(self).memory.ram }, ..*old(self) })
                && final(self).memory.ram@ == old(self).memory.ram@.update(addr as int % 0x800, data),
            0x2000 <= addr <= PPU_END ==> port_write_post(&old(self).ppu, &final(self).ppu, data, addr % 8)
                && *final(self) == (System { ppu: final(self).ppu, ..*old(self) }),
            addr == OAM_REQ ==> final(self).cycles == old(self).cycles.wrapping_add(
                if old(self).cycles % 2 == 0 { 513usize } else { 514usize }),
            addr != OAM_REQ ==> final(self).cycles == old(self).cycles,
            addr == JOYPAD1 ==> *final(self) == (System { joypads: final(self).joypads, ..*old(self) })
                && final(self).joypads.0.strobe == (data & 1 == 1) && final(self).joypads.1.strobe == (data & 1 == 1)
                && final(self).joypads.0.index == (if data & 1 == 1 { 0 } else { old(self).joypads.0.index })
                && final(self).joypads.1.index == (if data & 1 == 1 { 0 } else { old(self).joypads.1.index })
                && final(self).joypads.0.buttons == old(self).joypads.0.buttons
                && final(self).joypads.1.buttons == old(self).joypads.1.buttons,
            0x4000 <= addr < 0x4018 && addr != OAM_REQ && addr != JOYPAD1 ==>
                *final(self) == (System { apu: final(self).apu, ..*old(self) }),
            addr >= SRAM ==> old(self).ppu.mapper.write_post(&final(self).ppu.mapper, addr, data)
                && *final(self) == (System { ppu: PPU { mapper: final(self).ppu.mapper, ..old(self).ppu }, ..*old(self) }),
            0x4018 <= addr < SRAM ==> *final(self) == *old(self),
            final(self).ppu.mapper.number() == old(self).ppu.mapper.number(),
    {
        if addr <= RAM_END {
            self.memory.write(addr, data);
        } else if addr <= PPU_END {
            self.ppu.write(addr, data);
        } else if addr == OAM_REQ {
            self.oamdma(data);
        } else if addr == JOYPAD1 {
            self.joypads.0.write(data);
            self.joypads.1.write(data);
        } else if addr < 0x4018 {
            self.apu.write(addr, data);
        } else if addr >= SRAM {
            self.ppu.mapper.write(addr, data);
        }
    }

    /// Little-endian word at `addr` and the byte after it (wrapping).
    pub fn readu16(&mut self, addr: u16) -> (r: u16)
        requires
            old(self).wf(),
        ensures
            final(self).wf(),
            old(self).peek(addr) is Some && old(self).peek(addr.wrapping_add(1)) is Some ==>
                r == old(self).peek(addr)->0 as u16 | ((old(self).peek(addr.wrapping_add(1))->0 as u16) << 8)
                && *final(self) == *old(self),
            final(self).cycles == old(self).cycles,
            final(self).ppu.mapper.number() == old(self).ppu.mapper.number(),
    {
        let lo = self.read(addr) as u16;
        let hi = self.read(addr.wrapping_add(1)) as u16;
        lo | (hi << 8)
    }

    /// Runs the PPU three dots and the APU one cycle per CPU cycle, serving
    /// DMC fetches; returns whether a frame was completed.
    pub fn tick(&mut self, cycles: u16) -> (r: bool)
        requires
            old(self).wf(),
        ensures
            final(self).wf(),
            final(self).cycles == old(self).cycles.wrapping_add(cycles as usize),
            final(self).memory == old(self).memory,
            final(self).ppu.mapper.number() == old(self).ppu.mapper.number(),
            (final(self).ppu.scan.line, final(self).ppu.scan.dot, final(self).ppu.state.odd)
                == advance(old(self).ppu.scan.line, old(self).ppu.scan.dot, old(self).ppu.state.odd,
                    old(self).ppu.rendering(), (3 * cycles) as nat),
            final(self).ppu.registers.mask == old(self).ppu.registers.mask,
            final(self).apu.samples@.len() == old(self).apu.samples@.len() + cycles,
            r == exists|k: nat| k < 3 * cycles && #[trigger] advance(old(self).ppu.scan.line, old(self).ppu.scan.dot,
                old(self).ppu.state.odd, old(self).ppu.rendering(), k + 1).0 == 241
                && advance(old(self).ppu.scan.line, old(self).ppu.scan.dot, old(self).ppu.state.odd,
                    old(self).ppu.rendering(), k + 1).1 == 1,
    {
        self.cycles = self.cycles.wrapping_add(cycles as usize);
        let mut render = false;
        let dots: u32 = 3 * (cycles as u32);
        let mut i: u32 = 0;
        while i < dots
            invariant
                self.wf(),
                i <= dots,
                self.cycles == old(self).cycles.wrapping_add(cycles as usize),
                self.memory == old(self).memory,
                self.ppu.mapper.number() == old(self).ppu.mapper.number(),
                self.ppu.registers.mask == old(self).ppu.registers.mask,
                (self.ppu.scan.line, self.ppu.scan.dot, self.ppu.state.odd)
                    == advance(old(self).ppu.scan.line, old(self).ppu.scan.dot, old(self).ppu.state.odd,
                        old(self).ppu.rendering(), i as nat),
                self.apu.samples@.len() == old(self).apu.samples@.len(),
                dots == 3 * cycles,
                render == exists|k: nat| k < i && #[trigger] advance(old(self).ppu.scan.line, old(self).ppu.scan.dot,
                    old(self).ppu.state.odd, old(self).ppu.rendering(), k + 1).0 == 241
                    && advance(old(self).ppu.scan.line, old(self).ppu.scan.dot, old(self).ppu.state.odd,
                        old(self).ppu.rendering(), k + 1).1 == 1,
            decreases dots - i,
        {
            let frame = self.ppu.tick();
            proof {
                let p = advance(old(self).ppu.scan.line, old(self).ppu.scan.dot, old(self).ppu.state.odd,
                    old(self).ppu.rendering(), (i + 1) as nat);
                assert(p == (self.ppu.scan.line, self.ppu.scan.dot, self.ppu.state.odd));
                if frame {
                    assert(advance(old(self).ppu.scan.line, old(self).ppu.scan.dot, old(self).ppu.state.odd,
                        old(self).ppu.rendering(), i as nat + 1).0 == 241);
                }
            }
            if frame {
                render = true;
            }
            i = i + 1;
        }
        let mut j: u16 = 0;
        while j < cycles
            invariant
                self.wf(),
                j <= cycles,
                self.cycles == old(self).cycles.wrapping_add(cycles as usize),
                self.memory == old(self).memory,
                self.ppu.mapper.number() == old(self).ppu.mapper.number(),
                self.ppu.registers.mask == old(self).ppu.registers.mask,
                (self.ppu.scan.line, self.ppu.scan.dot, self.ppu.state.odd)
                    == advance(old(self).ppu.scan.line, old(self).ppu.scan.dot, old(self).ppu.state.odd,
                        old(self).ppu.rendering(), dots as nat),
                self.apu.samples@.len() == old(self).apu.samples@.len() + j,
                dots == 3 * cycles,
            decreases cycles - j,
        {
            self.apu.tick();
            if self.apu.dma() {
                self.dmcdma();
            }
            j = j + 1;
        }
        render
    }

    /// Copies page `data` (256 bytes) into OAM through the OAM data port,
    /// then stalls 513 cycles, or 514 on an odd cycle.
    fn oamdma(&mut self, data: u8)
        requires
            old(self).wf(),
        ensures
            final(self).wf(),
            final(self).cycles == old(self).cycles.wrapping_add(if old(self).cycles % 2 == 0 { 513usize } else { 514usize }),
            final(self).ppu.mapper.number() == old(self).ppu.mapper.number(),
    {
        let hi: u16 = (data as u16) << 8;
        let mut lo: u16 = 0;
        while lo < 0x100
            invariant
                self.wf(),
                lo <= 0x100,
                self.ppu.mapper.number() == old(self).ppu.mapper.number(),
                self.cycles == old(self).cycles,
            decreases 0x100 - lo,
        {
            let val = self.read(hi | lo);
            self.ppu.write(0x2004, val);
            lo = lo + 1;
        }
        let stall: u16 = if self.cycles % 2 == 0 { 513 } else { 514 };
        self.tick(stall);
    }

    /// Serves a DMC fetch: reads the byte at the DMC's address for it.
    fn dmcdma(&mut self)
        requires
            old(self).wf(),
        ensures
            final(self).wf(),
            final(self).cycles == old(self).cycles,
            final(self).memory == old(self).memory,
            final(self).ppu.mapper.number() == old(self).ppu.mapper.number(),
            final(self).ppu.scan == old(self).ppu.scan,
            final(self).ppu.state.odd == old(self).ppu.state.odd,
            final(self).ppu.registers.mask == old(self).ppu.registers.mask,
            final(self).apu.samples == old(self).apu.samples,
    {
        let addr = self.apu.dma_addr();
        let val = self.read(addr);
        self.apu.dmcdma(val);
    }

    /// Takes the PPU's pending NMI.
    pub fn poll_nmi(&mut self) -> (r: bool)
        requires
            old(self).wf(),
        ensures
            final(self).wf(),
            r == old(self).ppu.nmi.pending,
            !final(self).ppu.nmi.pending,
            final(self).memory == old(self).memory,
            final(self).cycles == old(self).cycles,
            final(self).ppu.mapper == old(self).ppu.mapper,
            final(self).apu == old(self).apu,
            *final(self) == (System { ppu: final(self).ppu, ..*old(self) }),
            old(self).ppu.nmi.pending == false ==> *final(self) == *old(self),
    {
        let r = self.ppu.poll();
        proof {
            if !old(self).ppu.nmi.pending {
                assert(self.ppu.nmi == old(self).ppu.nmi);
                assert(self.ppu == old(self).ppu);
            }
        }
        r
    }

    pub open spec fn poll_irq_spec(&self) -> bool {
        self.apu.irq.pending || self.apu.dmc.irq.pending || self.ppu.mapper.irq_spec()
    }

    /// Whether the APU or the cartridge asserts IRQ.
    pub fn poll_irq(&self) -> (r: bool)
        ensures
            r == self.poll_irq_spec(),
    {
        self.apu.poll() || self.ppu.mapper.poll()
    }
}

/// A CPU read anywhere in 0x0000..0x1FFF right after a write to an address
/// with the same low eleven bits returns the written byte: the read sees
/// RAM at `addr & 0x7FF`.
pub proof fn lemma_ram_mirror(before: System, after: System, written: u16, data: u8, addr: u16)
    requires
        written <= RAM_END,
        addr <= RAM_END,
        written & 0x7FF == addr & 0x7FF,
        after.memory.ram@ == before.memory.ram@.update(written as int % 0x800, data),
        before.memory.wf(),
    ensures
        after.peek(addr) == Some(data),
        after.peek(addr) == Some(after.memory.ram@[(addr & 0x7FF) as int]),
{
    assert(written & 0x7FF == written % 0x800 && addr & 0x7FF == addr % 0x800) by (bit_vector);
}

/// Every address of 0x2000..0x3FFF reaches the same PPU port as
/// `addr & 0x2007`: reads and writes there depend on `addr % 8` alone.
pub proof fn lemma_ppu_port_mirror(addr: u16)
    requires
        0x2000 <= addr <= PPU_END,
    ensures
        0x2000 <= addr & 0x2007 <= 0x2007,
        (addr & 0x2007) % 8 == addr % 8,
{
    assert(0x2000 <= addr <= 0x3FFF ==> 0x2000 <= addr & 0x2007 <= 0x2007 && (addr & 0x2007) % 8 == addr % 8) by (bit_vector);
}

} // verus!
