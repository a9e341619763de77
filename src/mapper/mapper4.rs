use vstd::prelude::*;
use super::{MapperEvent, Mirroring};
use super::banks::Banks;

verus! {

/// The scanline counter of MMC3.
pub struct IRQ {
    pub enabled: bool,
    pub pending: bool,
    pub reload: bool,
    pub latch: u8,
    pub counter: u8,
}

/// MMC3: eight bank registers chosen through a select register, and a
/// scanline counter clocked by rising edges of PPU address line 12.
pub struct Mapper4 {
    pub mirroring: Mirroring,
    pub chr: Banks,
    pub prg_ram: Banks,
    pub prg_rom: Banks,
    pub select: u8,
    pub registers: [u8; 8],
    pub irq: IRQ,
    pub last: bool,
}

/// Requested pages of the four 8 KiB PRG windows, before wrapping.
pub open spec fn mmc3_prg_request(select: u8, r6: u8, r7: u8, last: int) -> Seq<int> {
    if select & 0x40 == 0 {
        seq![r6 as int, r7 as int, last - 1, last]
    } else {
        seq![last - 1, r7 as int, r6 as int, last]
    }
}

/// Requested pages of the eight 1 KiB CHR windows, before wrapping.
pub open spec fn mmc3_chr_request(select: u8, r: Seq<u8>) -> Seq<int> {
    let a = (r[0] & 0xFE) as int;
    let b = (r[1] & 0xFE) as int;
    if select & 0x80 == 0 {
        seq![a, a + 1, b, b + 1, r[2] as int, r[3] as int, r[4] as int, r[5] as int]
    } else {
        seq![r[2] as int, r[3] as int, r[4] as int, r[5] as int, a, a + 1, b, b + 1]
    }
}

/// The scanline counter after one clock: reload from the latch when it is
/// zero or a reload was asked for, else count down; raise the IRQ on
/// reaching zero while enabled.
pub open spec fn irq_ticked(o: &IRQ, f: &IRQ) -> bool {
    &&& f.counter == if o.counter == 0 || o.reload { o.latch } else { (o.counter - 1) as u8 }
    &&& f.pending == (o.pending || (f.counter == 0 && o.enabled))
    &&& !f.reload
    &&& f.enabled == o.enabled
    &&& f.latch == o.latch
}

impl Mapper4 {
    pub open spec fn wf(&self) -> bool {
        &&& self.chr.wf()
        &&& self.chr.window_size() == 0x400
        &&& self.chr.slot_count() == 8
        &&& self.prg_ram.wf()
        &&& self.prg_ram.is_writeable()
        &&& self.prg_rom.wf()
        &&& self.prg_rom.window_size() == 0x2000
        &&& self.prg_rom.slot_count() == 4
        &&& self.prg_rom.span() == 0x8000
        &&& self.prg_rom.page_count() >= 2
    }

    /// Every window shows the page that the registers ask for.
    pub open spec fn banks_follow(&self) -> bool {
        let pp = self.prg_rom.page_count() as int;
        let cp = self.chr.page_count() as int;
        let pr = mmc3_prg_request(self.select, self.registers@[6], self.registers@[7], pp - 1);
        let cr = mmc3_chr_request(self.select, self.registers@);
        &&& forall|i: int| 0 <= i < 4 ==> self.prg_rom.page(i) == #[trigger] pr[i] % pp
        &&& forall|i: int| 0 <= i < 8 ==> self.chr.page(i) == #[trigger] cr[i] % cp
    }

    pub fn new(chr_rom: Vec<u8>, prg_rom: Vec<u8>, mirroring: Mirroring) -> (r: Mapper4)
        requires
            prg_rom@.len() >= 0x4000,
            prg_rom@.len() % 0x4000 == 0,
            chr_rom@.len() % 0x2000 == 0,
        ensures
            r.wf(),
            r.mirroring == mirroring,
            r.prg_rom.bytes() == prg_rom@,
            chr_rom@.len() > 0 ==> r.chr.bytes() == chr_rom@,
            r.prg_rom.page(2) == r.prg_rom.page_count() - 2,
            r.prg_rom.page(3) == r.prg_rom.page_count() - 1,
            !r.irq.pending,
    {
        let writeable = chr_rom.len() == 0;
        proof {
            if !writeable {
                assert(chr_rom@.len() >= 0x2000);
            }
        }
        let chr_mem: Vec<u8> = if writeable { vec![0u8; 0x2000] } else { chr_rom };
        let chr = Banks::new(0x0000, 0x1FFF, 0x400, chr_mem, writeable);
        let prg_ram = Banks::new(0x6000, 0x7FFF, 0x2000, vec![0u8; 0x2000], true);
        let mut prg = Banks::new(0x8000, 0xFFFF, 0x2000, prg_rom, false);
        let last = prg.last();
        prg.set(2, last - 1);
        prg.set(3, last);
        proof {
            vstd::arithmetic::div_mod::lemma_small_mod(last as nat, prg.page_count());
            vstd::arithmetic::div_mod::lemma_small_mod((last - 1) as nat, prg.page_count());
        }
        Mapper4 {
            mirroring,
            chr,
            prg_ram,
            prg_rom: prg,
            select: 0,
            registers: [0u8; 8],
            irq: IRQ { enabled: false, pending: false, reload: false, latch: 0, counter: 0 },
            last: false,
        }
    }

    /// Lays out the PRG and CHR windows from the bank registers.
    fn update_banks(&mut self)
        requires
            old(self).wf(),
        ensures
            final(self).wf(),
            final(self).banks_follow(),
            final(self).select == old(self).select,
            final(self).registers == old(self).registers,
            final(self).mirroring == old(self).mirroring,
            final(self).irq == old(self).irq,
            final(self).last == old(self).last,
            final(self).prg_rom.bytes() == old(self).prg_rom.bytes(),
            final(self).prg_rom.page_count() == old(self).prg_rom.page_count(),
            final(self).chr.page_count() == old(self).chr.page_count(),
            final(self).chr.bytes() == old(self).chr.bytes(),
            final(self).prg_ram == old(self).prg_ram,
    {
        let last = self.prg_rom.last();
        if self.select & 0x40 == 0 {
            self.prg_rom.set(0, self.registers[6] as usize);
            self.prg_rom.set(2, last - 1);
        } else {
            self.prg_rom.set(0, last - 1);
            self.prg_rom.set(2, self.registers[6] as usize);
        }
        self.prg_rom.set(1, self.registers[7] as usize);
        self.prg_rom.set(3, last);

        if self.select & 0x80 == 0 {
            self.chr.set_range(0, 1, (self.registers[0] & 0xFE) as usize);
            self.chr.set_range(2, 3, (self.registers[1] & 0xFE) as usize);
            self.chr.set(4, self.registers[2] as usize);
            self.chr.set(5, self.registers[3] as usize);
            self.chr.set(6, self.registers[4] as usize);
            self.chr.set(7, self.registers[5] as usize);
        } else {
            self.chr.set(0, self.registers[2] as usize);
            self.chr.set(1, self.registers[3] as usize);
            self.chr.set(2, self.registers[4] as usize);
            self.chr.set(3, self.registers[5] as usize);
            self.chr.set_range(4, 5, (self.registers[0] & 0xFE) as usize);
            self.chr.set_range(6, 7, (self.registers[1] & 0xFE) as usize);
        }
        proof {
            let pp = self.prg_rom.page_count() as int;
            let cp = self.chr.page_count() as int;
            let pr = mmc3_prg_request(self.select, self.registers@[6], self.registers@[7], pp - 1);
            let cr = mmc3_chr_request(self.select, self.registers@);
            self.chr.lemma_nonempty();
            super::banks::lemma_next_page((self.registers@[0] & 0xFE) as int, cp);
            super::banks::lemma_next_page((self.registers@[1] & 0xFE) as int, cp);
            assert(forall|i: int| 0 <= i < 4 ==> self.prg_rom.page(i) == #[trigger] pr[i] % pp);
            assert(forall|i: int| 0 <= i < 8 ==> self.chr.page(i) == #[trigger] cr[i] % cp);
        }
    }

    pub fn mirroring(&self) -> (r: Mirroring)
        ensures
            r == self.mirroring,
    {
        self.mirroring
    }

    /// What a read of `addr` returns.
    pub open spec fn read_spec(&self, addr: u16) -> u8 {
        if addr < 0x2000 {
            self.chr.bytes()[self.chr.translate_spec(addr)]
        } else if 0x6000 <= addr < 0x8000 {
            self.prg_ram.bytes()[self.prg_ram.translate_spec(addr)]
        } else if addr >= 0x8000 {
            self.prg_rom.bytes()[self.prg_rom.translate_spec(addr)]
        } else {
            0
        }
    }

    pub fn read(&self, addr: u16) -> (r: u8)
        requires
            self.wf(),
        ensures
            r == self.read_spec(addr),
            addr < 0x2000 ==> r == self.chr.bytes()[self.chr.translate_spec(addr)],
            0x6000 <= addr < 0x8000 ==> r == self.prg_ram.bytes()[self.prg_ram.translate_spec(addr)],
            addr >= 0x8000 ==> r == self.prg_rom.bytes()[self.prg_rom.translate_spec(addr)],
            0x2000 <= addr < 0x6000 ==> r == 0,
    {
        if addr < 0x2000 {
            self.chr.read(addr)
        } else if 0x6000 <= addr && addr < 0x8000 {
            self.prg_ram.read(addr)
        } else if addr >= 0x8000 {
            self.prg_rom.read(addr)
        } else {
            0
        }
    }

    /// Clocks the scanline counter: reload from the latch when it is zero or
    /// a reload was asked for, else count down; raise the IRQ on reaching
    /// zero while enabled.
    pub fn irq_tick(&mut self)
        ensures
            irq_ticked(&old(self).irq, &final(self).irq),
            *final(self) == (Mapper4 { irq: final(self).irq, ..*old(self) }),
    {
        if self.irq.counter == 0 || self.irq.reload {
            self.irq.counter = self.irq.latch;
        } else {
            self.irq.counter = self.irq.counter - 1;
        }
        if self.irq.counter == 0 && self.irq.enabled {
            self.irq.pending = true;
        }
        self.irq.reload = false;
    }

    /// What a register write of `val` at `addr` (0x8000 and up) leaves: even
    /// and odd addresses of each 8 KiB range reach different registers.
    pub open spec fn registers_post(&self, f: &Mapper4, addr: u16, val: u8) -> bool {
        let even = addr % 2 == 0;
        &&& addr <= 0x9FFF ==> {
            &&& f.select == if even { val } else { self.select }
            &&& f.registers@ == if even { self.registers@ } else { self.registers@.update((self.select % 8) as int, val) }
            &&& f.banks_follow()
            &&& f.prg_rom.bytes() == self.prg_rom.bytes()
            &&& f.prg_rom.page_count() == self.prg_rom.page_count()
            &&& f.chr.bytes() == self.chr.bytes()
            &&& f.chr.page_count() == self.chr.page_count()
            &&& f.mirroring == self.mirroring
            &&& f.irq == self.irq
            &&& f.last == self.last
            &&& f.prg_ram == self.prg_ram
        }
        &&& 0xA000 <= addr <= 0xBFFF ==> *f == (Mapper4 {
            mirroring: if even && self.mirroring != Mirroring::FourScreen {
                if val & 0x01 == 0 { Mirroring::Vertical } else { Mirroring::Horizontal }
            } else {
                self.mirroring
            },
            ..*self
        })
        &&& 0xC000 <= addr <= 0xDFFF ==> *f == (Mapper4 {
            irq: if even { IRQ { latch: val, ..self.irq } } else { IRQ { reload: true, ..self.irq } },
            ..*self
        })
        &&& 0xE000 <= addr ==> *f == (Mapper4 {
            irq: if even { IRQ { enabled: false, pending: false, ..self.irq } } else { IRQ { enabled: true, ..self.irq } },
            ..*self
        })
    }

    /// What a write of `val` at `addr` leaves: CHR RAM and PRG RAM store
    /// through their windows; from 0x8000 up a bank or IRQ register changes.
    pub open spec fn write_post(&self, f: &Mapper4, addr: u16, val: u8) -> bool {
        &&& addr < 0x2000 ==> self.chr.written(&f.chr, addr, val) && *f == (Mapper4 { chr: f.chr, ..*self })
        &&& 0x6000 <= addr < 0x8000 ==> self.prg_ram.written(&f.prg_ram, addr, val)
            && *f == (Mapper4 { prg_ram: f.prg_ram, ..*self })
        &&& addr >= 0x8000 ==> self.registers_post(f, addr, val)
        &&& 0x2000 <= addr < 0x6000 ==> *f == *self
    }

    /// Handles a register write at 0x8000 and up; even and odd addresses of
    /// each 8 KiB range select different registers.
    fn write_registers(&mut self, addr: u16, val: u8)
        requires
            old(self).wf(),
            addr >= 0x8000,
        ensures
            final(self).wf(),
            old(self).registers_post(final(self), addr, val),
    {
        let even = addr % 2 == 0;
        if addr <= 0x9FFF {
            if even {
                self.select = val;
            } else {
                let i = (self.select % 8) as usize;
                self.registers[i] = val;
            }
            self.update_banks();
        } else if addr <= 0xBFFF {
            if even {
                match self.mirroring {
                    Mirroring::FourScreen => {},
                    _ => {
                        self.mirroring = if val & 0x01 == 0 { Mirroring::Vertical } else { Mirroring::Horizontal };
                    },
                }
            }
        } else if addr <= 0xDFFF {
            if even {
                self.irq.latch = val;
            } else {
                self.irq.reload = true;
            }
        } else {
            if even {
                self.irq.pending = false;
                self.irq.enabled = false;
            } else {
                self.irq.enabled = true;
            }
        }
    }

    pub fn write(&mut self, addr: u16, val: u8)
        requires
            old(self).wf(),
        ensures
            final(self).wf(),
            old(self).write_post(final(self), addr, val),
    {
        if addr < 0x2000 {
            self.chr.write(addr, val);
        } else if 0x6000 <= addr && addr < 0x8000 {
            self.prg_ram.write(addr, val);
        } else if addr >= 0x8000 {
            self.write_registers(addr, val);
        }
    }

    /// Clocks the counter on hblank, or on a rising edge of address bit 12.
    pub fn notify(&mut self, event: MapperEvent)
        requires
            old(self).wf(),
        ensures
            final(self).wf(),
            final(self).prg_rom == old(self).prg_rom,
            final(self).prg_ram == old(self).prg_ram,
            final(self).chr == old(self).chr,
            final(self).mirroring == old(self).mirroring,
            final(self).select == old(self).select,
            final(self).registers == old(self).registers,
            match event {
                MapperEvent::HBlank => irq_ticked(&old(self).irq, &final(self).irq) && final(self).last == old(self).last,
                MapperEvent::VRAMAddressChanged(a) => {
                    &&& final(self).last == ((a >> 12) & 0x01 != 0)
                    &&& !old(self).last && (a >> 12) & 0x01 != 0 ==> irq_ticked(&old(self).irq, &final(self).irq)
                    &&& !(!old(self).last && (a >> 12) & 0x01 != 0) ==> final(self).irq == old(self).irq
                },
            },
    {
        match event {
            MapperEvent::HBlank => self.irq_tick(),
            MapperEvent::VRAMAddressChanged(a) => {
                let next = (a >> 12) & 0x01 != 0;
                if !self.last && next {
                    self.irq_tick();
                }
                self.last = next;
            },
        }
    }

    pub fn poll(&self) -> (r: bool)
        ensures
            r == self.irq.pending,
    {
        self.irq.pending
    }
}

/// MMC3: while the windows follow the bank registers, a PRG read reaches the
/// page that the registers and the PRG mode ask for in its 8 KiB window.
pub proof fn lemma_mmc3_prg_translate(m: Mapper4, addr: u16)
    requires
        m.wf(),
        m.banks_follow(),
        addr >= 0x8000,
    ensures
        ({
            let pp = m.prg_rom.page_count() as int;
            let req = mmc3_prg_request(m.select, m.registers@[6], m.registers@[7], pp - 1);
            let slot = (addr as int % 0x8000) / 0x2000;
            m.read_spec(addr) == m.prg_rom.bytes()[(req[slot] % pp) * 0x2000 + addr as int % 0x2000]
        }),
{
    let slot = (addr as int % 0x8000) / 0x2000;
    assert(0 <= slot < 4);
}

} // verus!
