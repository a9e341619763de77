use vstd::prelude::*;
use super::Mirroring;
use super::banks::Banks;

verus! {

/// MMC1: registers loaded one bit per write through a 5-bit shift register.
pub struct Mapper1 {
    pub mirroring: Mirroring,
    pub chr: Banks,
    pub prg_ram: Banks,
    pub prg_rom: Banks,
    pub control: u8,
    pub chr0: u8,
    pub chr1: u8,
    pub prg: u8,
    pub shift: u8,
}

/// Mirroring selected by the low two bits of the control register.
pub open spec fn mmc1_mirroring(control: u8) -> Mirroring {
    let m = control & 0x03;
    if m == 0 {
        Mirroring::Single0
    } else if m == 1 {
        Mirroring::Single1
    } else if m == 2 {
        Mirroring::Vertical
    } else {
        Mirroring::Horizontal
    }
}

/// The 256 KiB half of a 512 KiB PRG image that the CHR register selects.
pub open spec fn mmc1_selector(control: u8, chr0: u8, chr1: u8, prg_len: int, addr: u16) -> int {
    let extra = if 0xC000 <= addr <= 0xDFFF && (control >> 4) & 0x01 != 0 { chr1 } else { chr0 };
    if prg_len == 0x80000 { (extra & 0x10) as int } else { 0 }
}

/// Pages requested for the two 16 KiB PRG windows (before wrapping to the
/// image size), per the PRG mode in the control register.
pub open spec fn mmc1_prg_request(control: u8, prg: u8, selector: int, last: int) -> (int, int) {
    let mode = (control >> 2) & 0x03;
    let p = (prg & 0x0F) as int;
    if mode <= 1 {
        let b = (selector as u8 | ((p as u8) & 0xFE)) as int;
        (b, b + 1)
    } else if mode == 2 {
        (selector, (selector as u8 | p as u8) as int)
    } else {
        ((selector as u8 | p as u8) as int, (selector as usize | last as usize) as int)
    }
}

impl Mapper1 {
    pub open spec fn wf(&self) -> bool {
        &&& self.chr.wf()
        &&& self.chr.window_size() == 0x1000
        &&& self.chr.slot_count() == 2
        &&& self.prg_ram.wf()
        &&& self.prg_ram.is_writeable()
        &&& self.prg_rom.wf()
        &&& self.prg_rom.window_size() == 0x4000
        &&& self.prg_rom.span() == 0x8000
        &&& self.prg_rom.slot_count() == 2
    }

    /// The banks agree with the registers, as last updated by a write at `addr`.
    pub open spec fn banks_follow(&self, addr: u16) -> bool {
        let cp = self.chr.page_count() as int;
        let pp = self.prg_rom.page_count() as int;
        let sel = mmc1_selector(self.control, self.chr0, self.chr1, self.prg_rom.bytes().len() as int, addr);
        let req = mmc1_prg_request(self.control, self.prg, sel, pp - 1);
        &&& self.mirroring == mmc1_mirroring(self.control)
        &&& if (self.control >> 4) & 0x01 == 0 {
            &&& self.chr.page(0) == (self.chr0 & 0x1E) as int % cp
            &&& self.chr.page(1) == ((self.chr0 & 0x1E) as int % cp + 1) % cp
        } else {
            &&& self.chr.page(0) == self.chr0 as int % cp
            &&& self.chr.page(1) == self.chr1 as int % cp
        }
        &&& if (self.control >> 2) & 0x03 <= 1 {
            &&& self.prg_rom.page(0) == req.0 % pp
            &&& self.prg_rom.page(1) == (req.0 % pp + 1) % pp
        } else {
            &&& self.prg_rom.page(0) == req.0 % pp
            &&& self.prg_rom.page(1) == req.1 % pp
        }
    }

    pub fn new(chr_rom: Vec<u8>, prg_rom: Vec<u8>, mirroring: Mirroring) -> (r: Mapper1)
        requires
            prg_rom@.len() >= 0x4000,
            prg_rom@.len() % 0x4000 == 0,
            chr_rom@.len() % 0x2000 == 0,
        ensures
            r.wf(),
            r.banks_follow(0),
            r.control == 0x0C,
            r.shift == 0x10,
            r.prg_rom.bytes() == prg_rom@,
            chr_rom@.len() > 0 ==> r.chr.bytes() == chr_rom@,
    {
        let writeable = chr_rom.len() == 0;
        proof {
            if !writeable {
                assert(chr_rom@.len() >= 0x2000);
            }
        }
        let chr_mem: Vec<u8> = if writeable { vec![0u8; 0x2000] } else { chr_rom };
        let chr = Banks::new(0x0000, 0x1FFF, 0x1000, chr_mem, writeable);
        let prg_ram = Banks::new(0x6000, 0x7FFF, 0x2000, vec![0u8; 0x8000], true);
        let prg = Banks::new(0x8000, 0xFFFF, 0x4000, prg_rom, false);
        let mut mapper = Mapper1 {
            mirroring,
            chr,
            prg_ram,
            prg_rom: prg,
            control: 0x0C,
            chr0: 0,
            chr1: 0,
            prg: 0,
            shift: 0x10,
        };
        mapper.update_banks(0x0000);
        mapper
    }

    /// Brings mirroring and the CHR and PRG windows in line with the registers.
    fn update_banks(&mut self, addr: u16)
        requires
            old(self).wf(),
        ensures
            final(self).wf(),
            final(self).banks_follow(addr),
            final(self).control == old(self).control,
            final(self).chr0 == old(self).chr0,
            final(self).chr1 == old(self).chr1,
            final(self).prg == old(self).prg,
            final(self).shift == old(self).shift,
            final(self).prg_rom.bytes() == old(self).prg_rom.bytes(),
            final(self).prg_rom.page_count() == old(self).prg_rom.page_count(),
            final(self).chr.page_count() == old(self).chr.page_count(),
            final(self).prg_ram == old(self).prg_ram,
            final(self).chr.bytes() == old(self).chr.bytes(),
    {
        let m = self.control & 0x03;
        self.mirroring = if m == 0 {
            Mirroring::Single0
        } else if m == 1 {
            Mirroring::Single1
        } else if m == 2 {
            Mirroring::Vertical
        } else {
            Mirroring::Horizontal
        };

        let chr_mode = (self.control >> 4) & 0x01;
        if chr_mode == 0 {
            self.chr.set_range(0, 1, (self.chr0 & 0x1E) as usize);
        } else {
            self.chr.set(0, self.chr0 as usize);
            self.chr.set(1, self.chr1 as usize);
        }

        let extra = if 0xC000 <= addr && addr <= 0xDFFF && chr_mode != 0 { self.chr1 } else { self.chr0 };
        let selector: u8 = if self.prg_rom.capacity() == 0x80000 { extra & 0x10 } else { 0 };
        let prg = self.prg & 0x0F;
        let last = self.prg_rom.last();
        let mode = (self.control >> 2) & 0x03;
        if mode <= 1 {
            self.prg_rom.set_range(0, 1, (selector | (prg & 0xFE)) as usize);
        } else if mode == 2 {
            self.prg_rom.set(0, selector as usize);
            self.prg_rom.set(1, (selector | prg) as usize);
        } else {
            self.prg_rom.set(0, (selector | prg) as usize);
            self.prg_rom.set(1, (selector as usize) | last);
        }
    }

    pub fn mirroring(&self) -> (r: Mirroring)
        ensures
            r == self.mirroring,
    {
        self.mirroring
    }

    /// Whether PRG RAM is switched on (bit 4 of the PRG register clear).
    pub open spec fn ram_enabled(&self) -> bool {
        self.prg & 0x10 == 0
    }

    /// What a read of `addr` returns.
    pub open spec fn read_spec(&self, addr: u16) -> u8 {
        if addr < 0x2000 {
            self.chr.bytes()[self.chr.translate_spec(addr)]
        } else if 0x6000 <= addr < 0x8000 && self.ram_enabled() {
            self.prg_ram.bytes()[self.prg_ram.translate_spec(addr)]
        } else if addr >= 0x8000 {
            self.prg_rom.bytes()[self.prg_rom.translate_spec(addr)]
        } else {
            0
        }
    }

    pub fn read(&self, addr: u16) -> (r: u8)
        requires
            self.wf(),
        ensures
            r == self.read_spec(addr),
            addr < 0x2000 ==> r == self.chr.bytes()[self.chr.translate_spec(addr)],
            0x6000 <= addr < 0x8000 && self.ram_enabled() ==> r == self.prg_ram.bytes()[self.prg_ram.translate_spec(addr)],
            addr >= 0x8000 ==> r == self.prg_rom.bytes()[self.prg_rom.translate_spec(addr)],
            0x2000 <= addr < 0x6000 ==> r == 0,
    {
        if addr < 0x2000 {
            self.chr.read(addr)
        } else if 0x6000 <= addr && addr < 0x8000 && self.prg & 0x10 == 0 {
            self.prg_ram.read(addr)
        } else if addr >= 0x8000 {
            self.prg_rom.read(addr)
        } else {
            0
        }
    }

    /// What one serial write of `val` at `addr` (0x8000 and up) leaves.
    pub open spec fn load_post(&self, f: &Mapper1, addr: u16, val: u8) -> bool {
        &&& val & 0x80 != 0 ==> *f == (Mapper1 { shift: 0x10, control: self.control | 0x0C, ..*self })
        &&& val & 0x80 == 0 && self.shift & 0x01 != 0x01 ==>
            *f == (Mapper1 { shift: (self.shift >> 1) | ((val & 0x01) << 4), ..*self })
        &&& val & 0x80 == 0 && self.shift & 0x01 == 0x01 ==> {
            let v = (self.shift >> 1) | ((val & 0x01) << 4);
            &&& f.shift == 0x10
            &&& f.banks_follow(addr)
            &&& f.control == if addr <= 0x9FFF { v } else { self.control }
            &&& f.chr0 == if 0xA000 <= addr <= 0xBFFF { v & 0x1F } else { self.chr0 }
            &&& f.chr1 == if 0xC000 <= addr <= 0xDFFF { v & 0x1F } else { self.chr1 }
            &&& f.prg == if 0xE000 <= addr { v & 0x1F } else { self.prg }
            &&& f.prg_rom.bytes() == self.prg_rom.bytes()
            &&& f.prg_rom.page_count() == self.prg_rom.page_count()
            &&& f.chr.bytes() == self.chr.bytes()
            &&& f.chr.page_count() == self.chr.page_count()
            &&& f.prg_ram == self.prg_ram
        }
    }

    /// What a write of `val` at `addr` leaves: CHR RAM stores through its
    /// windows, PRG RAM while enabled, and from 0x8000 up the serial port
    /// loads a bit.
    pub open spec fn write_post(&self, f: &Mapper1, addr: u16, val: u8) -> bool {
        &&& addr < 0x2000 ==> self.chr.written(&f.chr, addr, val) && *f == (Mapper1 { chr: f.chr, ..*self })
        &&& 0x6000 <= addr < 0x8000 && self.ram_enabled() ==> self.prg_ram.written(&f.prg_ram, addr, val)
            && *f == (Mapper1 { prg_ram: f.prg_ram, ..*self })
        &&& addr >= 0x8000 ==> self.load_post(f, addr, val)
        &&& 0x2000 <= addr < 0x8000 && !(0x6000 <= addr && self.ram_enabled()) ==> *f == *self
    }

    /// One serial write to the register port: bit 7 resets the shift
    /// register; the fifth bit completes a value for the register that the
    /// address selects.
    fn load(&mut self, addr: u16, val: u8)
        requires
            old(self).wf(),
            addr >= 0x8000,
        ensures
            final(self).wf(),
            old(self).load_post(final(self), addr, val),
    {
        if val & 0x80 != 0 {
            self.shift = 0x10;
            self.control = self.control | 0x0C;
        } else {
            let complete = self.shift & 0x01 == 0x01;
            self.shift = (self.shift >> 1) | ((val & 0x01) << 4);
            if complete {
                let v = self.shift;
                if addr <= 0x9FFF {
                    self.control = v;
                } else if addr <= 0xBFFF {
                    self.chr0 = v & 0x1F;
                } else if addr <= 0xDFFF {
                    self.chr1 = v & 0x1F;
                } else {
                    self.prg = v & 0x1F;
                }
                self.shift = 0x10;
                self.update_banks(addr);
            }
        }
    }

    pub fn write(&mut self, addr: u16, val: u8)
        requires
            old(self).wf(),
        ensures
            final(self).wf(),
            old(self).write_post(final(self), addr, val),
    {
        if addr < 0x2000 {
            self.chr.write(addr, val);
        } else if 0x6000 <= addr && addr < 0x8000 && self.prg & 0x10 == 0 {
            self.prg_ram.write(addr, val);
        } else if addr >= 0x8000 {
            self.load(addr, val);
        }
    }
}

/// MMC1: while the windows follow the registers (as after each completed
/// serial load), a PRG read reaches the page that the PRG register and mode
/// ask for in its 16 KiB window; in the 32 KiB mode the second window shows
/// the page after the first.
pub proof fn lemma_mmc1_prg_translate(m: Mapper1, last_write: u16, addr: u16)
    requires
        m.wf(),
        m.banks_follow(last_write),
        addr >= 0x8000,
    ensures
        ({
            let pp = m.prg_rom.page_count() as int;
            let sel = mmc1_selector(m.control, m.chr0, m.chr1, m.prg_rom.bytes().len() as int, last_write);
            let req = mmc1_prg_request(m.control, m.prg, sel, pp - 1);
            let page = if addr < 0xC000 {
                req.0 % pp
            } else if (m.control >> 2) & 0x03 <= 1 {
                (req.0 % pp + 1) % pp
            } else {
                req.1 % pp
            };
            m.read_spec(addr) == m.prg_rom.bytes()[page * 0x4000 + addr as int % 0x4000]
        }),
{
    let slot = (addr as int % 0x8000) / 0x4000;
    assert(slot == if addr < 0xC000 { 0int } else { 1int });
}

} // verus!
