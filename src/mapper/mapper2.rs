use vstd::prelude::*;
use super::Mirroring;
use super::banks::Banks;

verus! {

/// UxROM: a switchable 16 KiB PRG bank at 0x8000 and the last bank fixed at
/// 0xC000.
pub struct Mapper2 {
    pub mirroring: Mirroring,
    pub chr: Banks,
    pub prg_ram: Banks,
    pub prg_rom: Banks,
}

impl Mapper2 {
    pub open spec fn wf(&self) -> bool {
        &&& self.chr.wf()
        &&& self.chr.window_size() == 0x2000
        &&& self.chr.span() == 0x2000
        &&& self.prg_ram.wf()
        &&& self.prg_ram.span() == 0x2000
        &&& self.prg_ram.window_size() == 0x2000
        &&& self.prg_ram.is_writeable()
        &&& self.prg_rom.wf()
        &&& self.prg_rom.window_size() == 0x4000
        &&& self.prg_rom.span() == 0x8000
        &&& self.prg_rom.slot_count() == 2
        &&& self.prg_rom.page(1) == self.prg_rom.page_count() - 1
    }

    /// The 16 KiB bank selected at 0x8000.
    pub open spec fn selected(&self) -> int {
        self.prg_rom.page(0)
    }

    /// Index into PRG ROM that a CPU read of `addr` (0x8000 and up) reaches.
    pub open spec fn prg_index(&self, addr: u16) -> int {
        if addr < 0xC000 {
            self.selected() * 0x4000 + addr as int % 0x4000
        } else {
            (self.prg_rom.page_count() - 1) * 0x4000 + addr as int % 0x4000
        }
    }

    pub fn new(chr_rom: Vec<u8>, prg_rom: Vec<u8>, mirroring: Mirroring) -> (r: Mapper2)
        requires
            prg_rom@.len() >= 0x4000,
            prg_rom@.len() % 0x4000 == 0,
            chr_rom@.len() % 0x2000 == 0,
        ensures
            r.wf(),
            r.mirroring == mirroring,
            r.prg_rom.bytes() == prg_rom@,
            chr_rom@.len() > 0 ==> r.chr.bytes() == chr_rom@,
            r.selected() == 0,
            r.prg_rom.page_count() == prg_rom@.len() / 0x4000,
    {
        let writeable = chr_rom.len() == 0;
        proof {
            if !writeable {
                assert(chr_rom@.len() >= 0x2000);
            }
        }
        let chr_mem: Vec<u8> = if writeable { vec![0u8; 0x2000] } else { chr_rom };
        let chr = Banks::new(0x0000, 0x1FFF, 0x2000, chr_mem, writeable);
        assert(chr.page(0) == 0);
        let prg_ram = Banks::new(0x6000, 0x7FFF, 0x2000, vec![0u8; 0x2000], true);
        let mut prg = Banks::new(0x8000, 0xFFFF, 0x4000, prg_rom, false);
        assert(prg.page(0) == 0);
        let last = prg.last();
        prg.set(1, last);
        proof {
            vstd::arithmetic::div_mod::lemma_small_mod(last as nat, prg.page_count());
        }
        Mapper2 { mirroring, chr, prg_ram, prg_rom: prg }
    }

    pub fn mirroring(&self) -> (r: Mirroring)
        ensures
            r == self.mirroring,
    {
        self.mirroring
    }

    /// What a read of `addr` returns.
    pub open spec fn read_spec(&self, addr: u16) -> u8 {
        if addr < 0x2000 {
            self.chr.bytes()[self.chr.translate_spec(addr)]
        } else if 0x6000 <= addr < 0x8000 {
            self.prg_ram.bytes()[self.prg_ram.translate_spec(addr)]
        } else if addr >= 0x8000 {
            self.prg_rom.bytes()[self.prg_index(addr)]
        } else {
            0
        }
    }

    pub fn read(&self, addr: u16) -> (r: u8)
        requires
            self.wf(),
        ensures
            r == self.read_spec(addr),
            addr < 0x2000 ==> r == self.chr.bytes()[self.chr.translate_spec(addr)],
            0x6000 <= addr < 0x8000 ==> r == self.prg_ram.bytes()[self.prg_ram.translate_spec(addr)],
            addr >= 0x8000 ==> r == self.prg_rom.bytes()[self.prg_index(addr)],
            0x2000 <= addr < 0x6000 ==> r == 0,
    {
        if addr < 0x2000 {
            self.chr.read(addr)
        } else if 0x6000 <= addr && addr < 0x8000 {
            self.prg_ram.read(addr)
        } else if addr >= 0x8000 {
            self.prg_rom.read(addr)
        } else {
            0
        }
    }

    /// What a write of `val` at `addr` leaves: CHR RAM and PRG RAM store
    /// through their windows; at 0x8000 and up the low five bits select the
    /// bank at 0x8000 while the last bank stays at 0xC000.
    pub open spec fn write_post(&self, f: &Mapper2, addr: u16, val: u8) -> bool {
        &&& f.mirroring == self.mirroring
        &&& addr < 0x2000 ==> self.chr.written(&f.chr, addr, val) && f.prg_ram == self.prg_ram && f.prg_rom == self.prg_rom
        &&& 0x6000 <= addr < 0x8000 ==> self.prg_ram.written(&f.prg_ram, addr, val) && f.chr == self.chr
            && f.prg_rom == self.prg_rom
        &&& addr >= 0x8000 ==> {
            &&& f.chr == self.chr
            &&& f.prg_ram == self.prg_ram
            &&& f.prg_rom.bytes() == self.prg_rom.bytes()
            &&& f.prg_rom.page_count() == self.prg_rom.page_count()
            &&& f.selected() == (val & 0x1F) as int % self.prg_rom.page_count() as int
        }
        &&& 0x2000 <= addr < 0x6000 ==> *f == *self
    }

    /// A write at 0x8000 and up selects the bank at 0x8000 from its low five
    /// bits.
    pub fn write(&mut self, addr: u16, val: u8)
        requires
            old(self).wf(),
        ensures
            final(self).wf(),
            old(self).write_post(final(self), addr, val),
    {
        if addr < 0x2000 {
            self.chr.write(addr, val);
        } else if 0x6000 <= addr && addr < 0x8000 {
            self.prg_ram.write(addr, val);
        } else if addr >= 0x8000 {
            self.prg_rom.set(0, (val & 0x1F) as usize);
        }
    }
}

/// UxROM: after a write of `val` at 0x8000 and up, a read at 0x8000..0xBFFF
/// reaches bank `val & 0x1F` (modulo the bank count) and a read at 0xC000
/// and up the last bank, at the same offset.
pub proof fn lemma_uxrom_bank_switch(m: Mapper2, val: u8, addr: u16)
    requires
        m.wf(),
        m.selected() == (val & 0x1F) as int % m.prg_rom.page_count() as int,
        addr >= 0x8000,
    ensures
        m.read_spec(addr) == m.prg_rom.bytes()[if addr < 0xC000 {
            ((val & 0x1F) as int % m.prg_rom.page_count() as int) * 0x4000 + addr as int % 0x4000
        } else {
            (m.prg_rom.page_count() - 1) * 0x4000 + addr as int % 0x4000
        }],
{
}

} // verus!
