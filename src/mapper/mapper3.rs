use vstd::prelude::*;
use super::Mirroring;
use super::banks::Banks;

verus! {

/// CNROM: a switchable 8 KiB CHR bank and fixed PRG ROM.
pub struct Mapper3 {
    pub mirroring: Mirroring,
    pub chr: Banks,
    pub prg_rom: Banks,
}

impl Mapper3 {
    pub open spec fn wf(&self) -> bool {
        &&& self.chr.wf()
        &&& self.chr.window_size() == 0x2000
        &&& self.chr.span() == 0x2000
        &&& self.chr.slot_count() == 1
        &&& self.prg_rom.wf()
        &&& self.prg_rom.window_size() == 0x4000
        &&& self.prg_rom.span() == 0x8000
    }

    /// The 8 KiB CHR bank selected.
    pub open spec fn selected(&self) -> int {
        self.chr.page(0)
    }

    pub fn new(chr_rom: Vec<u8>, prg_rom: Vec<u8>, mirroring: Mirroring) -> (r: Mapper3)
        requires
            prg_rom@.len() >= 0x4000,
            prg_rom@.len() % 0x4000 == 0,
            chr_rom@.len() % 0x2000 == 0,
        ensures
            r.wf(),
            r.mirroring == mirroring,
            r.selected() == 0,
            r.prg_rom.bytes() == prg_rom@,
            chr_rom@.len() > 0 ==> r.chr.bytes() == chr_rom@,
    {
        let writeable = chr_rom.len() == 0;
        proof {
            if !writeable {
                assert(chr_rom@.len() >= 0x2000);
            }
        }
        let chr_mem: Vec<u8> = if writeable { vec![0u8; 0x2000] } else { chr_rom };
        let chr = Banks::new(0x0000, 0x1FFF, 0x2000, chr_mem, writeable);
        assert(chr.page(0) == 0);
        let prg = Banks::new(0x8000, 0xFFFF, 0x4000, prg_rom, false);
        Mapper3 { mirroring, chr, prg_rom: prg }
    }

    pub fn mirroring(&self) -> (r: Mirroring)
        ensures
            r == self.mirroring,
    {
        self.mirroring
    }

    /// What a read of `addr` returns.
    pub open spec fn read_spec(&self, addr: u16) -> u8 {
        if addr < 0x2000 {
            self.chr.bytes()[self.chr.translate_spec(addr)]
        } else if addr >= 0x8000 {
            self.prg_rom.bytes()[self.prg_rom.translate_spec(addr)]
        } else {
            0
        }
    }

    pub fn read(&self, addr: u16) -> (r: u8)
        requires
            self.wf(),
        ensures
            r == self.read_spec(addr),
            addr < 0x2000 ==> r == self.chr.bytes()[self.selected() * 0x2000 + addr as int],
            addr >= 0x8000 ==> r == self.prg_rom.bytes()[self.prg_rom.translate_spec(addr)],
            0x2000 <= addr < 0x8000 ==> r == 0,
    {
        if addr < 0x2000 {
            self.chr.read(addr)
        } else if addr >= 0x8000 {
            self.prg_rom.read(addr)
        } else {
            0
        }
    }

    /// What a write of `val` at `addr` leaves: CHR RAM stores through its
    /// window; at 0x8000 and up the low two bits select the CHR bank.
    pub open spec fn write_post(&self, f: &Mapper3, addr: u16, val: u8) -> bool {
        &&& f.mirroring == self.mirroring
        &&& f.prg_rom == self.prg_rom
        &&& addr < 0x2000 ==> self.chr.written(&f.chr, addr, val)
        &&& addr >= 0x8000 ==> {
            &&& f.chr.bytes() == self.chr.bytes()
            &&& f.chr.page_count() == self.chr.page_count()
            &&& f.selected() == (val & 0x03) as int % self.chr.page_count() as int
        }
        &&& 0x2000 <= addr < 0x8000 ==> *f == *self
    }

    /// A write at 0x8000 and up selects the CHR bank from its low two bits.
    pub fn write(&mut self, addr: u16, val: u8)
        requires
            old(self).wf(),
        ensures
            final(self).wf(),
            old(self).write_post(final(self), addr, val),
    {
        if addr < 0x2000 {
            self.chr.write(addr, val);
        } else if addr >= 0x8000 {
            self.chr.set(0, (val & 0x03) as usize);
        }
    }
}

/// CNROM: after a write of `val` at 0x8000 and up, a CHR read reaches bank
/// `val & 3` (modulo the bank count) at the same offset.
pub proof fn lemma_cnrom_bank_switch(m: Mapper3, val: u8, addr: u16)
    requires
        m.wf(),
        m.selected() == (val & 0x03) as int % m.chr.page_count() as int,
        addr < 0x2000,
    ensures
        m.read_spec(addr) == m.chr.bytes()[((val & 0x03) as int % m.chr.page_count() as int) * 0x2000 + addr as int],
{
}

} // verus!
