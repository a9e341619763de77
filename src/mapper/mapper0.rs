use vstd::prelude::*;
use super::Mirroring;

verus! {

/// NROM: fixed CHR, 8 KiB PRG RAM and up to 32 KiB PRG ROM, where 16 KiB
/// images repeat at 0xC000.
pub struct Mapper0 {
    pub mirroring: Mirroring,
    pub chr_rom: Vec<u8>,
    pub chr_ram: Vec<u8>,
    pub prg_rom: Vec<u8>,
    pub prg_ram: Vec<u8>,
}

impl Mapper0 {
    pub open spec fn wf(&self) -> bool {
        &&& self.prg_rom@.len() > 0
        &&& self.prg_ram@.len() == 0x2000
        &&& self.chr_rom@.len() == 0 ==> self.chr_ram@.len() == 0x2000
        &&& self.chr_rom@.len() > 0 ==> self.chr_ram@.len() == 0
    }

    /// The pattern memory the PPU sees: the ROM, or the RAM when there is none.
    pub open spec fn chr(&self) -> Seq<u8> {
        if self.chr_rom@.len() == 0 { self.chr_ram@ } else { self.chr_rom@ }
    }

    /// What a read of `addr` returns.
    pub open spec fn read_spec(&self, addr: u16) -> u8 {
        if addr < 0x2000 {
            self.chr()[addr as int % self.chr().len() as int]
        } else if 0x6000 <= addr < 0x8000 {
            self.prg_ram@[addr - 0x6000]
        } else if addr >= 0x8000 {
            self.prg_rom@[(addr - 0x8000) % self.prg_rom@.len() as int]
        } else {
            0
        }
    }

    pub fn new(chr_rom: Vec<u8>, prg_rom: Vec<u8>, mirroring: Mirroring) -> (r: Mapper0)
        requires
            prg_rom@.len() > 0,
        ensures
            r.wf(),
            r.mirroring == mirroring,
            r.chr_rom@ == chr_rom@,
            r.prg_rom@ == prg_rom@,
            chr_rom@.len() == 0 ==> r.chr() == Seq::new(0x2000, |i: int| 0u8),
            r.prg_ram@ == Seq::new(0x2000, |i: int| 0u8),
    {
        let chr_ram: Vec<u8> = if chr_rom.len() == 0 { vec![0u8; 0x2000] } else { Vec::new() };
        let prg_ram: Vec<u8> = vec![0u8; 0x2000];
        proof {
            assert(prg_ram@ =~= Seq::new(0x2000, |i: int| 0u8));
            if chr_rom@.len() == 0 {
                assert(chr_ram@ =~= Seq::new(0x2000, |i: int| 0u8));
            }
        }
        Mapper0 { mirroring, chr_rom, chr_ram, prg_rom, prg_ram }
    }

    pub fn mirroring(&self) -> (r: Mirroring)
        ensures
            r == self.mirroring,
    {
        self.mirroring
    }

    pub fn read(&self, addr: u16) -> (r: u8)
        requires
            self.wf(),
        ensures
            r == self.read_spec(addr),
    {
        if addr < 0x2000 {
            if self.chr_rom.len() == 0 {
                self.chr_ram[(addr as usize) % self.chr_ram.len()]
            } else {
                self.chr_rom[(addr as usize) % self.chr_rom.len()]
            }
        } else if 0x6000 <= addr && addr < 0x8000 {
            self.prg_ram[(addr - 0x6000) as usize]
        } else if addr >= 0x8000 {
            self.prg_rom[((addr - 0x8000) as usize) % self.prg_rom.len()]
        } else {
            0
        }
    }

    /// What a write of `val` at `addr` leaves: CHR RAM (when there is no
    /// CHR ROM) and PRG RAM store the byte; nothing else changes.
    pub open spec fn write_post(&self, f: &Mapper0, addr: u16, val: u8) -> bool {
        &&& f.mirroring == self.mirroring
        &&& f.chr_rom@ == self.chr_rom@
        &&& f.prg_rom@ == self.prg_rom@
        &&& f.chr_ram@ == if addr < 0x2000 && self.chr_ram@.len() > 0 {
            self.chr_ram@.update(addr as int % 0x2000, val)
        } else {
            self.chr_ram@
        }
        &&& f.prg_ram@ == if 0x6000 <= addr < 0x8000 {
            self.prg_ram@.update(addr - 0x6000, val)
        } else {
            self.prg_ram@
        }
    }

    /// Stores into CHR RAM (when the cartridge has no CHR ROM) or PRG RAM;
    /// other writes are ignored.
    pub fn write(&mut self, addr: u16, val: u8)
        requires
            old(self).wf(),
        ensures
            final(self).wf(),
            old(self).write_post(final(self), addr, val),
    {
        if addr < 0x2000 {
            if self.chr_ram.len() > 0 {
                let i = (addr as usize) % self.chr_ram.len();
                self.chr_ram[i] = val;
            }
        } else if 0x6000 <= addr && addr < 0x8000 {
            self.prg_ram[(addr - 0x6000) as usize] = val;
        }
    }
}

} // verus!
