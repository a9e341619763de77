pub mod banks;
pub mod mapper0;
pub mod mapper1;
pub mod mapper2;
pub mod mapper3;
pub mod mapper4;

use vstd::prelude::*;
use mapper0::Mapper0;
use mapper1::Mapper1;
use mapper2::Mapper2;
use mapper3::Mapper3;
use mapper4::Mapper4;

verus! {

/// How the four logical nametables fold onto the console's 2 KiB of VRAM.
#[derive(Clone, Copy, PartialEq, Eq, Structural, Debug)]
pub enum Mirroring {
    Vertical,
    Horizontal,
    FourScreen,
    Single0,
    Single1,
}

/// Physical nametable (0..3) that logical nametable `table` maps to.
pub open spec fn mirror_coeff(m: Mirroring, table: int) -> int {
    match m {
        Mirroring::Vertical => table % 2,
        Mirroring::Horizontal => table / 2,
        Mirroring::FourScreen => table,
        Mirroring::Single0 => 0,
        Mirroring::Single1 => 1,
    }
}

impl Mirroring {
    /// Physical nametable of each of the four logical nametables.
    pub fn coeff(&self) -> (r: [u16; 4])
        ensures
            forall|i: int| 0 <= i < 4 ==> r@[i] as int == mirror_coeff(*self, i),
    {
        match self {
            Mirroring::Vertical => [0, 1, 0, 1],
            Mirroring::Horizontal => [0, 0, 1, 1],
            Mirroring::FourScreen => [0, 1, 2, 3],
            Mirroring::Single0 => [0, 0, 0, 0],
            Mirroring::Single1 => [1, 1, 1, 1],
        }
    }
}

/// What the PPU tells the cartridge about.
#[derive(Clone, Copy, PartialEq, Eq, Structural, Debug)]
pub enum MapperEvent {
    HBlank,
    VRAMAddressChanged(u16),
}

/// The cartridge hardware, one variant per supported mapper number.
pub enum Mapper {
    Nrom(Mapper0),
    Mmc1(Mapper1),
    Uxrom(Mapper2),
    Cnrom(Mapper3),
    Mmc3(Mapper4),
}

/// Builds the mapper numbered `mapper` over the given CHR and PRG images;
/// `None` for a number outside 0..=4.
pub fn from(mapper: u8, chr_rom: Vec<u8>, prg_rom: Vec<u8>, mirroring: Mirroring) -> (r: Option<Mapper>)
    requires
        prg_rom@.len() >= 0x4000,
        prg_rom@.len() % 0x4000 == 0,
        chr_rom@.len() % 0x2000 == 0,
    ensures
        r is Some <==> mapper <= 4,
        r is Some ==> r->0.wf() && r->0.number() == mapper,
        r is Some ==> r->0.mirroring_spec() == if mapper == 1 { Mirroring::Single0 } else { mirroring },
        r is Some ==> r->0.prg_image() == prg_rom@,
        r is Some && chr_rom@.len() > 0 ==> r->0.chr_image() == chr_rom@,
{
    if mapper == 0 {
        Some(Mapper::Nrom(Mapper0::new(chr_rom, prg_rom, mirroring)))
    } else if mapper == 1 {
        let m = Mapper1::new(chr_rom, prg_rom, mirroring);
        assert(0x0Cu8 & 0x03 == 0) by (bit_vector);
        Some(Mapper::Mmc1(m))
    } else if mapper == 2 {
        Some(Mapper::Uxrom(Mapper2::new(chr_rom, prg_rom, mirroring)))
    } else if mapper == 3 {
        Some(Mapper::Cnrom(Mapper3::new(chr_rom, prg_rom, mirroring)))
    } else if mapper == 4 {
        Some(Mapper::Mmc3(Mapper4::new(chr_rom, prg_rom, mirroring)))
    } else {
        None
    }
}

impl Mapper {
    pub open spec fn wf(&self) -> bool {
        match self {
            Mapper::Nrom(m) => m.wf(),
            Mapper::Mmc1(m) => m.wf(),
            Mapper::Uxrom(m) => m.wf(),
            Mapper::Cnrom(m) => m.wf(),
            Mapper::Mmc3(m) => m.wf(),
        }
    }

    /// The iNES mapper number of the variant.
    pub open spec fn number(&self) -> u8 {
        match self {
            Mapper::Nrom(_) => 0,
            Mapper::Mmc1(_) => 1,
            Mapper::Uxrom(_) => 2,
            Mapper::Cnrom(_) => 3,
            Mapper::Mmc3(_) => 4,
        }
    }

    /// The PRG ROM image the cartridge was built from.
    pub open spec fn prg_image(&self) -> Seq<u8> {
        match self {
            Mapper::Nrom(m) => m.prg_rom@,
            Mapper::Mmc1(m) => m.prg_rom.bytes(),
            Mapper::Uxrom(m) => m.prg_rom.bytes(),
            Mapper::Cnrom(m) => m.prg_rom.bytes(),
            Mapper::Mmc3(m) => m.prg_rom.bytes(),
        }
    }

    pub open spec fn mirroring_spec(&self) -> Mirroring {
        match self {
            Mapper::Nrom(m) => m.mirroring,
            Mapper::Mmc1(m) => m.mirroring,
            Mapper::Uxrom(m) => m.mirroring,
            Mapper::Cnrom(m) => m.mirroring,
            Mapper::Mmc3(m) => m.mirroring,
        }
    }

    /// What a read of `addr` returns.
    pub open spec fn read_spec(&self, addr: u16) -> u8 {
        match self {
            Mapper::Nrom(m) => m.read_spec(addr),
            Mapper::Mmc1(m) => m.read_spec(addr),
            Mapper::Uxrom(m) => m.read_spec(addr),
            Mapper::Cnrom(m) => m.read_spec(addr),
            Mapper::Mmc3(m) => m.read_spec(addr),
        }
    }

    /// The CHR image the cartridge holds (ROM, or RAM when it has none).
    pub open spec fn chr_image(&self) -> Seq<u8> {
        match self {
            Mapper::Nrom(m) => m.chr(),
            Mapper::Mmc1(m) => m.chr.bytes(),
            Mapper::Uxrom(m) => m.chr.bytes(),
            Mapper::Cnrom(m) => m.chr.bytes(),
            Mapper::Mmc3(m) => m.chr.bytes(),
        }
    }

    /// What a write of `val` at `addr` leaves: the variant's own write.
    pub open spec fn write_post(&self, f: &Mapper, addr: u16, val: u8) -> bool {
        match self {
            Mapper::Nrom(m) => f is Nrom && m.write_post(&f->Nrom_0, addr, val),
            Mapper::Mmc1(m) => f is Mmc1 && m.write_post(&f->Mmc1_0, addr, val),
            Mapper::Uxrom(m) => f is Uxrom && m.write_post(&f->Uxrom_0, addr, val),
            Mapper::Cnrom(m) => f is Cnrom && m.write_post(&f->Cnrom_0, addr, val),
            Mapper::Mmc3(m) => f is Mmc3 && m.write_post(&f->Mmc3_0, addr, val),
        }
    }

    pub open spec fn irq_spec(&self) -> bool {
        match self {
            Mapper::Mmc3(m) => m.irq.pending,
            _ => false,
        }
    }

    pub fn read(&self, addr: u16) -> (r: u8)
        requires
            self.wf(),
        ensures
            r == self.read_spec(addr),
    {
        match self {
            Mapper::Nrom(m) => m.read(addr),
            Mapper::Mmc1(m) => m.read(addr),
            Mapper::Uxrom(m) => m.read(addr),
            Mapper::Cnrom(m) => m.read(addr),
            Mapper::Mmc3(m) => m.read(addr),
        }
    }

    pub fn write(&mut self, addr: u16, val: u8)
        requires
            old(self).wf(),
        ensures
            final(self).wf(),
            old(self).write_post(final(self), addr, val),
            final(self).number() == old(self).number(),
    {
        match self {
            Mapper::Nrom(m) => m.write(addr, val),
            Mapper::Mmc1(m) => m.write(addr, val),
            Mapper::Uxrom(m) => m.write(addr, val),
            Mapper::Cnrom(m) => m.write(addr, val),
            Mapper::Mmc3(m) => m.write(addr, val),
        }
    }

    pub fn mirroring(&self) -> (r: Mirroring)
        ensures
            r == self.mirroring_spec(),
    {
        match self {
            Mapper::Nrom(m) => m.mirroring(),
            Mapper::Mmc1(m) => m.mirroring(),
            Mapper::Uxrom(m) => m.mirroring(),
            Mapper::Cnrom(m) => m.mirroring(),
            Mapper::Mmc3(m) => m.mirroring(),
        }
    }

    /// Passes a PPU event on; only MMC3 listens.
    pub fn notify(&mut self, event: MapperEvent)
        requires
            old(self).wf(),
        ensures
            final(self).wf(),
            final(self).number() == old(self).number(),
            final(self).mirroring_spec() == old(self).mirroring_spec(),
            old(self).number() != 4 ==> *final(self) == *old(self),
            forall|a: u16| final(self).read_spec(a) == old(self).read_spec(a),
    {
        match self {
            Mapper::Mmc3(m) => m.notify(event),
            _ => {},
        }
    }

    /// Whether the cartridge asserts IRQ.
    pub fn poll(&self) -> (r: bool)
        ensures
            r == self.irq_spec(),
    {
        match self {
            Mapper::Mmc3(m) => m.poll(),
            _ => false,
        }
    }
}

} // verus!
