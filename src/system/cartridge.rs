use vstd::prelude::*;
use crate::mapper::{Mapper, Mirroring, from};

verus! {

/// Why a ROM image cannot be loaded.
#[derive(Clone, Copy, PartialEq, Eq, Structural, Debug)]
pub enum LoadError {
    /// The first four bytes are not "NES" and 0x1A.
    NotINes,
    /// The header announces the NES 2.0 layout.
    Nes2Unsupported,
    /// The image is shorter than its header says.
    Truncated,
    /// The header asks for no PRG ROM.
    NoProgram,
    /// A mapper number outside 0..=4.
    UnsupportedMapper(u8),
}

impl LoadError {
    /// A message for the host to show.
    pub fn message(&self) -> (r: String) {
        match self {
            LoadError::NotINes => String::from_str("File not in iNES format."),
            LoadError::Nes2Unsupported => String::from_str("NES 2.0 format not supported."),
            LoadError::Truncated => String::from_str("ROM image is truncated."),
            LoadError::NoProgram => String::from_str("ROM image holds no program."),
            LoadError::UnsupportedMapper(n) => {
                let mut m = String::from_str("Unsupported mapper: ");
                let d = digits(*n);
                m.append(d.as_str());
                m
            },
        }
    }
}

/// The decimal digit `d` (0..9).
fn digit(d: u8) -> (r: &'static str) {
    match d {
        0 => "0",
        1 => "1",
        2 => "2",
        3 => "3",
        4 => "4",
        5 => "5",
        6 => "6",
        7 => "7",
        8 => "8",
        _ => "9",
    }
}

/// Decimal digits of `n`.
fn digits(n: u8) -> (r: String) {
    let d0 = n / 100;
    let d1 = (n / 10) % 10;
    let d2 = n % 10;
    let mut s = String::new();
    if d0 > 0 {
        s.append(digit(d0));
    }
    if d0 > 0 || d1 > 0 {
        s.append(digit(d1));
    }
    s.append(digit(d2));
    s
}

/// A loaded cartridge.
pub struct Cartridge {
    pub mapper: Mapper,
}

/// The iNES header fields of an image.
pub open spec fn prg_len(rom: Seq<u8>) -> int {
    rom[4] as int * 0x4000
}

pub open spec fn chr_len(rom: Seq<u8>) -> int {
    rom[5] as int * 0x2000
}

pub open spec fn trainer_len(rom: Seq<u8>) -> int {
    if rom[6] & 0x04 != 0 { 512 } else { 0 }
}

pub open spec fn mapper_number(rom: Seq<u8>) -> u8 {
    (rom[7] & 0xF0) | (rom[6] >> 4)
}

pub open spec fn header_mirroring(rom: Seq<u8>) -> Mirroring {
    if rom[6] & 0x08 != 0 {
        Mirroring::FourScreen
    } else if rom[6] & 0x01 != 0 {
        Mirroring::Vertical
    } else {
        Mirroring::Horizontal
    }
}

/// The error, if any, that loading `rom` gives, in the order checked.
pub open spec fn load_error(rom: Seq<u8>) -> Option<LoadError> {
    if rom.len() < 16 || rom[0] != 0x4E || rom[1] != 0x45 || rom[2] != 0x53 || rom[3] != 0x1A {
        Some(LoadError::NotINes)
    } else if rom[7] & 0x0C == 0x08 {
        Some(LoadError::Nes2Unsupported)
    } else if rom.len() < 16 + trainer_len(rom) + prg_len(rom) + chr_len(rom) {
        Some(LoadError::Truncated)
    } else if rom[4] == 0 {
        Some(LoadError::NoProgram)
    } else if mapper_number(rom) > 4 {
        Some(LoadError::UnsupportedMapper(mapper_number(rom)))
    } else {
        None
    }
}

/// `len` bytes of `rom` from `start` on.
fn copy_range(rom: &Vec<u8>, start: usize, len: usize) -> (r: Vec<u8>)
    requires
        start + len <= rom@.len(),
    ensures
        r@ == rom@.subrange(start as int, start + len),
{
    let n = rom.len();
    let mut out: Vec<u8> = Vec::new();
    let mut i: usize = 0;
    while i < len
        invariant
            n == rom@.len(),
            i <= len,
            start + len <= rom@.len(),
            out@ == rom@.subrange(start as int, start + i),
        decreases len - i,
    {
        out.push(rom[start + i]);
        i = i + 1;
        proof {
            assert(out@ =~= rom@.subrange(start as int, start + i));
        }
    }
    out
}

impl Cartridge {
    /// Parses an iNES image: header, optional trainer, PRG ROM, CHR ROM.
    pub fn new(rom: Vec<u8>) -> (r: Result<Cartridge, LoadError>)
        ensures
            load_error(rom@) is Some <==> r is Err,
            r is Err ==> r->Err_0 == load_error(rom@)->0,
            r is Ok ==> {
                let m = r->Ok_0.mapper;
                &&& m.wf()
                &&& m.number() == mapper_number(rom@)
                &&& m.number() != 1 ==> m.mirroring_spec() == header_mirroring(rom@)
                &&& m.prg_image() == rom@.subrange(16 + trainer_len(rom@), 16 + trainer_len(rom@) + prg_len(rom@))
                &&& chr_len(rom@) > 0 ==> m.chr_image() == rom@.subrange(16 + trainer_len(rom@) + prg_len(rom@),
                    16 + trainer_len(rom@) + prg_len(rom@) + chr_len(rom@))
            },
    {
        if rom.len() < 16 || rom[0] != 0x4E || rom[1] != 0x45 || rom[2] != 0x53 || rom[3] != 0x1A {
            return Err(LoadError::NotINes);
        }
        let flags_6 = rom[6];
        let flags_7 = rom[7];
        if flags_7 & 0x0C == 0x08 {
            return Err(LoadError::Nes2Unsupported);
        }
        let trainer: usize = if flags_6 & 0x04 != 0 { 512 } else { 0 };
        let prg_bytes: usize = rom[4] as usize * 0x4000;
        let chr_bytes: usize = rom[5] as usize * 0x2000;
        let prg_start = 16 + trainer;
        let chr_start = prg_start + prg_bytes;
        if rom.len() < chr_start + chr_bytes {
            return Err(LoadError::Truncated);
        }
        if rom[4] == 0 {
            return Err(LoadError::NoProgram);
        }
        let number = (flags_7 & 0xF0) | (flags_6 >> 4);
        if number > 4 {
            return Err(LoadError::UnsupportedMapper(number));
        }
        let mirroring = if flags_6 & 0x08 != 0 {
            Mirroring::FourScreen
        } else if flags_6 & 0x01 != 0 {
            Mirroring::Vertical
        } else {
            Mirroring::Horizontal
        };
        let chr = copy_range(&rom, chr_start, chr_bytes);
        let prg = copy_range(&rom, prg_start, prg_bytes);
        match from(number, chr, prg, mirroring) {
            Some(mapper) => Ok(Cartridge { mapper }),
            None => Err(LoadError::UnsupportedMapper(number)),
        }
    }
}

} // verus!
