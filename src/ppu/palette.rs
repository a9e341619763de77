use vstd::prelude::*;

verus! {

/// An RGB triple.
#[derive(Clone, Copy, PartialEq, Eq, Structural, Debug)]
pub struct Color(pub u8, pub u8, pub u8);

/// The 64-entry system palette that six-bit color indices select from.
pub open spec fn system_palette(index: u8) -> Color {
    match index {
        0 => Color(0x66, 0x66, 0x66),
        1 => Color(0x00, 0x2A, 0x88),
        2 => Color(0x14, 0x12, 0xA7),
        3 => Color(0x3B, 0x00, 0xA4),
        4 => Color(0x5C, 0x00, 0x7E),
        5 => Color(0x6E, 0x00, 0x40),
        6 => Color(0x6C, 0x06, 0x00),
        7 => Color(0x56, 0x1D, 0x00),
        8 => Color(0x33, 0x35, 0x00),
        9 => Color(0x0B, 0x48, 0x00),
        10 => Color(0x00, 0x52, 0x00),
        11 => Color(0x00, 0x4F, 0x08),
        12 => Color(0x00, 0x40, 0x4D),
        13 => Color(0x00, 0x00, 0x00),
        14 => Color(0x00, 0x00, 0x00),
        15 => Color(0x00, 0x00, 0x00),
        16 => Color(0xAD, 0xAD, 0xAD),
        17 => Color(0x15, 0x5F, 0xD9),
        18 => Color(0x42, 0x40, 0xFF),
        19 => Color(0x75, 0x27, 0xFE),
        20 => Color(0xA0, 0x1A, 0xCC),
        21 => Color(0xB7, 0x1E, 0x7B),
        22 => Color(0xB5, 0x31, 0x20),
        23 => Color(0x99, 0x4E, 0x00),
        24 => Color(0x6B, 0x6D, 0x00),
        25 => Color(0x38, 0x87, 0x00),
        26 => Color(0x0C, 0x93, 0x00),
        27 => Color(0x00, 0x8F, 0x32),
        28 => Color(0x00, 0x7C, 0x8D),
        29 => Color(0x00, 0x00, 0x00),
        30 => Color(0x00, 0x00, 0x00),
        31 => Color(0x00, 0x00, 0x00),
        32 => Color(0xFF, 0xFE, 0xFF),
        33 => Color(0x64, 0xB0, 0xFF),
        34 => Color(0x92, 0x90, 0xFF),
        35 => Color(0xC6, 0x76, 0xFF),
        36 => Color(0xF3, 0x6A, 0xFF),
        37 => Color(0xFE, 0x6E, 0xCC),
        38 => Color(0xFE, 0x81, 0x70),
        39 => Color(0xEA, 0x9E, 0x22),
        40 => Color(0xBC, 0xBE, 0x00),
        41 => Color(0x88, 0xD8, 0x00),
        42 => Color(0x5C, 0xE4, 0x30),
        43 => Color(0x45, 0xE0, 0x82),
        44 => Color(0x48, 0xCD, 0xDE),
        45 => Color(0x4F, 0x4F, 0x4F),
        46 => Color(0x00, 0x00, 0x00),
        47 => Color(0x00, 0x00, 0x00),
        48 => Color(0xFF, 0xFE, 0xFF),
        49 => Color(0xC0, 0xDF, 0xFF),
        50 => Color(0xD3, 0xD2, 0xFF),
        51 => Color(0xE8, 0xC8, 0xFF),
        52 => Color(0xFB, 0xC2, 0xFF),
        53 => Color(0xFE, 0xC4, 0xEA),
        54 => Color(0xFE, 0xCC, 0xC5),
        55 => Color(0xF7, 0xD8, 0xA5),
        56 => Color(0xE4, 0xE5, 0x94),
        57 => Color(0xCF, 0xEF, 0x96),
        58 => Color(0xBD, 0xF4, 0xAB),
        59 => Color(0xB3, 0xF3, 0xCC),
        60 => Color(0xB5, 0xEB, 0xF2),
        61 => Color(0xB8, 0xB8, 0xB8),
        62 => Color(0x00, 0x00, 0x00),
        _ => Color(0x00, 0x00, 0x00),
    }
}

pub fn system_color(index: u8) -> (r: Color)
    requires
        index < 64,
    ensures
        r == system_palette(index),
{
    match index {
        0 => Color(0x66, 0x66, 0x66),
        1 => Color(0x00, 0x2A, 0x88),
        2 => Color(0x14, 0x12, 0xA7),
        3 => Color(0x3B, 0x00, 0xA4),
        4 => Color(0x5C, 0x00, 0x7E),
        5 => Color(0x6E, 0x00, 0x40),
        6 => Color(0x6C, 0x06, 0x00),
        7 => Color(0x56, 0x1D, 0x00),
        8 => Color(0x33, 0x35, 0x00),
        9 => Color(0x0B, 0x48, 0x00),
        10 => Color(0x00, 0x52, 0x00),
        11 => Color(0x00, 0x4F, 0x08),
        12 => Color(0x00, 0x40, 0x4D),
        13 => Color(0x00, 0x00, 0x00),
        14 => Color(0x00, 0x00, 0x00),
        15 => Color(0x00, 0x00, 0x00),
        16 => Color(0xAD, 0xAD, 0xAD),
        17 => Color(0x15, 0x5F, 0xD9),
        18 => Color(0x42, 0x40, 0xFF),
        19 => Color(0x75, 0x27, 0xFE),
        20 => Color(0xA0, 0x1A, 0xCC),
        21 => Color(0xB7, 0x1E, 0x7B),
        22 => Color(0xB5, 0x31, 0x20),
        23 => Color(0x99, 0x4E, 0x00),
        24 => Color(0x6B, 0x6D, 0x00),
        25 => Color(0x38, 0x87, 0x00),
        26 => Color(0x0C, 0x93, 0x00),
        27 => Color(0x00, 0x8F, 0x32),
        28 => Color(0x00, 0x7C, 0x8D),
        29 => Color(0x00, 0x00, 0x00),
        30 => Color(0x00, 0x00, 0x00),
        31 => Color(0x00, 0x00, 0x00),
        32 => Color(0xFF, 0xFE, 0xFF),
        33 => Color(0x64, 0xB0, 0xFF),
        34 => Color(0x92, 0x90, 0xFF),
        35 => Color(0xC6, 0x76, 0xFF),
        36 => Color(0xF3, 0x6A, 0xFF),
        37 => Color(0xFE, 0x6E, 0xCC),
        38 => Color(0xFE, 0x81, 0x70),
        39 => Color(0xEA, 0x9E, 0x22),
        40 => Color(0xBC, 0xBE, 0x00),
        41 => Color(0x88, 0xD8, 0x00),
        42 => Color(0x5C, 0xE4, 0x30),
        43 => Color(0x45, 0xE0, 0x82),
        44 => Color(0x48, 0xCD, 0xDE),
        45 => Color(0x4F, 0x4F, 0x4F),
        46 => Color(0x00, 0x00, 0x00),
        47 => Color(0x00, 0x00, 0x00),
        48 => Color(0xFF, 0xFE, 0xFF),
        49 => Color(0xC0, 0xDF, 0xFF),
        50 => Color(0xD3, 0xD2, 0xFF),
        51 => Color(0xE8, 0xC8, 0xFF),
        52 => Color(0xFB, 0xC2, 0xFF),
        53 => Color(0xFE, 0xC4, 0xEA),
        54 => Color(0xFE, 0xCC, 0xC5),
        55 => Color(0xF7, 0xD8, 0xA5),
        56 => Color(0xE4, 0xE5, 0x94),
        57 => Color(0xCF, 0xEF, 0x96),
        58 => Color(0xBD, 0xF4, 0xAB),
        59 => Color(0xB3, 0xF3, 0xCC),
        60 => Color(0xB5, 0xEB, 0xF2),
        61 => Color(0xB8, 0xB8, 0xB8),
        62 => Color(0x00, 0x00, 0x00),
        _ => Color(0x00, 0x00, 0x00),
    }
}

} // verus!
