use vstd::prelude::*;

verus! {

/// An interrupt sequence: where its vector lies, the B bits pushed with P
/// (bit 4 set only for BRK), and the cycles it takes.
#[derive(Clone, Copy, PartialEq, Eq, Structural, Debug)]
pub struct Interrupt {
    pub read_address: u16,
    pub mask: u8,
    pub cycles: u8,
}

impl Interrupt {
    pub fn nmi() -> (r: Interrupt)
        ensures
            r == (Interrupt { read_address: 0xFFFA, mask: 0x20, cycles: 7 }),
    {
        Interrupt { read_address: 0xFFFA, mask: 0x20, cycles: 7 }
    }

    /// BRK's own seven cycles are counted by the instruction table.
    pub fn brk() -> (r: Interrupt)
        ensures
            r == (Interrupt { read_address: 0xFFFE, mask: 0x30, cycles: 0 }),
    {
        Interrupt { read_address: 0xFFFE, mask: 0x30, cycles: 0 }
    }

    pub fn irq() -> (r: Interrupt)
        ensures
            r == (Interrupt { read_address: 0xFFFE, mask: 0x20, cycles: 7 }),
    {
        Interrupt { read_address: 0xFFFE, mask: 0x20, cycles: 7 }
    }
}

} // verus!
