use vstd::prelude::*;

verus! {

#[derive(Clone, Copy, PartialEq, Eq, Structural, Debug)]
pub enum Addressing {
    Accumulator,
    Absolute,
    AbsoluteX,
    AbsoluteY,
    Immediate,
    Implied,
    Indirect,
    IndirectX,
    IndirectY,
    Relative,
    ZeroPage,
    ZeroPageX,
    ZeroPageY,
}

/// Instruction kinds: the official set, then the undocumented ones (X...).
#[derive(Clone, Copy, PartialEq, Eq, Structural, Debug)]
pub enum OpCode {
    ADC, AND, ASL, BCC, BCS, BEQ, BIT, BMI, BNE, BPL,
    BRK, BVC, BVS, CLC, CLD, CLI, CLV, CMP, CPX, CPY,
    DEC, DEX, DEY, EOR, INC, INX, INY, JAM, JMP, JSR,
    LDA, LDX, LDY, LSR, NOP, ORA, PHA, PHP, PLA, PLP,
    ROL, ROR, RTI, RTS, SBC, SEC, SED, SEI, STA, STX,
    STY, TAX, TAY, TSX, TXA, TXS, TYA,
    XALR, XANC, XANE, XARR, XDCP, XISC, XLAS,
    XLAX, XLXA, XNOP, XRLA, XRRA, XSAX, XSBC,
    XSBX, XSHA, XSHX, XSHY, XSLO, XSRE, XTAS,
}

/// An effective address, the mode that produced it, and whether indexing
/// crossed a page.
#[derive(Clone, Copy, PartialEq, Eq, Structural, Debug)]
pub struct OperandAddress(pub u16, pub Addressing, pub bool);

/// An operand address and the byte read there (if the instruction reads).
#[derive(Clone, Copy, PartialEq, Eq, Structural, Debug)]
pub struct Operand(pub OperandAddress, pub u8);

/// Decoded form of an opcode byte: addressing mode, kind, base cycles and
/// the extra cycle taken when indexing crosses a page.
#[derive(Clone, Copy, PartialEq, Eq, Structural, Debug)]
pub struct Instruction {
    pub mode: Addressing,
    pub opcode: OpCode,
    pub cycles: u8,
    pub extra: u8,
}

/// The decode table.
#[verifier::opaque]
pub open spec fn decode(code: u8) -> Instruction {
    match code {
        0x00 => Instruction { mode: Addressing::Implied, opcode: OpCode::BRK, cycles: 7, extra: 0 },
        0x01 => Instruction { mode: Addressing::IndirectX, opcode: OpCode::ORA, cycles: 6, extra: 0 },
        0x02 => Instruction { mode: Addressing::Implied, opcode: OpCode::JAM, cycles: 2, extra: 0 },
        0x03 => Instruction { mode: Addressing::IndirectX, opcode: OpCode::XSLO, cycles: 8, extra: 0 },
        0x04 => Instruction { mode: Addressing::ZeroPage, opcode: OpCode::XNOP, cycles: 3, extra: 0 },
        0x05 => Instruction { mode: Addressing::ZeroPage, opcode: OpCode::ORA, cycles: 3, extra: 0 },
        0x06 => Instruction { mode: Addressing::ZeroPage, opcode: OpCode::ASL, cycles: 5, extra: 0 },
        0x07 => Instruction { mode: Addressing::ZeroPage, opcode: OpCode::XSLO, cycles: 5, extra: 0 },
        0x08 => Instruction { mode: Addressing::Implied, opcode: OpCode::PHP, cycles: 3, extra: 0 },
        0x09 => Instruction { mode: Addressing::Immediate, opcode: OpCode::ORA, cycles: 2, extra: 0 },
        0x0A => Instruction { mode: Addressing::Accumulator, opcode: OpCode::ASL, cycles: 2, extra: 0 },
        0x0B => Instruction { mode: Addressing::Immediate, opcode: OpCode::XANC, cycles: 2, extra: 0 },
        0x0C => Instruction { mode: Addressing::Absolute, opcode: OpCode::XNOP, cycles: 4, extra: 0 },
        0x0D => Instruction { mode: Addressing::Absolute, opcode: OpCode::ORA, cycles: 4, extra: 0 },
        0x0E => Instruction { mode: Addressing::Absolute, opcode: OpCode::ASL, cycles: 6, extra: 0 },
        0x0F => Instruction { mode: Addressing::Absolute, opcode: OpCode::XSLO, cycles: 6, extra: 0 },
        0x10 => Instruction { mode: Addressing::Relative, opcode: OpCode::BPL, cycles: 2, extra: 1 },
        0x11 => Instruction { mode: Addressing::IndirectY, opcode: OpCode::ORA, cycles: 5, extra: 1 },
        0x12 => Instruction { mode: Addressing::Implied, opcode: OpCode::JAM, cycles: 2, extra: 0 },
        0x13 => Instruction { mode: Addressing::IndirectY, opcode: OpCode::XSLO, cycles: 8, extra: 0 },
        0x14 => Instruction { mode: Addressing::ZeroPageX, opcode: OpCode::XNOP, cycles: 4, extra: 0 },
        0x15 => Instruction { mode: Addressing::ZeroPageX, opcode: OpCode::ORA, cycles: 4, extra: 0 },
        0x16 => Instruction { mode: Addressing::ZeroPageX, opcode: OpCode::ASL, cycles: 6, extra: 0 },
        0x17 => Instruction { mode: Addressing::ZeroPageX, opcode: OpCode::XSLO, cycles: 6, extra: 0 },
        0x18 => Instruction { mode: Addressing::Implied, opcode: OpCode::CLC, cycles: 2, extra: 0 },
        0x19 => Instruction { mode: Addressing::AbsoluteY, opcode: OpCode::ORA, cycles: 4, extra: 1 },
        0x1A => Instruction { mode: Addressing::Implied, opcode: OpCode::XNOP, cycles: 2, extra: 0 },
        0x1B => Instruction { mode: Addressing::AbsoluteY, opcode: OpCode::XSLO, cycles: 7, extra: 0 },
        0x1C => Instruction { mode: Addressing::AbsoluteX, opcode: OpCode::XNOP, cycles: 4, extra: 1 },
        0x1D => Instruction { mode: Addressing::AbsoluteX, opcode: OpCode::ORA, cycles: 4, extra: 1 },
        0x1E => Instruction { mode: Addressing::AbsoluteX, opcode: OpCode::ASL, cycles: 7, extra: 0 },
        0x1F => Instruction { mode: Addressing::AbsoluteX, opcode: OpCode::XSLO, cycles: 7, extra: 0 },
        0x20 => Instruction { mode: Addressing::Absolute, opcode: OpCode::JSR, cycles: 6, extra: 0 },
        0x21 => Instruction { mode: Addressing::IndirectX, opcode: OpCode::AND, cycles: 6, extra: 0 },
        0x22 => Instruction { mode: Addressing::Implied, opcode: OpCode::JAM, cycles: 2, extra: 0 },
        0x23 => Instruction { mode: Addressing::IndirectX, opcode: OpCode::XRLA, cycles: 8, extra: 0 },
        0x24 => Instruction { mode: Addressing::ZeroPage, opcode: OpCode::BIT, cycles: 3, extra: 0 },
        0x25 => Instruction { mode: Addressing::ZeroPage, opcode: OpCode::AND, cycles: 3, extra: 0 },
        0x26 => Instruction { mode: Addressing::ZeroPage, opcode: OpCode::ROL, cycles: 5, extra: 0 },
        0x27 => Instruction { mode: Addressing::ZeroPage, opcode: OpCode::XRLA, cycles: 5, extra: 0 },
        0x28 => Instruction { mode: Addressing::Implied, opcode: OpCode::PLP, cycles: 4, extra: 0 },
        0x29 => Instruction { mode: Addressing::Immediate, opcode: OpCode::AND, cycles: 2, extra: 0 },
        0x2A => Instruction { mode: Addressing::Accumulator, opcode: OpCode::ROL, cycles: 2, extra: 0 },
        0x2B => Instruction { mode: Addressing::Immediate, opcode: OpCode::XANC, cycles: 2, extra: 0 },
        0x2C => Instruction { mode: Addressing::Absolute, opcode: OpCode::BIT, cycles: 4, extra: 0 },
        0x2D => Instruction { mode: Addressing::Absolute, opcode: OpCode::AND, cycles: 4, extra: 0 },
        0x2E => Instruction { mode: Addressing::Absolute, opcode: OpCode::ROL, cycles: 6, extra: 0 },
        0x2F => Instruction { mode: Addressing::Absolute, opcode: OpCode::XRLA, cycles: 6, extra: 0 },
        0x30 => Instruction { mode: Addressing::Relative, opcode: OpCode::BMI, cycles: 2, extra: 1 },
        0x31 => Instruction { mode: Addressing::IndirectY, opcode: OpCode::AND, cycles: 5, extra: 1 },
        0x32 => Instruction { mode: Addressing::Implied, opcode: OpCode::JAM, cycles: 2, extra: 0 },
        0x33 => Instruction { mode: Addressing::IndirectY, opcode: OpCode::XRLA, cycles: 8, extra: 0 },
        0x34 => Instruction { mode: Addressing::ZeroPageX, opcode: OpCode::XNOP, cycles: 4, extra: 0 },
        0x35 => Instruction { mode: Addressing::ZeroPageX, opcode: OpCode::AND, cycles: 4, extra: 0 },
        0x36 => Instruction { mode: Addressing::ZeroPageX, opcode: OpCode::ROL, cycles: 6, extra: 0 },
        0x37 => Instruction { mode: Addressing::ZeroPageX, opcode: OpCode::XRLA, cycles: 6, extra: 0 },
        0x38 => Instruction { mode: Addressing::Implied, opcode: OpCode::SEC, cycles: 2, extra: 0 },
        0x39 => Instruction { mode: Addressing::AbsoluteY, opcode: OpCode::AND, cycles: 4, extra: 1 },
        0x3A => Instruction { mode: Addressing::Implied, opcode: OpCode::XNOP, cycles: 2, extra: 0 },
        0x3B => Instruction { mode: Addressing::AbsoluteY, opcode: OpCode::XRLA, cycles: 7, extra: 0 },
        0x3C => Instruction { mode: Addressing::AbsoluteX, opcode: OpCode::XNOP, cycles: 4, extra: 1 },
        0x3D => Instruction { mode: Addressing::AbsoluteX, opcode: OpCode::AND, cycles: 4, extra: 1 },
        0x3E => Instruction { mode: Addressing::AbsoluteX, opcode: OpCode::ROL, cycles: 7, extra: 0 },
        0x3F => Instruction { mode: Addressing::AbsoluteX, opcode: OpCode::XRLA, cycles: 7, extra: 0 },
        0x40 => Instruction { mode: Addressing::Implied, opcode: OpCode::RTI, cycles: 6, extra: 0 },
        0x41 => Instruction { mode: Addressing::IndirectX, opcode: OpCode::EOR, cycles: 6, extra: 0 },
        0x42 => Instruction { mode: Addressing::Implied, opcode: OpCode::JAM, cycles: 2, extra: 0 },
        0x43 => Instruction { mode: Addressing::IndirectX, opcode: OpCode::XSRE, cycles: 8, extra: 0 },
        0x44 => Instruction { mode: Addressing::ZeroPage, opcode: OpCode::XNOP, cycles: 3, extra: 0 },
        0x45 => Instruction { mode: Addressing::ZeroPage, opcode: OpCode::EOR, cycles: 3, extra: 0 },
        0x46 => Instruction { mode: Addressing::ZeroPage, opcode: OpCode::LSR, cycles: 5, extra: 0 },
        0x47 => Instruction { mode: Addressing::ZeroPage, opcode: OpCode::XSRE, cycles: 5, extra: 0 },
        0x48 => Instruction { mode: Addressing::Implied, opcode: OpCode::PHA, cycles: 3, extra: 0 },
        0x49 => Instruction { mode: Addressing::Immediate, opcode: OpCode::EOR, cycles: 2, extra: 0 },
        0x4A => Instruction { mode: Addressing::Accumulator, opcode: OpCode::LSR, cycles: 2, extra: 0 },
        0x4B => Instruction { mode: Addressing::Immediate, opcode: OpCode::XALR, cycles: 2, extra: 0 },
        0x4C => Instruction { mode: Addressing::Absolute, opcode: OpCode::JMP, cycles: 3, extra: 0 },
        0x4D => Instruction { mode: Addressing::Absolute, opcode: OpCode::EOR, cycles: 4, extra: 0 },
        0x4E => Instruction { mode: Addressing::Absolute, opcode: OpCode::LSR, cycles: 6, extra: 0 },
        0x4F => Instruction { mode: Addressing::Absolute, opcode: OpCode::XSRE, cycles: 6, extra: 0 },
        0x50 => Instruction { mode: Addressing::Relative, opcode: OpCode::BVC, cycles: 2, extra: 1 },
        0x51 => Instruction { mode: Addressing::IndirectY, opcode: OpCode::EOR, cycles: 5, extra: 1 },
        0x52 => Instruction { mode: Addressing::Implied, opcode: OpCode::JAM, cycles: 2, extra: 0 },
        0x53 => Instruction { mode: Addressing::IndirectY, opcode: OpCode::XSRE, cycles: 8, extra: 0 },
        0x54 => Instruction { mode: Addressing::ZeroPageX, opcode: OpCode::XNOP, cycles: 4, extra: 0 },
        0x55 => Instruction { mode: Addressing::ZeroPageX, opcode: OpCode::EOR, cycles: 4, extra: 0 },
        0x56 => Instruction { mode: Addressing::ZeroPageX, opcode: OpCode::LSR, cycles: 6, extra: 0 },
        0x57 => Instruction { mode: Addressing::ZeroPageX, opcode: OpCode::XSRE, cycles: 6, extra: 0 },
        0x58 => Instruction { mode: Addressing::Implied, opcode: OpCode::CLI, cycles: 2, extra: 0 },
        0x59 => Instruction { mode: Addressing::AbsoluteY, opcode: OpCode::EOR, cycles: 4, extra: 1 },
        0x5A => Instruction { mode: Addressing::Implied, opcode: OpCode::XNOP, cycles: 2, extra: 0 },
        0x5B => Instruction { mode: Addressing::AbsoluteY, opcode: OpCode::XSRE, cycles: 7, extra: 0 },
        0x5C => Instruction { mode: Addressing::AbsoluteX, opcode: OpCode::XNOP, cycles: 4, extra: 1 },
        0x5D => Instruction { mode: Addressing::AbsoluteX, opcode: OpCode::EOR, cycles: 4, extra: 1 },
        0x5E => Instruction { mode: Addressing::AbsoluteX, opcode: OpCode::LSR, cycles: 7, extra: 0 },
        0x5F => Instruction { mode: Addressing::AbsoluteX, opcode: OpCode::XSRE, cycles: 7, extra: 0 },
        0x60 => Instruction { mode: Addressing::Implied, opcode: OpCode::RTS, cycles: 6, extra: 0 },
        0x61 => Instruction { mode: Addressing::IndirectX, opcode: OpCode::ADC, cycles: 6, extra: 0 },
        0x62 => Instruction { mode: Addressing::Implied, opcode: OpCode::JAM, cycles: 2, extra: 0 },
        0x63 => Instruction { mode: Addressing::IndirectX, opcode: OpCode::XRRA, cycles: 8, extra: 0 },
        0x64 => Instruction { mode: Addressing::ZeroPage, opcode: OpCode::XNOP, cycles: 3, extra: 0 },
        0x65 => Instruction { mode: Addressing::ZeroPage, opcode: OpCode::ADC, cycles: 3, extra: 0 },
        0x66 => Instruction { mode: Addressing::ZeroPage, opcode: OpCode::ROR, cycles: 5, extra: 0 },
        0x67 => Instruction { mode: Addressing::ZeroPage, opcode: OpCode::XRRA, cycles: 5, extra: 0 },
        0x68 => Instruction { mode: Addressing::Implied, opcode: OpCode::PLA, cycles: 4, extra: 0 },
        0x69 => Instruction { mode: Addressing::Immediate, opcode: OpCode::ADC, cycles: 2, extra: 0 },
        0x6A => Instruction { mode: Addressing::Accumulator, opcode: OpCode::ROR, cycles: 2, extra: 0 },
        0x6B => Instruction { mode: Addressing::Immediate, opcode: OpCode::XARR, cycles: 2, extra: 0 },
        0x6C => Instruction { mode: Addressing::Indirect, opcode: OpCode::JMP, cycles: 5, extra: 0 },
        0x6D => Instruction { mode: Addressing::Absolute, opcode: OpCode::ADC, cycles: 4, extra: 0 },
        0x6E => Instruction { mode: Addressing::Absolute, opcode: OpCode::ROR, cycles: 6, extra: 0 },
        0x6F => Instruction { mode: Addressing::Absolute, opcode: OpCode::XRRA, cycles: 6, extra: 0 },
        0x70 => Instruction { mode: Addressing::Relative, opcode: OpCode::BVS, cycles: 2, extra: 1 },
        0x71 => Instruction { mode: Addressing::IndirectY, opcode: OpCode::ADC, cycles: 5, extra: 1 },
        0x72 => Instruction { mode: Addressing::Implied, opcode: OpCode::JAM, cycles: 2, extra: 0 },
        0x73 => Instruction { mode: Addressing::IndirectY, opcode: OpCode::XRRA, cycles: 8, extra: 0 },
        0x74 => Instruction { mode: Addressing::ZeroPageX, opcode: OpCode::XNOP, cycles: 4, extra: 0 },
        0x75 => Instruction { mode: Addressing::ZeroPageX, opcode: OpCode::ADC, cycles: 4, extra: 0 },
        0x76 => Instruction { mode: Addressing::ZeroPageX, opcode: OpCode::ROR, cycles: 6, extra: 0 },
        0x77 => Instruction { mode: Addressing::ZeroPageX, opcode: OpCode::XRRA, cycles: 6, extra: 0 },
        0x78 => Instruction { mode: Addressing::Implied, opcode: OpCode::SEI, cycles: 2, extra: 0 },
        0x79 => Instruction { mode: Addressing::AbsoluteY, opcode: OpCode::ADC, cycles: 4, extra: 1 },
        0x7A => Instruction { mode: Addressing::Implied, opcode: OpCode::XNOP, cycles: 2, extra: 0 },
        0x7B => Instruction { mode: Addressing::AbsoluteY, opcode: OpCode::XRRA, cycles: 7, extra: 0 },
        0x7C => Instruction { mode: Addressing::AbsoluteX, opcode: OpCode::XNOP, cycles: 4, extra: 1 },
        0x7D => Instruction { mode: Addressing::AbsoluteX, opcode: OpCode::ADC, cycles: 4, extra: 1 },
        0x7E => Instruction { mode: Addressing::AbsoluteX, opcode: OpCode::ROR, cycles: 7, extra: 0 },
        0x7F => Instruction { mode: Addressing::AbsoluteX, opcode: OpCode::XRRA, cycles: 7, extra: 0 },
        0x80 => Instruction { mode: Addressing::Immediate, opcode: OpCode::XNOP, cycles: 2, extra: 0 },
        0x81 => Instruction { mode: Addressing::IndirectX, opcode: OpCode::STA, cycles: 6, extra: 0 },
        0x82 => Instruction { mode: Addressing::Immediate, opcode: OpCode::XNOP, cycles: 2, extra: 0 },
        0x83 => Instruction { mode: Addressing::IndirectX, opcode: OpCode::XSAX, cycles: 6, extra: 0 },
        0x84 => Instruction { mode: Addressing::ZeroPage, opcode: OpCode::STY, cycles: 3, extra: 0 },
        0x85 => Instruction { mode: Addressing::ZeroPage, opcode: OpCode::STA, cycles: 3, extra: 0 },
        0x86 => Instruction { mode: Addressing::ZeroPage, opcode: OpCode::STX, cycles: 3, extra: 0 },
        0x87 => Instruction { mode: Addressing::ZeroPage, opcode: OpCode::XSAX, cycles: 3, extra: 0 },
        0x88 => Instruction { mode: Addressing::Implied, opcode: OpCode::DEY, cycles: 2, extra: 0 },
        0x89 => Instruction { mode: Addressing::Immediate, opcode: OpCode::XNOP, cycles: 2, extra: 0 },
        0x8A => Instruction { mode: Addressing::Implied, opcode: OpCode::TXA, cycles: 2, extra: 0 },
        0x8B => Instruction { mode: Addressing::Immediate, opcode: OpCode::XANE, cycles: 2, extra: 0 },
        0x8C => Instruction { mode: Addressing::Absolute, opcode: OpCode::STY, cycles: 4, extra: 0 },
        0x8D => Instruction { mode: Addressing::Absolute, opcode: OpCode::STA, cycles: 4, extra: 0 },
        0x8E => Instruction { mode: Addressing::Absolute, opcode: OpCode::STX, cycles: 4, extra: 0 },
        0x8F => Instruction { mode: Addressing::Absolute, opcode: OpCode::XSAX, cycles: 4, extra: 0 },
        0x90 => Instruction { mode: Addressing::Relative, opcode: OpCode::BCC, cycles: 2, extra: 1 },
        0x91 => Instruction { mode: Addressing::IndirectY, opcode: OpCode::STA, cycles: 6, extra: 0 },
        0x92 => Instruction { mode: Addressing::Implied, opcode: OpCode::JAM, cycles: 2, extra: 0 },
        0x93 => Instruction { mode: Addressing::IndirectY, opcode: OpCode::XSHA, cycles: 6, extra: 0 },
        0x94 => Instruction { mode: Addressing::ZeroPageX, opcode: OpCode::STY, cycles: 4, extra: 0 },
        0x95 => Instruction { mode: Addressing::ZeroPageX, opcode: OpCode::STA, cycles: 4, extra: 0 },
        0x96 => Instruction { mode: Addressing::ZeroPageY, opcode: OpCode::STX, cycles: 4, extra: 0 },
        0x97 => Instruction { mode: Addressing::ZeroPageY, opcode: OpCode::XSAX, cycles: 4, extra: 0 },
        0x98 => Instruction { mode: Addressing::Implied, opcode: OpCode::TYA, cycles: 2, extra: 0 },
        0x99 => Instruction { mode: Addressing::AbsoluteY, opcode: OpCode::STA, cycles: 5, extra: 0 },
        0x9A => Instruction { mode: Addressing::Implied, opcode: OpCode::TXS, cycles: 2, extra: 0 },
        0x9B => Instruction { mode: Addressing::AbsoluteY, opcode: OpCode::XTAS, cycles: 5, extra: 0 },
        0x9C => Instruction { mode: Addressing::AbsoluteY, opcode: OpCode::XSHX, cycles: 5, extra: 0 },
        0x9D => Instruction { mode: Addressing::AbsoluteX, opcode: OpCode::STA, cycles: 5, extra: 0 },
        0x9E => Instruction { mode: Addressing::AbsoluteX, opcode: OpCode::XSHY, cycles: 5, extra: 0 },
        0x9F => Instruction { mode: Addressing::AbsoluteY, opcode: OpCode::XSHA, cycles: 5, extra: 0 },
        0xA0 => Instruction { mode: Addressing::Immediate, opcode: OpCode::LDY, cycles: 2, extra: 0 },
        0xA1 => Instruction { mode: Addressing::IndirectX, opcode: OpCode::LDA, cycles: 6, extra: 0 },
        0xA2 => Instruction { mode: Addressing::Immediate, opcode: OpCode::LDX, cycles: 2, extra: 0 },
        0xA3 => Instruction { mode: Addressing::IndirectX, opcode: OpCode::XLAX, cycles: 6, extra: 0 },
        0xA4 => Instruction { mode: Addressing::ZeroPage, opcode: OpCode::LDY, cycles: 3, extra: 0 },
        0xA5 => Instruction { mode: Addressing::ZeroPage, opcode: OpCode::LDA, cycles: 3, extra: 0 },
        0xA6 => Instruction { mode: Addressing::ZeroPage, opcode: OpCode::LDX, cycles: 3, extra: 0 },
        0xA7 => Instruction { mode: Addressing::ZeroPage, opcode: OpCode::XLAX, cycles: 3, extra: 0 },
        0xA8 => Instruction { mode: Addressing::Implied, opcode: OpCode::TAY, cycles: 2, extra: 0 },
        0xA9 => Instruction { mode: Addressing::Immediate, opcode: OpCode::LDA, cycles: 2, extra: 0 },
        0xAA => Instruction { mode: Addressing::Implied, opcode: OpCode::TAX, cycles: 2, extra: 0 },
        0xAB => Instruction { mode: Addressing::Immediate, opcode: OpCode::XLXA, cycles: 2, extra: 0 },
        0xAC => Instruction { mode: Addressing::Absolute, opcode: OpCode::LDY, cycles: 4, extra: 0 },
        0xAD => Instruction { mode: Addressing::Absolute, opcode: OpCode::LDA, cycles: 4, extra: 0 },
        0xAE => Instruction { mode: Addressing::Absolute, opcode: OpCode::LDX, cycles: 4, extra: 0 },
        0xAF => Instruction { mode: Addressing::Absolute, opcode: OpCode::XLAX, cycles: 4, extra: 0 },
        0xB0 => Instruction { mode: Addressing::Relative, opcode: OpCode::BCS, cycles: 2, extra: 1 },
        0xB1 => Instruction { mode: Addressing::IndirectY, opcode: OpCode::LDA, cycles: 5, extra: 1 },
        0xB2 => Instruction { mode: Addressing::Implied, opcode: OpCode::JAM, cycles: 2, extra: 0 },
        0xB3 => Instruction { mode: Addressing::IndirectY, opcode: OpCode::XLAX, cycles: 5, extra: 1 },
        0xB4 => Instruction { mode: Addressing::ZeroPageX, opcode: OpCode::LDY, cycles: 4, extra: 0 },
        0xB5 => Instruction { mode: Addressing::ZeroPageX, opcode: OpCode::LDA, cycles: 4, extra: 0 },
        0xB6 => Instruction { mode: Addressing::ZeroPageY, opcode: OpCode::LDX, cycles: 4, extra: 0 },
        0xB7 => Instruction { mode: Addressing::ZeroPageY, opcode: OpCode::XLAX, cycles: 4, extra: 0 },
        0xB8 => Instruction { mode: Addressing::Implied, opcode: OpCode::CLV, cycles: 2, extra: 0 },
        0xB9 => Instruction { mode: Addressing::AbsoluteY, opcode: OpCode::LDA, cycles: 4, extra: 1 },
        0xBA => Instruction { mode: Addressing::Implied, opcode: OpCode::TSX, cycles: 2, extra: 0 },
        0xBB => Instruction { mode: Addressing::AbsoluteY, opcode: OpCode::XLAS, cycles: 4, extra: 1 },
        0xBC => Instruction { mode: Addressing::AbsoluteX, opcode: OpCode::LDY, cycles: 4, extra: 1 },
        0xBD => Instruction { mode: Addressing::AbsoluteX, opcode: OpCode::LDA, cycles: 4, extra: 1 },
        0xBE => Instruction { mode: Addressing::AbsoluteY, opcode: OpCode::LDX, cycles: 4, extra: 1 },
        0xBF => Instruction { mode: Addressing::AbsoluteY, opcode: OpCode::XLAX, cycles: 4, extra: 1 },
        0xC0 => Instruction { mode: Addressing::Immediate, opcode: OpCode::CPY, cycles: 2, extra: 0 },
        0xC1 => Instruction { mode: Addressing::IndirectX, opcode: OpCode::CMP, cycles: 6, extra: 0 },
        0xC2 => Instruction { mode: Addressing::Immediate, opcode: OpCode::XNOP, cycles: 2, extra: 0 },
        0xC3 => Instruction { mode: Addressing::IndirectX, opcode: OpCode::XDCP, cycles: 8, extra: 0 },
        0xC4 => Instruction { mode: Addressing::ZeroPage, opcode: OpCode::CPY, cycles: 3, extra: 0 },
        0xC5 => Instruction { mode: Addressing::ZeroPage, opcode: OpCode::CMP, cycles: 3, extra: 0 },
        0xC6 => Instruction { mode: Addressing::ZeroPage, opcode: OpCode::DEC, cycles: 5, extra: 0 },
        0xC7 => Instruction { mode: Addressing::ZeroPage, opcode: OpCode::XDCP, cycles: 5, extra: 0 },
        0xC8 => Instruction { mode: Addressing::Implied, opcode: OpCode::INY, cycles: 2, extra: 0 },
        0xC9 => Instruction { mode: Addressing::Immediate, opcode: OpCode::CMP, cycles: 2, extra: 0 },
        0xCA => Instruction { mode: Addressing::Implied, opcode: OpCode::DEX, cycles: 2, extra: 0 },
        0xCB => Instruction { mode: Addressing::Immediate, opcode: OpCode::XSBX, cycles: 2, extra: 0 },
        0xCC => Instruction { mode: Addressing::Absolute, opcode: OpCode::CPY, cycles: 4, extra: 0 },
        0xCD => Instruction { mode: Addressing::Absolute, opcode: OpCode::CMP, cycles: 4, extra: 0 },
        0xCE => Instruction { mode: Addressing::Absolute, opcode: OpCode::DEC, cycles: 6, extra: 0 },
        0xCF => Instruction { mode: Addressing::Absolute, opcode: OpCode::XDCP, cycles: 6, extra: 0 },
        0xD0 => Instruction { mode: Addressing::Relative, opcode: OpCode::BNE, cycles: 2, extra: 1 },
        0xD1 => Instruction { mode: Addressing::IndirectY, opcode: OpCode::CMP, cycles: 5, extra: 0 },
        0xD2 => Instruction { mode: Addressing::Implied, opcode: OpCode::JAM, cycles: 2, extra: 0 },
        0xD3 => Instruction { mode: Addressing::IndirectY, opcode: OpCode::XDCP, cycles: 8, extra: 0 },
        0xD4 => Instruction { mode: Addressing::ZeroPageX, opcode: OpCode::XNOP, cycles: 4, extra: 0 },
        0xD5 => Instruction { mode: Addressing::ZeroPageX, opcode: OpCode::CMP, cycles: 4, extra: 0 },
        0xD6 => Instruction { mode: Addressing::ZeroPageX, opcode: OpCode::DEC, cycles: 6, extra: 0 },
        0xD7 => Instruction { mode: Addressing::ZeroPageX, opcode: OpCode::XDCP, cycles: 6, extra: 0 },
        0xD8 => Instruction { mode: Addressing::Implied, opcode: OpCode::CLD, cycles: 2, extra: 0 },
        0xD9 => Instruction { mode: Addressing::AbsoluteY, opcode: OpCode::CMP, cycles: 4, extra: 1 },
        0xDA => Instruction { mode: Addressing::Implied, opcode: OpCode::XNOP, cycles: 2, extra: 0 },
        0xDB => Instruction { mode: Addressing::AbsoluteY, opcode: OpCode::XDCP, cycles: 7, extra: 0 },
        0xDC => Instruction { mode: Addressing::AbsoluteX, opcode: OpCode::XNOP, cycles: 4, extra: 1 },
        0xDD => Instruction { mode: Addressing::AbsoluteX, opcode: OpCode::CMP, cycles: 4, extra: 1 },
        0xDE => Instruction { mode: Addressing::AbsoluteX, opcode: OpCode::DEC, cycles: 6, extra: 0 },
        0xDF => Instruction { mode: Addressing::AbsoluteX, opcode: OpCode::XDCP, cycles: 7, extra: 0 },
        0xE0 => Instruction { mode: Addressing::Immediate, opcode: OpCode::CPX, cycles: 2, extra: 0 },
        0xE1 => Instruction { mode: Addressing::IndirectX, opcode: OpCode::SBC, cycles: 6, extra: 0 },
        0xE2 => Instruction { mode: Addressing::Immediate, opcode: OpCode::XNOP, cycles: 2, extra: 0 },
        0xE3 => Instruction { mode: Addressing::IndirectX, opcode: OpCode::XISC, cycles: 8, extra: 0 },
        0xE4 => Instruction { mode: Addressing::ZeroPage, opcode: OpCode::CPX, cycles: 3, extra: 0 },
        0xE5 => Instruction { mode: Addressing::ZeroPage, opcode: OpCode::SBC, cycles: 3, extra: 0 },
        0xE6 => Instruction { mode: Addressing::ZeroPage, opcode: OpCode::INC, cycles: 5, extra: 0 },
        0xE7 => Instruction { mode: Addressing::ZeroPage, opcode: OpCode::XISC, cycles: 5, extra: 0 },
        0xE8 => Instruction { mode: Addressing::Implied, opcode: OpCode::INX, cycles: 2, extra: 0 },
        0xE9 => Instruction { mode: Addressing::Immediate, opcode: OpCode::SBC, cycles: 2, extra: 0 },
        0xEA => Instruction { mode: Addressing::Implied, opcode: OpCode::NOP, cycles: 2, extra: 0 },
        0xEB => Instruction { mode: Addressing::Immediate, opcode: OpCode::XSBC, cycles: 2, extra: 0 },
        0xEC => Instruction { mode: Addressing::Absolute, opcode: OpCode::CPX, cycles: 4, extra: 0 },
        0xED => Instruction { mode: Addressing::Absolute, opcode: OpCode::SBC, cycles: 4, extra: 0 },
        0xEE => Instruction { mode: Addressing::Absolute, opcode: OpCode::INC, cycles: 6, extra: 0 },
        0xEF => Instruction { mode: Addressing::Absolute, opcode: OpCode::XISC, cycles: 6, extra: 0 },
        0xF0 => Instruction { mode: Addressing::Relative, opcode: OpCode::BEQ, cycles: 2, extra: 1 },
        0xF1 => Instruction { mode: Addressing::IndirectY, opcode: OpCode::SBC, cycles: 5, extra: 1 },
        0xF2 => Instruction { mode: Addressing::Implied, opcode: OpCode::JAM, cycles: 2, extra: 0 },
        0xF3 => Instruction { mode: Addressing::IndirectY, opcode: OpCode::XISC, cycles: 8, extra: 0 },
        0xF4 => Instruction { mode: Addressing::ZeroPageX, opcode: OpCode::XNOP, cycles: 4, extra: 0 },
        0xF5 => Instruction { mode: Addressing::ZeroPageX, opcode: OpCode::SBC, cycles: 4, extra: 0 },
        0xF6 => Instruction { mode: Addressing::ZeroPageX, opcode: OpCode::INC, cycles: 6, extra: 0 },
        0xF7 => Instruction { mode: Addressing::ZeroPageX, opcode: OpCode::XISC, cycles: 6, extra: 0 },
        0xF8 => Instruction { mode: Addressing::Implied, opcode: OpCode::SED, cycles: 2, extra: 0 },
        0xF9 => Instruction { mode: Addressing::AbsoluteY, opcode: OpCode::SBC, cycles: 4, extra: 1 },
        0xFA => Instruction { mode: Addressing::Implied, opcode: OpCode::XNOP, cycles: 2, extra: 0 },
        0xFB => Instruction { mode: Addressing::AbsoluteY, opcode: OpCode::XISC, cycles: 7, extra: 0 },
        0xFC => Instruction { mode: Addressing::AbsoluteX, opcode: OpCode::XNOP, cycles: 4, extra: 1 },
        0xFD => Instruction { mode: Addressing::AbsoluteX, opcode: OpCode::SBC, cycles: 4, extra: 1 },
        0xFE => Instruction { mode: Addressing::AbsoluteX, opcode: OpCode::INC, cycles: 7, extra: 0 },
        _ => Instruction { mode: Addressing::AbsoluteX, opcode: OpCode::XISC, cycles: 7, extra: 0 },
    }
}

/// Operand bytes that follow the opcode in each mode.
pub open spec fn operand_bytes(mode: Addressing) -> nat {
    match mode {
        Addressing::Accumulator | Addressing::Implied => 0,
        Addressing::Absolute | Addressing::AbsoluteX | Addressing::AbsoluteY | Addressing::Indirect => 2,
        _ => 1,
    }
}

/// Kinds that only use the operand's address, never the byte stored there.
pub open spec fn address_only(opcode: OpCode) -> bool {
    match opcode {
        OpCode::BCC | OpCode::BCS | OpCode::BEQ | OpCode::BMI | OpCode::BNE | OpCode::BPL
        | OpCode::BVC | OpCode::BVS | OpCode::JMP | OpCode::JSR | OpCode::XSAX | OpCode::XSHA
        | OpCode::XSHX | OpCode::XSHY | OpCode::STA | OpCode::STX | OpCode::STY | OpCode::XTAS => true,
        _ => false,
    }
}

/// Only the eight branches use relative addressing; JAM is implied and
/// stores never immediate.
pub proof fn lemma_relative_is_branch(code: u8)
    ensures
        (decode(code).mode == Addressing::Relative) == (match decode(code).opcode {
            OpCode::BCC | OpCode::BCS | OpCode::BEQ | OpCode::BMI | OpCode::BNE | OpCode::BPL
            | OpCode::BVC | OpCode::BVS => true,
            _ => false,
        }),
        decode(code).opcode == OpCode::JAM ==> decode(code).mode == Addressing::Implied,
        (decode(code).opcode == OpCode::STA || decode(code).opcode == OpCode::STX || decode(code).opcode == OpCode::STY)
            ==> decode(code).mode != Addressing::Immediate,
{
    reveal(decode);
}

impl Addressing {
    /// Length in bytes of an instruction in this mode, opcode included.
    pub fn length(&self) -> (r: u16)
        ensures
            r == 1 + operand_bytes(*self),
    {
        match self {
            Addressing::Accumulator | Addressing::Implied => 1,
            Addressing::Absolute | Addressing::AbsoluteX | Addressing::AbsoluteY | Addressing::Indirect => 3,
            _ => 2,
        }
    }
}

impl Instruction {
    pub fn get(code: u8) -> (r: Instruction)
        ensures
            r == decode(code),
    {
        proof {
            reveal(decode);
        }
        match code {
            0x00 => Instruction { mode: Addressing::Implied, opcode: OpCode::BRK, cycles: 7, extra: 0 },
            0x01 => Instruction { mode: Addressing::IndirectX, opcode: OpCode::ORA, cycles: 6, extra: 0 },
            0x02 => Instruction { mode: Addressing::Implied, opcode: OpCode::JAM, cycles: 2, extra: 0 },
            0x03 => Instruction { mode: Addressing::IndirectX, opcode: OpCode::XSLO, cycles: 8, extra: 0 },
            0x04 => Instruction { mode: Addressing::ZeroPage, opcode: OpCode::XNOP, cycles: 3, extra: 0 },
            0x05 => Instruction { mode: Addressing::ZeroPage, opcode: OpCode::ORA, cycles: 3, extra: 0 },
            0x06 => Instruction { mode: Addressing::ZeroPage, opcode: OpCode::ASL, cycles: 5, extra: 0 },
            0x07 => Instruction { mode: Addressing::ZeroPage, opcode: OpCode::XSLO, cycles: 5, extra: 0 },
            0x08 => Instruction { mode: Addressing::Implied, opcode: OpCode::PHP, cycles: 3, extra: 0 },
            0x09 => Instruction { mode: Addressing::Immediate, opcode: OpCode::ORA, cycles: 2, extra: 0 },
            0x0A => Instruction { mode: Addressing::Accumulator, opcode: OpCode::ASL, cycles: 2, extra: 0 },
            0x0B => Instruction { mode: Addressing::Immediate, opcode: OpCode::XANC, cycles: 2, extra: 0 },
            0x0C => Instruction { mode: Addressing::Absolute, opcode: OpCode::XNOP, cycles: 4, extra: 0 },
            0x0D => Instruction { mode: Addressing::Absolute, opcode: OpCode::ORA, cycles: 4, extra: 0 },
            0x0E => Instruction { mode: Addressing::Absolute, opcode: OpCode::ASL, cycles: 6, extra: 0 },
            0x0F => Instruction { mode: Addressing::Absolute, opcode: OpCode::XSLO, cycles: 6, extra: 0 },
            0x10 => Instruction { mode: Addressing::Relative, opcode: OpCode::BPL, cycles: 2, extra: 1 },
            0x11 => Instruction { mode: Addressing::IndirectY, opcode: OpCode::ORA, cycles: 5, extra: 1 },
            0x12 => Instruction { mode: Addressing::Implied, opcode: OpCode::JAM, cycles: 2, extra: 0 },
            0x13 => Instruction { mode: Addressing::IndirectY, opcode: OpCode::XSLO, cycles: 8, extra: 0 },
            0x14 => Instruction { mode: Addressing::ZeroPageX, opcode: OpCode::XNOP, cycles: 4, extra: 0 },
            0x15 => Instruction { mode: Addressing::ZeroPageX, opcode: OpCode::ORA, cycles: 4, extra: 0 },
            0x16 => Instruction { mode: Addressing::ZeroPageX, opcode: OpCode::ASL, cycles: 6, extra: 0 },
            0x17 => Instruction { mode: Addressing::ZeroPageX, opcode: OpCode::XSLO, cycles: 6, extra: 0 },
            0x18 => Instruction { mode: Addressing::Implied, opcode: OpCode::CLC, cycles: 2, extra: 0 },
            0x19 => Instruction { mode: Addressing::AbsoluteY, opcode: OpCode::ORA, cycles: 4, extra: 1 },
            0x1A => Instruction { mode: Addressing::Implied, opcode: OpCode::XNOP, cycles: 2, extra: 0 },
            0x1B => Instruction { mode: Addressing::AbsoluteY, opcode: OpCode::XSLO, cycles: 7, extra: 0 },
            0x1C => Instruction { mode: Addressing::AbsoluteX, opcode: OpCode::XNOP, cycles: 4, extra: 1 },
            0x1D => Instruction { mode: Addressing::AbsoluteX, opcode: OpCode::ORA, cycles: 4, extra: 1 },
            0x1E => Instruction { mode: Addressing::AbsoluteX, opcode: OpCode::ASL, cycles: 7, extra: 0 },
            0x1F => Instruction { mode: Addressing::AbsoluteX, opcode: OpCode::XSLO, cycles: 7, extra: 0 },
            0x20 => Instruction { mode: Addressing::Absolute, opcode: OpCode::JSR, cycles: 6, extra: 0 },
            0x21 => Instruction { mode: Addressing::IndirectX, opcode: OpCode::AND, cycles: 6, extra: 0 },
            0x22 => Instruction { mode: Addressing::Implied, opcode: OpCode::JAM, cycles: 2, extra: 0 },
            0x23 => Instruction { mode: Addressing::IndirectX, opcode: OpCode::XRLA, cycles: 8, extra: 0 },
            0x24 => Instruction { mode: Addressing::ZeroPage, opcode: OpCode::BIT, cycles: 3, extra: 0 },
            0x25 => Instruction { mode: Addressing::ZeroPage, opcode: OpCode::AND, cycles: 3, extra: 0 },
            0x26 => Instruction { mode: Addressing::ZeroPage, opcode: OpCode::ROL, cycles: 5, extra: 0 },
            0x27 => Instruction { mode: Addressing::ZeroPage, opcode: OpCode::XRLA, cycles: 5, extra: 0 },
            0x28 => Instruction { mode: Addressing::Implied, opcode: OpCode::PLP, cycles: 4, extra: 0 },
            0x29 => Instruction { mode: Addressing::Immediate, opcode: OpCode::AND, cycles: 2, extra: 0 },
            0x2A => Instruction { mode: Addressing::Accumulator, opcode: OpCode::ROL, cycles: 2, extra: 0 },
            0x2B => Instruction { mode: Addressing::Immediate, opcode: OpCode::XANC, cycles: 2, extra: 0 },
            0x2C => Instruction { mode: Addressing::Absolute, opcode: OpCode::BIT, cycles: 4, extra: 0 },
            0x2D => Instruction { mode: Addressing::Absolute, opcode: OpCode::AND, cycles: 4, extra: 0 },
            0x2E => Instruction { mode: Addressing::Absolute, opcode: OpCode::ROL, cycles: 6, extra: 0 },
            0x2F => Instruction { mode: Addressing::Absolute, opcode: OpCode::XRLA, cycles: 6, extra: 0 },
            0x30 => Instruction { mode: Addressing::Relative, opcode: OpCode::BMI, cycles: 2, extra: 1 },
            0x31 => Instruction { mode: Addressing::IndirectY, opcode: OpCode::AND, cycles: 5, extra: 1 },
            0x32 => Instruction { mode: Addressing::Implied, opcode: OpCode::JAM, cycles: 2, extra: 0 },
            0x33 => Instruction { mode: Addressing::IndirectY, opcode: OpCode::XRLA, cycles: 8, extra: 0 },
            0x34 => Instruction { mode: Addressing::ZeroPageX, opcode: OpCode::XNOP, cycles: 4, extra: 0 },
            0x35 => Instruction { mode: Addressing::ZeroPageX, opcode: OpCode::AND, cycles: 4, extra: 0 },
            0x36 => Instruction { mode: Addressing::ZeroPageX, opcode: OpCode::ROL, cycles: 6, extra: 0 },
            0x37 => Instruction { mode: Addressing::ZeroPageX, opcode: OpCode::XRLA, cycles: 6, extra: 0 },
            0x38 => Instruction { mode: Addressing::Implied, opcode: OpCode::SEC, cycles: 2, extra: 0 },
            0x39 => Instruction { mode: Addressing::AbsoluteY, opcode: OpCode::AND, cycles: 4, extra: 1 },
            0x3A => Instruction { mode: Addressing::Implied, opcode: OpCode::XNOP, cycles: 2, extra: 0 },
            0x3B => Instruction { mode: Addressing::AbsoluteY, opcode: OpCode::XRLA, cycles: 7, extra: 0 },
            0x3C => Instruction { mode: Addressing::AbsoluteX, opcode: OpCode::XNOP, cycles: 4, extra: 1 },
            0x3D => Instruction { mode: Addressing::AbsoluteX, opcode: OpCode::AND, cycles: 4, extra: 1 },
            0x3E => Instruction { mode: Addressing::AbsoluteX, opcode: OpCode::ROL, cycles: 7, extra: 0 },
            0x3F => Instruction { mode: Addressing::AbsoluteX, opcode: OpCode::XRLA, cycles: 7, extra: 0 },
            0x40 => Instruction { mode: Addressing::Implied, opcode: OpCode::RTI, cycles: 6, extra: 0 },
            0x41 => Instruction { mode: Addressing::IndirectX, opcode: OpCode::EOR, cycles: 6, extra: 0 },
            0x42 => Instruction { mode: Addressing::Implied, opcode: OpCode::JAM, cycles: 2, extra: 0 },
            0x43 => Instruction { mode: Addressing::IndirectX, opcode: OpCode::XSRE, cycles: 8, extra: 0 },
            0x44 => Instruction { mode: Addressing::ZeroPage, opcode: OpCode::XNOP, cycles: 3, extra: 0 },
            0x45 => Instruction { mode: Addressing::ZeroPage, opcode: OpCode::EOR, cycles: 3, extra: 0 },
            0x46 => Instruction { mode: Addressing::ZeroPage, opcode: OpCode::LSR, cycles: 5, extra: 0 },
            0x47 => Instruction { mode: Addressing::ZeroPage, opcode: OpCode::XSRE, cycles: 5, extra: 0 },
            0x48 => Instruction { mode: Addressing::Implied, opcode: OpCode::PHA, cycles: 3, extra: 0 },
            0x49 => Instruction { mode: Addressing::Immediate, opcode: OpCode::EOR, cycles: 2, extra: 0 },
            0x4A => Instruction { mode: Addressing::Accumulator, opcode: OpCode::LSR, cycles: 2, extra: 0 },
            0x4B => Instruction { mode: Addressing::Immediate, opcode: OpCode::XALR, cycles: 2, extra: 0 },
            0x4C => Instruction { mode: Addressing::Absolute, opcode: OpCode::JMP, cycles: 3, extra: 0 },
            0x4D => Instruction { mode: Addressing::Absolute, opcode: OpCode::EOR, cycles: 4, extra: 0 },
            0x4E => Instruction { mode: Addressing::Absolute, opcode: OpCode::LSR, cycles: 6, extra: 0 },
            0x4F => Instruction { mode: Addressing::Absolute, opcode: OpCode::XSRE, cycles: 6, extra: 0 },
            0x50 => Instruction { mode: Addressing::Relative, opcode: OpCode::BVC, cycles: 2, extra: 1 },
            0x51 => Instruction { mode: Addressing::IndirectY, opcode: OpCode::EOR, cycles: 5, extra: 1 },
            0x52 => Instruction { mode: Addressing::Implied, opcode: OpCode::JAM, cycles: 2, extra: 0 },
            0x53 => Instruction { mode: Addressing::IndirectY, opcode: OpCode::XSRE, cycles: 8, extra: 0 },
            0x54 => Instruction { mode: Addressing::ZeroPageX, opcode: OpCode::XNOP, cycles: 4, extra: 0 },
            0x55 => Instruction { mode: Addressing::ZeroPageX, opcode: OpCode::EOR, cycles: 4, extra: 0 },
            0x56 => Instruction { mode: Addressing::ZeroPageX, opcode: OpCode::LSR, cycles: 6, extra: 0 },
            0x57 => Instruction { mode: Addressing::ZeroPageX, opcode: OpCode::XSRE, cycles: 6, extra: 0 },
            0x58 => Instruction { mode: Addressing::Implied, opcode: OpCode::CLI, cycles: 2, extra: 0 },
            0x59 => Instruction { mode: Addressing::AbsoluteY, opcode: OpCode::EOR, cycles: 4, extra: 1 },
            0x5A => Instruction { mode: Addressing::Implied, opcode: OpCode::XNOP, cycles: 2, extra: 0 },
            0x5B => Instruction { mode: Addressing::AbsoluteY, opcode: OpCode::XSRE, cycles: 7, extra: 0 },
            0x5C => Instruction { mode: Addressing::AbsoluteX, opcode: OpCode::XNOP, cycles: 4, extra: 1 },
            0x5D => Instruction { mode: Addressing::AbsoluteX, opcode: OpCode::EOR, cycles: 4, extra: 1 },
            0x5E => Instruction { mode: Addressing::AbsoluteX, opcode: OpCode::LSR, cycles: 7, extra: 0 },
            0x5F => Instruction { mode: Addressing::AbsoluteX, opcode: OpCode::XSRE, cycles: 7, extra: 0 },
            0x60 => Instruction { mode: Addressing::Implied, opcode: OpCode::RTS, cycles: 6, extra: 0 },
            0x61 => Instruction { mode: Addressing::IndirectX, opcode: OpCode::ADC, cycles: 6, extra: 0 },
            0x62 => Instruction { mode: Addressing::Implied, opcode: OpCode::JAM, cycles: 2, extra: 0 },
            0x63 => Instruction { mode: Addressing::IndirectX, opcode: OpCode::XRRA, cycles: 8, extra: 0 },
            0x64 => Instruction { mode: Addressing::ZeroPage, opcode: OpCode::XNOP, cycles: 3, extra: 0 },
            0x65 => Instruction { mode: Addressing::ZeroPage, opcode: OpCode::ADC, cycles: 3, extra: 0 },
            0x66 => Instruction { mode: Addressing::ZeroPage, opcode: OpCode::ROR, cycles: 5, extra: 0 },
            0x67 => Instruction { mode: Addressing::ZeroPage, opcode: OpCode::XRRA, cycles: 5, extra: 0 },
            0x68 => Instruction { mode: Addressing::Implied, opcode: OpCode::PLA, cycles: 4, extra: 0 },
            0x69 => Instruction { mode: Addressing::Immediate, opcode: OpCode::ADC, cycles: 2, extra: 0 },
            0x6A => Instruction { mode: Addressing::Accumulator, opcode: OpCode::ROR, cycles: 2, extra: 0 },
            0x6B => Instruction { mode: Addressing::Immediate, opcode: OpCode::XARR, cycles: 2, extra: 0 },
            0x6C => Instruction { mode: Addressing::Indirect, opcode: OpCode::JMP, cycles: 5, extra: 0 },
            0x6D => Instruction { mode: Addressing::Absolute, opcode: OpCode::ADC, cycles: 4, extra: 0 },
            0x6E => Instruction { mode: Addressing::Absolute, opcode: OpCode::ROR, cycles: 6, extra: 0 },
            0x6F => Instruction { mode: Addressing::Absolute, opcode: OpCode::XRRA, cycles: 6, extra: 0 },
            0x70 => Instruction { mode: Addressing::Relative, opcode: OpCode::BVS, cycles: 2, extra: 1 },
            0x71 => Instruction { mode: Addressing::IndirectY, opcode: OpCode::ADC, cycles: 5, extra: 1 },
            0x72 => Instruction { mode: Addressing::Implied, opcode: OpCode::JAM, cycles: 2, extra: 0 },
            0x73 => Instruction { mode: Addressing::IndirectY, opcode: OpCode::XRRA, cycles: 8, extra: 0 },
            0x74 => Instruction { mode: Addressing::ZeroPageX, opcode: OpCode::XNOP, cycles: 4, extra: 0 },
            0x75 => Instruction { mode: Addressing::ZeroPageX, opcode: OpCode::ADC, cycles: 4, extra: 0 },
            0x76 => Instruction { mode: Addressing::ZeroPageX, opcode: OpCode::ROR, cycles: 6, extra: 0 },
            0x77 => Instruction { mode: Addressing::ZeroPageX, opcode: OpCode::XRRA, cycles: 6, extra: 0 },
            0x78 => Instruction { mode: Addressing::Implied, opcode: OpCode::SEI, cycles: 2, extra: 0 },
            0x79 => Instruction { mode: Addressing::AbsoluteY, opcode: OpCode::ADC, cycles: 4, extra: 1 },
            0x7A => Instruction { mode: Addressing::Implied, opcode: OpCode::XNOP, cycles: 2, extra: 0 },
            0x7B => Instruction { mode: Addressing::AbsoluteY, opcode: OpCode::XRRA, cycles: 7, extra: 0 },
            0x7C => Instruction { mode: Addressing::AbsoluteX, opcode: OpCode::XNOP, cycles: 4, extra: 1 },
            0x7D => Instruction { mode: Addressing::AbsoluteX, opcode: OpCode::ADC, cycles: 4, extra: 1 },
            0x7E => Instruction { mode: Addressing::AbsoluteX, opcode: OpCode::ROR, cycles: 7, extra: 0 },
            0x7F => Instruction { mode: Addressing::AbsoluteX, opcode: OpCode::XRRA, cycles: 7, extra: 0 },
            0x80 => Instruction { mode: Addressing::Immediate, opcode: OpCode::XNOP, cycles: 2, extra: 0 },
            0x81 => Instruction { mode: Addressing::IndirectX, opcode: OpCode::STA, cycles: 6, extra: 0 },
            0x82 => Instruction { mode: Addressing::Immediate, opcode: OpCode::XNOP, cycles: 2, extra: 0 },
            0x83 => Instruction { mode: Addressing::IndirectX, opcode: OpCode::XSAX, cycles: 6, extra: 0 },
            0x84 => Instruction { mode: Addressing::ZeroPage, opcode: OpCode::STY, cycles: 3, extra: 0 },
            0x85 => Instruction { mode: Addressing::ZeroPage, opcode: OpCode::STA, cycles: 3, extra: 0 },
            0x86 => Instruction { mode: Addressing::ZeroPage, opcode: OpCode::STX, cycles: 3, extra: 0 },
            0x87 => Instruction { mode: Addressing::ZeroPage, opcode: OpCode::XSAX, cycles: 3, extra: 0 },
            0x88 => Instruction { mode: Addressing::Implied, opcode: OpCode::DEY, cycles: 2, extra: 0 },
            0x89 => Instruction { mode: Addressing::Immediate, opcode: OpCode::XNOP, cycles: 2, extra: 0 },
            0x8A => Instruction { mode: Addressing::Implied, opcode: OpCode::TXA, cycles: 2, extra: 0 },
            0x8B => Instruction { mode: Addressing::Immediate, opcode: OpCode::XANE, cycles: 2, extra: 0 },
            0x8C => Instruction { mode: Addressing::Absolute, opcode: OpCode::STY, cycles: 4, extra: 0 },
            0x8D => Instruction { mode: Addressing::Absolute, opcode: OpCode::STA, cycles: 4, extra: 0 },
            0x8E => Instruction { mode: Addressing::Absolute, opcode: OpCode::STX, cycles: 4, extra: 0 },
            0x8F => Instruction { mode: Addressing::Absolute, opcode: OpCode::XSAX, cycles: 4, extra: 0 },
            0x90 => Instruction { mode: Addressing::Relative, opcode: OpCode::BCC, cycles: 2, extra: 1 },
            0x91 => Instruction { mode: Addressing::IndirectY, opcode: OpCode::STA, cycles: 6, extra: 0 },
            0x92 => Instruction { mode: Addressing::Implied, opcode: OpCode::JAM, cycles: 2, extra: 0 },
            0x93 => Instruction { mode: Addressing::IndirectY, opcode: OpCode::XSHA, cycles: 6, extra: 0 },
            0x94 => Instruction { mode: Addressing::ZeroPageX, opcode: OpCode::STY, cycles: 4, extra: 0 },
            0x95 => Instruction { mode: Addressing::ZeroPageX, opcode: OpCode::STA, cycles: 4, extra: 0 },
            0x96 => Instruction { mode: Addressing::ZeroPageY, opcode: OpCode::STX, cycles: 4, extra: 0 },
            0x97 => Instruction { mode: Addressing::ZeroPageY, opcode: OpCode::XSAX, cycles: 4, extra: 0 },
            0x98 => Instruction { mode: Addressing::Implied, opcode: OpCode::TYA, cycles: 2, extra: 0 },
            0x99 => Instruction { mode: Addressing::AbsoluteY, opcode: OpCode::STA, cycles: 5, extra: 0 },
            0x9A => Instruction { mode: Addressing::Implied, opcode: OpCode::TXS, cycles: 2, extra: 0 },
            0x9B => Instruction { mode: Addressing::AbsoluteY, opcode: OpCode::XTAS, cycles: 5, extra: 0 },
            0x9C => Instruction { mode: Addressing::AbsoluteY, opcode: OpCode::XSHX, cycles: 5, extra: 0 },
            0x9D => Instruction { mode: Addressing::AbsoluteX, opcode: OpCode::STA, cycles: 5, extra: 0 },
            0x9E => Instruction { mode: Addressing::AbsoluteX, opcode: OpCode::XSHY, cycles: 5, extra: 0 },
            0x9F => Instruction { mode: Addressing::AbsoluteY, opcode: OpCode::XSHA, cycles: 5, extra: 0 },
            0xA0 => Instruction { mode: Addressing::Immediate, opcode: OpCode::LDY, cycles: 2, extra: 0 },
            0xA1 => Instruction { mode: Addressing::IndirectX, opcode: OpCode::LDA, cycles: 6, extra: 0 },
            0xA2 => Instruction { mode: Addressing::Immediate, opcode: OpCode::LDX, cycles: 2, extra: 0 },
            0xA3 => Instruction { mode: Addressing::IndirectX, opcode: OpCode::XLAX, cycles: 6, extra: 0 },
            0xA4 => Instruction { mode: Addressing::ZeroPage, opcode: OpCode::LDY, cycles: 3, extra: 0 },
            0xA5 => Instruction { mode: Addressing::ZeroPage, opcode: OpCode::LDA, cycles: 3, extra: 0 },
            0xA6 => Instruction { mode: Addressing::ZeroPage, opcode: OpCode::LDX, cycles: 3, extra: 0 },
            0xA7 => Instruction { mode: Addressing::ZeroPage, opcode: OpCode::XLAX, cycles: 3, extra: 0 },
            0xA8 => Instruction { mode: Addressing::Implied, opcode: OpCode::TAY, cycles: 2, extra: 0 },
            0xA9 => Instruction { mode: Addressing::Immediate, opcode: OpCode::LDA, cycles: 2, extra: 0 },
            0xAA => Instruction { mode: Addressing::Implied, opcode: OpCode::TAX, cycles: 2, extra: 0 },
            0xAB => Instruction { mode: Addressing::Immediate, opcode: OpCode::XLXA, cycles: 2, extra: 0 },
            0xAC => Instruction { mode: Addressing::Absolute, opcode: OpCode::LDY, cycles: 4, extra: 0 },
            0xAD => Instruction { mode: Addressing::Absolute, opcode: OpCode::LDA, cycles: 4, extra: 0 },
            0xAE => Instruction { mode: Addressing::Absolute, opcode: OpCode::LDX, cycles: 4, extra: 0 },
            0xAF => Instruction { mode: Addressing::Absolute, opcode: OpCode::XLAX, cycles: 4, extra: 0 },
            0xB0 => Instruction { mode: Addressing::Relative, opcode: OpCode::BCS, cycles: 2, extra: 1 },
            0xB1 => Instruction { mode: Addressing::IndirectY, opcode: OpCode::LDA, cycles: 5, extra: 1 },
            0xB2 => Instruction { mode: Addressing::Implied, opcode: OpCode::JAM, cycles: 2, extra: 0 },
            0xB3 => Instruction { mode: Addressing::IndirectY, opcode: OpCode::XLAX, cycles: 5, extra: 1 },
            0xB4 => Instruction { mode: Addressing::ZeroPageX, opcode: OpCode::LDY, cycles: 4, extra: 0 },
            0xB5 => Instruction { mode: Addressing::ZeroPageX, opcode: OpCode::LDA, cycles: 4, extra: 0 },
            0xB6 => Instruction { mode: Addressing::ZeroPageY, opcode: OpCode::LDX, cycles: 4, extra: 0 },
            0xB7 => Instruction { mode: Addressing::ZeroPageY, opcode: OpCode::XLAX, cycles: 4, extra: 0 },
            0xB8 => Instruction { mode: Addressing::Implied, opcode: OpCode::CLV, cycles: 2, extra: 0 },
            0xB9 => Instruction { mode: Addressing::AbsoluteY, opcode: OpCode::LDA, cycles: 4, extra: 1 },
            0xBA => Instruction { mode: Addressing::Implied, opcode: OpCode::TSX, cycles: 2, extra: 0 },
            0xBB => Instruction { mode: Addressing::AbsoluteY, opcode: OpCode::XLAS, cycles: 4, extra: 1 },
            0xBC => Instruction { mode: Addressing::AbsoluteX, opcode: OpCode::LDY, cycles: 4, extra: 1 },
            0xBD => Instruction { mode: Addressing::AbsoluteX, opcode: OpCode::LDA, cycles: 4, extra: 1 },
            0xBE => Instruction { mode: Addressing::AbsoluteY, opcode: OpCode::LDX, cycles: 4, extra: 1 },
            0xBF => Instruction { mode: Addressing::AbsoluteY, opcode: OpCode::XLAX, cycles: 4, extra: 1 },
            0xC0 => Instruction { mode: Addressing::Immediate, opcode: OpCode::CPY, cycles: 2, extra: 0 },
            0xC1 => Instruction { mode: Addressing::IndirectX, opcode: OpCode::CMP, cycles: 6, extra: 0 },
            0xC2 => Instruction { mode: Addressing::Immediate, opcode: OpCode::XNOP, cycles: 2, extra: 0 },
            0xC3 => Instruction { mode: Addressing::IndirectX, opcode: OpCode::XDCP, cycles: 8, extra: 0 },
            0xC4 => Instruction { mode: Addressing::ZeroPage, opcode: OpCode::CPY, cycles: 3, extra: 0 },
            0xC5 => Instruction { mode: Addressing::ZeroPage, opcode: OpCode::CMP, cycles: 3, extra: 0 },
            0xC6 => Instruction { mode: Addressing::ZeroPage, opcode: OpCode::DEC, cycles: 5, extra: 0 },
            0xC7 => Instruction { mode: Addressing::ZeroPage, opcode: OpCode::XDCP, cycles: 5, extra: 0 },
            0xC8 => Instruction { mode: Addressing::Implied, opcode: OpCode::INY, cycles: 2, extra: 0 },
            0xC9 => Instruction { mode: Addressing::Immediate, opcode: OpCode::CMP, cycles: 2, extra: 0 },
            0xCA => Instruction { mode: Addressing::Implied, opcode: OpCode::DEX, cycles: 2, extra: 0 },
            0xCB => Instruction { mode: Addressing::Immediate, opcode: OpCode::XSBX, cycles: 2, extra: 0 },
            0xCC => Instruction { mode: Addressing::Absolute, opcode: OpCode::CPY, cycles: 4, extra: 0 },
            0xCD => Instruction { mode: Addressing::Absolute, opcode: OpCode::CMP, cycles: 4, extra: 0 },
            0xCE => Instruction { mode: Addressing::Absolute, opcode: OpCode::DEC, cycles: 6, extra: 0 },
            0xCF => Instruction { mode: Addressing::Absolute, opcode: OpCode::XDCP, cycles: 6, extra: 0 },
            0xD0 => Instruction { mode: Addressing::Relative, opcode: OpCode::BNE, cycles: 2, extra: 1 },
            0xD1 => Instruction { mode: Addressing::IndirectY, opcode: OpCode::CMP, cycles: 5, extra: 0 },
            0xD2 => Instruction { mode: Addressing::Implied, opcode: OpCode::JAM, cycles: 2, extra: 0 },
            0xD3 => Instruction { mode: Addressing::IndirectY, opcode: OpCode::XDCP, cycles: 8, extra: 0 },
            0xD4 => Instruction { mode: Addressing::ZeroPageX, opcode: OpCode::XNOP, cycles: 4, extra: 0 },
            0xD5 => Instruction { mode: Addressing::ZeroPageX, opcode: OpCode::CMP, cycles: 4, extra: 0 },
            0xD6 => Instruction { mode: Addressing::ZeroPageX, opcode: OpCode::DEC, cycles: 6, extra: 0 },
            0xD7 => Instruction { mode: Addressing::ZeroPageX, opcode: OpCode::XDCP, cycles: 6, extra: 0 },
            0xD8 => Instruction { mode: Addressing::Implied, opcode: OpCode::CLD, cycles: 2, extra: 0 },
            0xD9 => Instruction { mode: Addressing::AbsoluteY, opcode: OpCode::CMP, cycles: 4, extra: 1 },
            0xDA => Instruction { mode: Addressing::Implied, opcode: OpCode::XNOP, cycles: 2, extra: 0 },
            0xDB => Instruction { mode: Addressing::AbsoluteY, opcode: OpCode::XDCP, cycles: 7, extra: 0 },
            0xDC => Instruction { mode: Addressing::AbsoluteX, opcode: OpCode::XNOP, cycles: 4, extra: 1 },
            0xDD => Instruction { mode: Addressing::AbsoluteX, opcode: OpCode::CMP, cycles: 4, extra: 1 },
            0xDE => Instruction { mode: Addressing::AbsoluteX, opcode: OpCode::DEC, cycles: 6, extra: 0 },
            0xDF => Instruction { mode: Addressing::AbsoluteX, opcode: OpCode::XDCP, cycles: 7, extra: 0 },
            0xE0 => Instruction { mode: Addressing::Immediate, opcode: OpCode::CPX, cycles: 2, extra: 0 },
            0xE1 => Instruction { mode: Addressing::IndirectX, opcode: OpCode::SBC, cycles: 6, extra: 0 },
            0xE2 => Instruction { mode: Addressing::Immediate, opcode: OpCode::XNOP, cycles: 2, extra: 0 },
            0xE3 => Instruction { mode: Addressing::IndirectX, opcode: OpCode::XISC, cycles: 8, extra: 0 },
            0xE4 => Instruction { mode: Addressing::ZeroPage, opcode: OpCode::CPX, cycles: 3, extra: 0 },
            0xE5 => Instruction { mode: Addressing::ZeroPage, opcode: OpCode::SBC, cycles: 3, extra: 0 },
            0xE6 => Instruction { mode: Addressing::ZeroPage, opcode: OpCode::INC, cycles: 5, extra: 0 },
            0xE7 => Instruction { mode: Addressing::ZeroPage, opcode: OpCode::XISC, cycles: 5, extra: 0 },
            0xE8 => Instruction { mode: Addressing::Implied, opcode: OpCode::INX, cycles: 2, extra: 0 },
            0xE9 => Instruction { mode: Addressing::Immediate, opcode: OpCode::SBC, cycles: 2, extra: 0 },
            0xEA => Instruction { mode: Addressing::Implied, opcode: OpCode::NOP, cycles: 2, extra: 0 },
            0xEB => Instruction { mode: Addressing::Immediate, opcode: OpCode::XSBC, cycles: 2, extra: 0 },
            0xEC => Instruction { mode: Addressing::Absolute, opcode: OpCode::CPX, cycles: 4, extra: 0 },
            0xED => Instruction { mode: Addressing::Absolute, opcode: OpCode::SBC, cycles: 4, extra: 0 },
            0xEE => Instruction { mode: Addressing::Absolute, opcode: OpCode::INC, cycles: 6, extra: 0 },
            0xEF => Instruction { mode: Addressing::Absolute, opcode: OpCode::XISC, cycles: 6, extra: 0 },
            0xF0 => Instruction { mode: Addressing::Relative, opcode: OpCode::BEQ, cycles: 2, extra: 1 },
            0xF1 => Instruction { mode: Addressing::IndirectY, opcode: OpCode::SBC, cycles: 5, extra: 1 },
            0xF2 => Instruction { mode: Addressing::Implied, opcode: OpCode::JAM, cycles: 2, extra: 0 },
            0xF3 => Instruction { mode: Addressing::IndirectY, opcode: OpCode::XISC, cycles: 8, extra: 0 },
            0xF4 => Instruction { mode: Addressing::ZeroPageX, opcode: OpCode::XNOP, cycles: 4, extra: 0 },
            0xF5 => Instruction { mode: Addressing::ZeroPageX, opcode: OpCode::SBC, cycles: 4, extra: 0 },
            0xF6 => Instruction { mode: Addressing::ZeroPageX, opcode: OpCode::INC, cycles: 6, extra: 0 },
            0xF7 => Instruction { mode: Addressing::ZeroPageX, opcode: OpCode::XISC, cycles: 6, extra: 0 },
            0xF8 => Instruction { mode: Addressing::Implied, opcode: OpCode::SED, cycles: 2, extra: 0 },
            0xF9 => Instruction { mode: Addressing::AbsoluteY, opcode: OpCode::SBC, cycles: 4, extra: 1 },
            0xFA => Instruction { mode: Addressing::Implied, opcode: OpCode::XNOP, cycles: 2, extra: 0 },
            0xFB => Instruction { mode: Addressing::AbsoluteY, opcode: OpCode::XISC, cycles: 7, extra: 0 },
            0xFC => Instruction { mode: Addressing::AbsoluteX, opcode: OpCode::XNOP, cycles: 4, extra: 1 },
            0xFD => Instruction { mode: Addressing::AbsoluteX, opcode: OpCode::SBC, cycles: 4, extra: 1 },
            0xFE => Instruction { mode: Addressing::AbsoluteX, opcode: OpCode::INC, cycles: 7, extra: 0 },
            _ => Instruction { mode: Addressing::AbsoluteX, opcode: OpCode::XISC, cycles: 7, extra: 0 },
        }
    }

    /// Whether executing needs the byte at the operand address.
    pub fn needs_data(&self) -> (r: bool)
        ensures
            r == !address_only(self.opcode),
    {
        match self.opcode {
            OpCode::BCC | OpCode::BCS | OpCode::BEQ | OpCode::BMI | OpCode::BNE | OpCode::BPL
            | OpCode::BVC | OpCode::BVS | OpCode::JMP | OpCode::JSR | OpCode::XSAX | OpCode::XSHA
            | OpCode::XSHX | OpCode::XSHY | OpCode::STA | OpCode::STX | OpCode::STY | OpCode::XTAS => false,
            _ => true,
        }
    }
}

} // verus!
