use vstd::prelude::*;

verus! {

/// Bits of the processor status register, lowest first.
#[derive(Clone, Copy, PartialEq, Eq, Structural, Debug)]
pub enum Flag {
    Carry,
    Zero,
    InterruptDisable,
    Decimal,
    B1,
    B2,
    Overflow,
    Negative,
}

/// The eight-bit registers, and the program counter.
#[derive(Clone, Copy, PartialEq, Eq, Structural, Debug)]
pub enum Register {
    A,
    X,
    Y,
    P,
    PC,
    SP,
}

/// CPU registers; the status register is kept as its eight flags.
#[derive(Clone, Copy, PartialEq, Eq, Structural, Debug)]
pub struct Registers {
    pub accumulator: u8,
    pub x_index: u8,
    pub y_index: u8,
    pub carry: bool,
    pub zero: bool,
    pub interrupt_disable: bool,
    pub decimal: bool,
    pub b1: bool,
    pub b2: bool,
    pub overflow: bool,
    pub negative: bool,
    pub program_counter: u16,
    pub stack_pointer: u8,
}

pub open spec fn bit(b: bool, mask: u8) -> u8 {
    if b { mask } else { 0 }
}

/// The status byte of eight flags, carry in bit 0.
pub open spec fn status_byte(c: bool, z: bool, i: bool, d: bool, b1: bool, b2: bool, v: bool, n: bool) -> u8 {
    bit(c, 0x01) | bit(z, 0x02) | bit(i, 0x04) | bit(d, 0x08) | bit(b1, 0x10) | bit(b2, 0x20) | bit(v, 0x40) | bit(n, 0x80)
}

/// Composing the flags of a byte gives the byte back.
pub proof fn lemma_status_round_trip(p: u8)
    ensures
        status_byte(p & 0x01 != 0, p & 0x02 != 0, p & 0x04 != 0, p & 0x08 != 0,
            p & 0x10 != 0, p & 0x20 != 0, p & 0x40 != 0, p & 0x80 != 0) == p,
{
    assert(
        (if p & 0x01 != 0 { 0x01u8 } else { 0u8 }) | (if p & 0x02 != 0 { 0x02u8 } else { 0u8 })
        | (if p & 0x04 != 0 { 0x04u8 } else { 0u8 }) | (if p & 0x08 != 0 { 0x08u8 } else { 0u8 })
        | (if p & 0x10 != 0 { 0x10u8 } else { 0u8 }) | (if p & 0x20 != 0 { 0x20u8 } else { 0u8 })
        | (if p & 0x40 != 0 { 0x40u8 } else { 0u8 }) | (if p & 0x80 != 0 { 0x80u8 } else { 0u8 }) == p
    ) by (bit_vector);
}

/// The power-on status byte is 0x24: interrupts disabled and bit 5 set.
pub proof fn lemma_power_on_status()
    ensures
        Registers::new_spec().status() == 0x24,
{
    assert(0u8 | 0u8 | 0x04u8 | 0u8 | 0u8 | 0x20u8 | 0u8 | 0u8 == 0x24u8) by (bit_vector);
}

impl Registers {
    /// Power-on register values.
    pub open spec fn new_spec() -> Registers {
        Registers {
            accumulator: 0,
            x_index: 0,
            y_index: 0,
            carry: false,
            zero: false,
            interrupt_disable: true,
            decimal: false,
            b1: false,
            b2: true,
            overflow: false,
            negative: false,
            program_counter: 0,
            stack_pointer: 0xFD,
        }
    }

    pub open spec fn status(&self) -> u8 {
        status_byte(self.carry, self.zero, self.interrupt_disable, self.decimal,
            self.b1, self.b2, self.overflow, self.negative)
    }

    /// The value of an eight-bit register.
    pub open spec fn reg(&self, reg: Register) -> u8 {
        match reg {
            Register::A => self.accumulator,
            Register::X => self.x_index,
            Register::Y => self.y_index,
            Register::P => self.status(),
            Register::SP => self.stack_pointer,
            Register::PC => 0,
        }
    }

    pub open spec fn flag(&self, flag: Flag) -> bool {
        match flag {
            Flag::Carry => self.carry,
            Flag::Zero => self.zero,
            Flag::InterruptDisable => self.interrupt_disable,
            Flag::Decimal => self.decimal,
            Flag::B1 => self.b1,
            Flag::B2 => self.b2,
            Flag::Overflow => self.overflow,
            Flag::Negative => self.negative,
        }
    }

    /// Power-on state: SP = 0xFD, P = 0x24 (interrupts disabled), the rest
    /// zero.
    pub fn new() -> (r: Registers)
        ensures
            r == Registers::new_spec(),
            r.accumulator == 0,
            r.x_index == 0,
            r.y_index == 0,
            r.status() == 0x24,
            r.interrupt_disable && r.b2 && !r.carry && !r.zero && !r.decimal && !r.b1 && !r.overflow && !r.negative,
            r.program_counter == 0,
            r.stack_pointer == 0xFD,
    {
        let r = Registers {
            accumulator: 0,
            x_index: 0,
            y_index: 0,
            carry: false,
            zero: false,
            interrupt_disable: true,
            decimal: false,
            b1: false,
            b2: true,
            overflow: false,
            negative: false,
            program_counter: 0,
            stack_pointer: 0xFD,
        };
        proof {
            lemma_power_on_status();
        }
        r
    }

    fn status_value(&self) -> (r: u8)
        ensures
            r == self.status(),
    {
        (if self.carry { 0x01u8 } else { 0u8 }) | (if self.zero { 0x02u8 } else { 0u8 })
            | (if self.interrupt_disable { 0x04u8 } else { 0u8 }) | (if self.decimal { 0x08u8 } else { 0u8 })
            | (if self.b1 { 0x10u8 } else { 0u8 }) | (if self.b2 { 0x20u8 } else { 0u8 })
            | (if self.overflow { 0x40u8 } else { 0u8 }) | (if self.negative { 0x80u8 } else { 0u8 })
    }

    pub fn get(&self, reg: Register) -> (r: u8)
        requires
            reg != Register::PC,
        ensures
            r == self.reg(reg),
    {
        match reg {
            Register::A => self.accumulator,
            Register::X => self.x_index,
            Register::Y => self.y_index,
            Register::P => self.status_value(),
            Register::SP => self.stack_pointer,
            Register::PC => 0,
        }
    }

    /// Sets an eight-bit register; for P the flags take the bits of `val`.
    pub fn set(&mut self, reg: Register, val: u8)
        requires
            reg != Register::PC,
        ensures
            final(self).reg(reg) == val,
            final(self).program_counter == old(self).program_counter,
            forall|o: Register| o != reg && o != Register::PC ==> final(self).reg(o) == old(self).reg(o),
            reg != Register::P ==> final(self).status() == old(self).status()
                && forall|f: Flag| final(self).flag(f) == old(self).flag(f),
            reg == Register::P ==> final(self).carry == (val & 0x01 != 0) && final(self).zero == (val & 0x02 != 0)
                && final(self).interrupt_disable == (val & 0x04 != 0) && final(self).decimal == (val & 0x08 != 0)
                && final(self).b1 == (val & 0x10 != 0) && final(self).b2 == (val & 0x20 != 0)
                && final(self).overflow == (val & 0x40 != 0) && final(self).negative == (val & 0x80 != 0),
    {
        match reg {
            Register::A => self.accumulator = val,
            Register::X => self.x_index = val,
            Register::Y => self.y_index = val,
            Register::P => {
                self.carry = val & 0x01 != 0;
                self.zero = val & 0x02 != 0;
                self.interrupt_disable = val & 0x04 != 0;
                self.decimal = val & 0x08 != 0;
                self.b1 = val & 0x10 != 0;
                self.b2 = val & 0x20 != 0;
                self.overflow = val & 0x40 != 0;
                self.negative = val & 0x80 != 0;
                proof {
                    lemma_status_round_trip(val);
                }
            },
            Register::SP => self.stack_pointer = val,
            Register::PC => {},
        }
    }

    pub fn get_pc(&self) -> (r: u16)
        ensures
            r == self.program_counter,
    {
        self.program_counter
    }

    pub fn set_pc(&mut self, val: u16)
        ensures
            *final(self) == (Registers { program_counter: val, ..*old(self) }),
    {
        self.program_counter = val;
    }

    pub fn get_flag(&self, flag: Flag) -> (r: bool)
        ensures
            r == self.flag(flag),
    {
        match flag {
            Flag::Carry => self.carry,
            Flag::Zero => self.zero,
            Flag::InterruptDisable => self.interrupt_disable,
            Flag::Decimal => self.decimal,
            Flag::B1 => self.b1,
            Flag::B2 => self.b2,
            Flag::Overflow => self.overflow,
            Flag::Negative => self.negative,
        }
    }

    /// Sets or clears one flag, leaving everything else alone.
    pub fn set_flag(&mut self, flag: Flag, val: bool)
        ensures
            final(self).flag(flag) == val,
            forall|g: Flag| g != flag ==> final(self).flag(g) == old(self).flag(g),
            final(self).accumulator == old(self).accumulator,
            final(self).x_index == old(self).x_index,
            final(self).y_index == old(self).y_index,
            final(self).program_counter == old(self).program_counter,
            final(self).stack_pointer == old(self).stack_pointer,
    {
        match flag {
            Flag::Carry => self.carry = val,
            Flag::Zero => self.zero = val,
            Flag::InterruptDisable => self.interrupt_disable = val,
            Flag::Decimal => self.decimal = val,
            Flag::B1 => self.b1 = val,
            Flag::B2 => self.b2 = val,
            Flag::Overflow => self.overflow = val,
            Flag::Negative => self.negative = val,
        }
    }
}

} // verus!
