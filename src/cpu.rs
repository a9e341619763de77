pub mod instruction;
pub mod interrupt;
pub mod register;

use vstd::prelude::*;
use crate::system::System;
use instruction::{Addressing, Instruction, OpCode, Operand, OperandAddress, decode, operand_bytes};
use interrupt::Interrupt;
use register::{Register, Registers};

verus! {

pub const STACK_START: u16 = 0x0100;

/// Sum, carry out and signed overflow of `a + m + c`.
pub open spec fn adc_spec(a: u8, m: u8, c: bool) -> (u8, bool, bool) {
    let sum = a as int + m as int + if c { 1int } else { 0int };
    let r = (sum % 256) as u8;
    (r, sum >= 256, (a ^ r) & (m ^ r) & 0x80 != 0)
}

pub fn add_with_carry(a: u8, m: u8, c: bool) -> (r: (u8, bool, bool))
    ensures
        r == adc_spec(a, m, c),
{
    let sum: u16 = a as u16 + m as u16 + if c { 1u16 } else { 0u16 };
    let res = (sum % 256) as u8;
    (res, sum >= 256, (a ^ res) & (m ^ res) & 0x80 != 0)
}

/// Subtraction with borrow is addition of the complemented operand.
pub open spec fn sbc_spec(a: u8, m: u8, c: bool) -> (u8, bool, bool) {
    adc_spec(a, !m, c)
}

/// Target of a relative branch: the offset byte is signed and counts from
/// the address after the branch.
pub open spec fn branch_target(pc: u16, offset: u8) -> u16 {
    if offset < 0x80 { pc.wrapping_add(offset as u16) } else { pc.wrapping_sub((256 - offset as int) as u16) }
}

pub open spec fn page_crossed(a: u16, b: u16) -> bool {
    a & 0xFF00 != b & 0xFF00
}

/// Instructions after which execution continues with the next one in
/// memory.
pub open spec fn sequential(op: OpCode) -> bool {
    !(op == OpCode::BCC || op == OpCode::BCS || op == OpCode::BEQ || op == OpCode::BMI
        || op == OpCode::BNE || op == OpCode::BPL || op == OpCode::BVC || op == OpCode::BVS
        || op == OpCode::JMP || op == OpCode::JSR || op == OpCode::RTS || op == OpCode::RTI
        || op == OpCode::BRK || op == OpCode::JAM)
}

pub open spec fn is_branch(op: OpCode) -> bool {
    op == OpCode::BCC || op == OpCode::BCS || op == OpCode::BEQ || op == OpCode::BMI
        || op == OpCode::BNE || op == OpCode::BPL || op == OpCode::BVC || op == OpCode::BVS
}

/// Whether a branch of kind `op` is taken under the flags of `r`.
pub open spec fn branch_taken(op: OpCode, r: Registers) -> bool {
    match op {
        OpCode::BCC => !r.carry,
        OpCode::BCS => r.carry,
        OpCode::BEQ => r.zero,
        OpCode::BMI => r.negative,
        OpCode::BNE => !r.zero,
        OpCode::BPL => !r.negative,
        OpCode::BVC => !r.overflow,
        OpCode::BVS => r.overflow,
        _ => false,
    }
}

/// Registers after loading `v` into A and setting Z and N from it.
pub open spec fn with_a(r: Registers, v: u8) -> Registers {
    Registers { accumulator: v, zero: v == 0, negative: v & 0x80 != 0, ..r }
}

pub open spec fn with_x(r: Registers, v: u8) -> Registers {
    Registers { x_index: v, zero: v == 0, negative: v & 0x80 != 0, ..r }
}

pub open spec fn with_y(r: Registers, v: u8) -> Registers {
    Registers { y_index: v, zero: v == 0, negative: v & 0x80 != 0, ..r }
}

pub open spec fn with_zn(r: Registers, v: u8) -> Registers {
    Registers { zero: v == 0, negative: v & 0x80 != 0, ..r }
}

/// The registers after a compare of `reg` with `m`: C when reg >= m, Z and
/// N from reg - m.
pub open spec fn compared(r: Registers, reg: u8, m: u8) -> Registers {
    Registers { carry: reg >= m, ..with_zn(r, reg.wrapping_sub(m)) }
}

/// The registers after ADC of `m`.
pub open spec fn added(r: Registers, m: u8) -> Registers {
    let s = adc_spec(r.accumulator, m, r.carry);
    Registers { carry: s.1, overflow: s.2, ..with_a(r, s.0) }
}

/// Effective address of an operand in `mode`, from the bytes after the
/// opcode at PC (valid where `operand_pure` holds).
pub open spec fn operand_address(c: &CPU, mode: Addressing) -> OperandAddress {
    let pc = c.registers.program_counter;
    let b0 = c.byte_at(pc);
    let word = c.byte_at(pc) as u16 | ((c.byte_at(pc.wrapping_add(1)) as u16) << 8);
    let x = c.registers.x_index;
    let y = c.registers.y_index;
    match mode {
        Addressing::Accumulator => OperandAddress(0, mode, false),
        Addressing::Implied => OperandAddress(0, mode, false),
        Addressing::Immediate => OperandAddress(pc, mode, false),
        Addressing::ZeroPage => OperandAddress(b0 as u16, mode, false),
        Addressing::ZeroPageX => OperandAddress(b0.wrapping_add(x) as u16, mode, false),
        Addressing::ZeroPageY => OperandAddress(b0.wrapping_add(y) as u16, mode, false),
        Addressing::Absolute => OperandAddress(word, mode, false),
        Addressing::AbsoluteX => {
            let a = word.wrapping_add(x as u16);
            OperandAddress(a, mode, page_crossed(a, word))
        },
        Addressing::AbsoluteY => {
            let a = word.wrapping_add(y as u16);
            OperandAddress(a, mode, page_crossed(a, word))
        },
        Addressing::Indirect => {
            let hi_at = if word & 0x00FF == 0x00FF { word & 0xFF00 } else { word.wrapping_add(1) };
            OperandAddress(c.byte_at(word) as u16 | ((c.byte_at(hi_at) as u16) << 8), mode, false)
        },
        Addressing::IndirectX => {
            let p = b0.wrapping_add(x);
            OperandAddress(c.byte_at(p as u16) as u16 | ((c.byte_at(p.wrapping_add(1) as u16) as u16) << 8), mode, false)
        },
        Addressing::IndirectY => {
            let base = c.byte_at(b0 as u16) as u16 | ((c.byte_at(b0.wrapping_add(1) as u16) as u16) << 8);
            let a = base.wrapping_add(y as u16);
            OperandAddress(a, mode, page_crossed(a, base))
        },
        Addressing::Relative => {
            let next = pc.wrapping_add(1);
            let a = branch_target(next, b0);
            OperandAddress(a, mode, page_crossed(a, pc.wrapping_sub(1)))
        },
    }
}

/// Whether every byte that forming the address in `mode` reads can be read
/// without side effects.
pub open spec fn operand_pure(c: &CPU, mode: Addressing) -> bool {
    let pc = c.registers.program_counter;
    let word = c.byte_at(pc) as u16 | ((c.byte_at(pc.wrapping_add(1)) as u16) << 8);
    match mode {
        Addressing::Accumulator | Addressing::Implied => true,
        Addressing::Absolute | Addressing::AbsoluteX | Addressing::AbsoluteY =>
            c.pure_at(pc) && c.pure_at(pc.wrapping_add(1)),
        Addressing::Indirect => c.pure_at(pc) && c.pure_at(pc.wrapping_add(1)) && c.pure_at(word)
            && c.pure_at(if word & 0x00FF == 0x00FF { word & 0xFF00 } else { word.wrapping_add(1) }),
        _ => c.pure_at(pc),
    }
}

/// ADC and SBC: the result is (A + M + C) mod 256, C is set exactly when
/// A + M + C reaches 256, V is ((A ^ r) & (M ^ r) & 0x80) != 0; SBC is
/// A - M - (1 - C) mod 256 with C set exactly when no borrow occurs.
pub proof fn lemma_adc_sbc(a: u8, m: u8, c: bool)
    ensures
        adc_spec(a, m, c).0 as int == (a as int + m as int + if c { 1int } else { 0int }) % 256,
        adc_spec(a, m, c).1 == (a as int + m as int + if c { 1int } else { 0int } >= 256),
        adc_spec(a, m, c).2 == ((a ^ adc_spec(a, m, c).0) & (m ^ adc_spec(a, m, c).0) & 0x80 != 0),
        sbc_spec(a, m, c).0 as int == (a as int - m as int - if c { 0int } else { 1int }) % 256,
        sbc_spec(a, m, c).1 == (a as int >= m as int + if c { 0int } else { 1int }),
{
    assert(!m == 255u8 - m) by (bit_vector);
}

/// JMP through a pointer whose low byte is 0xFF takes the high byte of the
/// target from the start of the same page.
pub proof fn lemma_indirect_page_wrap(c: &CPU)
    requires
        c.byte_at(c.registers.program_counter) == 0xFF,
    ensures
        ({
            let pc = c.registers.program_counter;
            let ptr = 0xFFu16 | ((c.byte_at(pc.wrapping_add(1)) as u16) << 8);
            operand_address(c, Addressing::Indirect).0
                == c.byte_at(ptr) as u16 | ((c.byte_at(ptr & 0xFF00) as u16) << 8)
        }),
{
    let hi = c.byte_at(c.registers.program_counter.wrapping_add(1)) as u16;
    assert((0xFFu16 | (hi << 8)) & 0x00FF == 0x00FF) by (bit_vector);
    assert(0xFFu8 as u16 == 0xFFu16);
}

/// The CPU state right after the opcode byte at PC has been fetched.
pub open spec fn after_fetch(o: &CPU) -> CPU {
    CPU {
        registers: Registers { program_counter: o.registers.program_counter.wrapping_add(1), ..o.registers },
        system: o.system,
        branched: false,
        frame_ready: o.frame_ready,
        steps: o.steps,
    }
}

/// The instruction at PC of `o`.
pub open spec fn next_instruction(o: &CPU) -> Instruction {
    decode(o.byte_at(o.registers.program_counter))
}

/// Whether the opcode and the bytes that form its operand address can be
/// read without side effects.
#[verifier::opaque]
pub open spec fn execute_pure(o: &CPU) -> bool {
    o.pure_at(o.registers.program_counter) && operand_pure(&after_fetch(o), next_instruction(o).mode)
}

/// PC and cycle count after one instruction from `o`: sequential
/// instructions move PC past themselves and take their base cycles plus the
/// page-cross extra; branches take one more when taken and one more again
/// across a page; JMP lands on its operand; JAM gives `Err`.
#[verifier::opaque]
pub open spec fn execute_pc_post(o: &CPU, f: Registers, r: Result<u16, Halt>) -> bool {
    let pc = o.registers.program_counter;
    let ins = next_instruction(o);
    let op = operand_address(&after_fetch(o), ins.mode);
    let crossed: u16 = if op.2 { 1 } else { 0 };
    execute_pure(o) ==> {
        &&& sequential(ins.opcode) ==> f.program_counter == pc.wrapping_add((1 + operand_bytes(ins.mode)) as u16)
            && r == Ok::<u16, Halt>((ins.cycles as u16 + ins.extra as u16 * crossed) as u16)
        &&& is_branch(ins.opcode) ==> f.program_counter
                == (if branch_taken(ins.opcode, o.registers) { op.0 } else { pc.wrapping_add(2) })
            && r == Ok::<u16, Halt>((ins.cycles as u16
                + if branch_taken(ins.opcode, o.registers) { 1 + crossed } else { 0 }) as u16)
        &&& ins.opcode == OpCode::JMP ==> f.program_counter == op.0
        &&& (ins.opcode == OpCode::JAM) == r is Err
    }
}

/// RAM after one instruction from `o`: STA, STX and STY to RAM store their
/// register there.
#[verifier::opaque]
pub open spec fn execute_ram_post(o: &CPU, ram: Seq<u8>) -> bool {
    let ins = next_instruction(o);
    let op = operand_address(&after_fetch(o), ins.mode);
    let v = if ins.opcode == OpCode::STA {
        o.registers.accumulator
    } else if ins.opcode == OpCode::STX {
        o.registers.x_index
    } else {
        o.registers.y_index
    };
    execute_pure(o) && (ins.opcode == OpCode::STA || ins.opcode == OpCode::STX || ins.opcode == OpCode::STY)
        && ins.mode != Addressing::Immediate && op.0 <= 0x1FFF
        ==> ram == o.system.memory.ram@.update(op.0 as int % 0x800, v)
}

/// Instructions that leave the cycle counter alone: all but BRK and writes
/// to the OAM DMA port.
#[verifier::opaque]
pub open spec fn execute_keeps_cycles(o: &CPU) -> bool {
    let ins = next_instruction(o);
    execute_pure(o) && ins.opcode != OpCode::BRK && operand_address(&after_fetch(o), ins.mode).0 != 0x4014
}

/// No interrupt is taken before the next instruction.
pub open spec fn no_interrupt(o: &CPU) -> bool {
    !o.system.ppu.nmi.pending && !(o.system.poll_irq_spec() && !o.registers.interrupt_disable)
}

/// The CPU stopped on a JAM opcode.
#[derive(Clone, Copy, PartialEq, Eq, Structural, Debug)]
pub struct Halt {
    pub pc: u16,
    pub opcode: u8,
}

pub struct CPU {
    pub registers: Registers,
    pub system: System,
    pub branched: bool,
    /// Set when the PPU finishes a frame.
    pub frame_ready: bool,
    /// Steps run so far (wrapping).
    pub steps: u64,
}

/// Upper bound on the instructions run while waiting for one frame.
pub const FRAME_STEP_LIMIT: u32 = 100_000;

impl CPU {
    pub open spec fn wf(&self) -> bool {
        self.system.wf()
    }

    /// Whether reading `a` has no side effects.
    pub open spec fn pure_at(&self, a: u16) -> bool {
        self.system.peek(a) is Some
    }

    pub open spec fn byte_at(&self, a: u16) -> u8 {
        self.system.peek(a)->0
    }

    pub open spec fn zn(r: Registers, res: u8) -> bool {
        r.zero == (res == 0) && r.negative == (res & 0x80 != 0)
    }

    pub fn new(system: System) -> (r: CPU)
        requires
            system.wf(),
        ensures
            r.wf(),
            r.system == system,
            r.registers == Registers::new_spec(),
            !r.branched,
    {
        CPU { registers: Registers::new(), system, branched: false, frame_ready: false, steps: 0 }
    }

    /// Power-on registers, with PC from the reset vector at 0xFFFC.
    pub fn reset(&mut self)
        requires
            old(self).wf(),
        ensures
            final(self).wf(),
            final(self).registers == (Registers {
                program_counter: old(self).byte_at(0xFFFC) as u16 | ((old(self).byte_at(0xFFFD) as u16) << 8),
                ..Registers::new_spec()
            }),
            final(self).system == old(self).system,
    {
        self.registers = Registers::new();
        let pc = self.system.readu16(0xFFFC);
        self.registers.set_pc(pc);
    }

    /// Resets the CPU; the host then calls `step` or `step_frame`.
    pub fn start(&mut self)
        requires
            old(self).wf(),
        ensures
            final(self).wf(),
            final(self).registers.stack_pointer == 0xFD,
            final(self).registers.status() == 0x24,
            final(self).registers.program_counter
                == old(self).byte_at(0xFFFC) as u16 | ((old(self).byte_at(0xFFFD) as u16) << 8),
    {
        self.reset();
        proof {
            register::lemma_power_on_status();
        }
    }

    /// Byte at PC; PC moves on.
    fn read(&mut self) -> (r: u8)
        requires
            old(self).wf(),
        ensures
            final(self).wf(),
            final(self).registers == (Registers {
                program_counter: old(self).registers.program_counter.wrapping_add(1), ..old(self).registers }),
            old(self).pure_at(old(self).registers.program_counter) ==>
                r == old(self).byte_at(old(self).registers.program_counter) && final(self).system == old(self).system,
            final(self).branched == old(self).branched,
            final(self).frame_ready == old(self).frame_ready,
            final(self).steps == old(self).steps,
            final(self).system.cycles == old(self).system.cycles,
    {
        let res = self.system.read(self.registers.get_pc());
        self.increment_pc(1);
        res
    }

    /// Little-endian word at PC; PC moves on by two.
    fn readu16(&mut self) -> (r: u16)
        requires
            old(self).wf(),
        ensures
            final(self).wf(),
            final(self).registers == (Registers {
                program_counter: old(self).registers.program_counter.wrapping_add(2), ..old(self).registers }),
            ({
                let pc = old(self).registers.program_counter;
                old(self).pure_at(pc) && old(self).pure_at(pc.wrapping_add(1)) ==>
                    r == old(self).byte_at(pc) as u16 | ((old(self).byte_at(pc.wrapping_add(1)) as u16) << 8)
                    && final(self).system == old(self).system
            }),
            final(self).branched == old(self).branched,
            final(self).system.cycles == old(self).system.cycles,
    {
        let res = self.system.readu16(self.registers.get_pc());
        self.increment_pc(2);
        res
    }

    fn increment_pc(&mut self, i: u16)
        ensures
            final(self).registers == (Registers {
                program_counter: old(self).registers.program_counter.wrapping_add(i), ..old(self).registers }),
            final(self).system == old(self).system,
            final(self).branched == old(self).branched,
            final(self).frame_ready == old(self).frame_ready,
            final(self).steps == old(self).steps,
    {
        let pc = self.registers.get_pc().wrapping_add(i);
        self.registers.set_pc(pc);
    }

    /// Writes at 0x0100 + SP, then SP moves down.
    fn stack_push(&mut self, data: u8)
        requires
            old(self).wf(),
        ensures
            final(self).wf(),
            final(self).registers == (Registers {
                stack_pointer: old(self).registers.stack_pointer.wrapping_sub(1), ..old(self).registers }),
            final(self).system.memory.ram@ == old(self).system.memory.ram@.update(
                0x100 + old(self).registers.stack_pointer as int, data),
            final(self).system == (System { memory: final(self).system.memory, ..old(self).system }),
            final(self).branched == old(self).branched,
    {
        let sp = self.registers.stack_pointer;
        self.system.write(STACK_START + sp as u16, data);
        self.registers.stack_pointer = sp.wrapping_sub(1);
    }

    /// SP moves up, then reads at 0x0100 + SP.
    fn stack_pop(&mut self) -> (r: u8)
        requires
            old(self).wf(),
        ensures
            final(self).wf(),
            final(self).registers == (Registers {
                stack_pointer: old(self).registers.stack_pointer.wrapping_add(1), ..old(self).registers }),
            r == old(self).system.memory.ram@[0x100 + old(self).registers.stack_pointer.wrapping_add(1) as int],
            final(self).system == old(self).system,
            final(self).branched == old(self).branched,
    {
        let sp = self.registers.stack_pointer.wrapping_add(1);
        self.registers.stack_pointer = sp;
        self.system.read(STACK_START + sp as u16)
    }

    /// Pushes the high byte, then the low byte.
    fn stack_pushu16(&mut self, data: u16)
        requires
            old(self).wf(),
        ensures
            final(self).wf(),
            final(self).registers == (Registers {
                stack_pointer: old(self).registers.stack_pointer.wrapping_sub(2), ..old(self).registers }),
            final(self).system == (System { memory: final(self).system.memory, ..old(self).system }),
            final(self).system.memory.ram@ == old(self).system.memory.ram@
                .update(0x100 + old(self).registers.stack_pointer as int, (data >> 8) as u8)
                .update(0x100 + old(self).registers.stack_pointer.wrapping_sub(1) as int, (data & 0xFF) as u8),
            final(self).branched == old(self).branched,
    {
        self.stack_push((data >> 8) as u8);
        self.stack_push((data & 0xFF) as u8);
    }

    /// Pops the low byte, then the high byte.
    fn stack_popu16(&mut self) -> (r: u16)
        requires
            old(self).wf(),
        ensures
            final(self).wf(),
            final(self).registers == (Registers {
                stack_pointer: old(self).registers.stack_pointer.wrapping_add(2), ..old(self).registers }),
            final(self).system == old(self).system,
            final(self).branched == old(self).branched,
    {
        let lo = self.stack_pop() as u16;
        let hi = self.stack_pop() as u16;
        lo | (hi << 8)
    }

    /// Zero-page operand plus `index`, wrapping within page zero.
    fn zero_page_addr(&mut self, index: u8) -> (r: u16)
        requires
            old(self).wf(),
        ensures
            final(self).wf(),
            final(self).registers == (Registers {
                program_counter: old(self).registers.program_counter.wrapping_add(1), ..old(self).registers }),
            old(self).pure_at(old(self).registers.program_counter) ==>
                r == old(self).byte_at(old(self).registers.program_counter).wrapping_add(index) as u16
                && final(self).system == old(self).system,
            final(self).branched == old(self).branched,
            final(self).system.cycles == old(self).system.cycles,
    {
        self.read().wrapping_add(index) as u16
    }

    /// Absolute operand plus `index`, and whether that crossed a page.
    fn absolute_addr(&mut self, index: u8) -> (r: (u16, bool))
        requires
            old(self).wf(),
        ensures
            final(self).wf(),
            final(self).registers == (Registers {
                program_counter: old(self).registers.program_counter.wrapping_add(2), ..old(self).registers }),
            ({
                let pc = old(self).registers.program_counter;
                let word = old(self).byte_at(pc) as u16 | ((old(self).byte_at(pc.wrapping_add(1)) as u16) << 8);
                old(self).pure_at(pc) && old(self).pure_at(pc.wrapping_add(1)) ==>
                    r.0 == word.wrapping_add(index as u16) && r.1 == page_crossed(r.0, word)
                    && final(self).system == old(self).system
            }),
            final(self).branched == old(self).branched,
            final(self).system.cycles == old(self).system.cycles,
    {
        let base = self.readu16();
        let addr = base.wrapping_add(index as u16);
        (addr, addr & 0xFF00 != base & 0xFF00)
    }

    /// JMP's indirect operand: with a pointer ending in 0xFF the high byte
    /// comes from the start of the same page.
    fn indirect_addr(&mut self) -> (r: u16)
        requires
            old(self).wf(),
        ensures
            final(self).wf(),
            final(self).registers == (Registers {
                program_counter: old(self).registers.program_counter.wrapping_add(2), ..old(self).registers }),
            operand_pure(old(self), Addressing::Indirect) ==>
                r == operand_address(old(self), Addressing::Indirect).0 && final(self).system == old(self).system,
            final(self).branched == old(self).branched,
            final(self).system.cycles == old(self).system.cycles,
    {
        let base = self.readu16();
        let hi_at = if base & 0x00FF == 0x00FF { base & 0xFF00 } else { base.wrapping_add(1) };
        let lo = self.system.read(base) as u16;
        let hi = self.system.read(hi_at) as u16;
        lo | (hi << 8)
    }

    /// (zp,X): pointer in page zero at operand + X.
    fn indirect_x_addr(&mut self) -> (r: u16)
        requires
            old(self).wf(),
        ensures
            final(self).wf(),
            final(self).registers == (Registers {
                program_counter: old(self).registers.program_counter.wrapping_add(1), ..old(self).registers }),
            operand_pure(old(self), Addressing::IndirectX) ==>
                r == operand_address(old(self), Addressing::IndirectX).0 && final(self).system == old(self).system,
            final(self).branched == old(self).branched,
            final(self).system.cycles == old(self).system.cycles,
    {
        let p = self.read().wrapping_add(self.registers.x_index);
        let lo = self.system.read(p as u16) as u16;
        let hi = self.system.read(p.wrapping_add(1) as u16) as u16;
        lo | (hi << 8)
    }

    /// (zp),Y: pointer in page zero at the operand, plus Y.
    fn indirect_y_addr(&mut self) -> (r: (u16, bool))
        requires
            old(self).wf(),
        ensures
            final(self).wf(),
            final(self).registers == (Registers {
                program_counter: old(self).registers.program_counter.wrapping_add(1), ..old(self).registers }),
            operand_pure(old(self), Addressing::IndirectY) ==>
                r.0 == operand_address(old(self), Addressing::IndirectY).0
                && r.1 == operand_address(old(self), Addressing::IndirectY).2
                && final(self).system == old(self).system,
            final(self).branched == old(self).branched,
            final(self).system.cycles == old(self).system.cycles,
    {
        let p = self.read();
        let lo = self.system.read(p as u16) as u16;
        let hi = self.system.read(p.wrapping_add(1) as u16) as u16;
        let base = lo | (hi << 8);
        let addr = base.wrapping_add(self.registers.y_index as u16);
        (addr, addr & 0xFF00 != base & 0xFF00)
    }

    /// Branch target from the signed offset byte, and whether it lies on
    /// another page than the branch instruction itself.
    fn relative_addr(&mut self) -> (r: (u16, bool))
        requires
            old(self).wf(),
        ensures
            final(self).wf(),
            final(self).registers == (Registers {
                program_counter: old(self).registers.program_counter.wrapping_add(1), ..old(self).registers }),
            operand_pure(old(self), Addressing::Relative) ==>
                r.0 == operand_address(old(self), Addressing::Relative).0
                && r.1 == operand_address(old(self), Addressing::Relative).2
                && final(self).system == old(self).system,
            final(self).branched == old(self).branched,
            final(self).system.cycles == old(self).system.cycles,
    {
        let origin = self.registers.get_pc().wrapping_sub(1);
        let delta = self.read();
        let next = self.registers.get_pc();
        let addr = if delta < 0x80 { next.wrapping_add(delta as u16) } else { next.wrapping_sub(256 - delta as u16) };
        (addr, addr & 0xFF00 != origin & 0xFF00)
    }

    /// Forms the operand address of `mode` from the bytes after the opcode,
    /// moving PC past them.
    fn get_operand_addr(&mut self, mode: Addressing) -> (r: OperandAddress)
        requires
            old(self).wf(),
        ensures
            final(self).wf(),
            final(self).registers == (Registers {
                program_counter: old(self).registers.program_counter.wrapping_add(operand_bytes(mode) as u16),
                ..old(self).registers }),
            r.1 == mode,
            operand_pure(old(self), mode) ==> r == operand_address(old(self), mode) && final(self).system == old(self).system,
            final(self).branched == old(self).branched,
            final(self).system.cycles == old(self).system.cycles,
    {
        let x = self.registers.x_index;
        let y = self.registers.y_index;
        match mode {
            Addressing::Accumulator => OperandAddress(0, mode, false),
            Addressing::Implied => OperandAddress(0, mode, false),
            Addressing::Immediate => {
                let pc = self.registers.get_pc();
                self.increment_pc(1);
                OperandAddress(pc, mode, false)
            },
            Addressing::ZeroPage => OperandAddress(self.zero_page_addr(0), mode, false),
            Addressing::ZeroPageX => OperandAddress(self.zero_page_addr(x), mode, false),
            Addressing::ZeroPageY => OperandAddress(self.zero_page_addr(y), mode, false),
            Addressing::Absolute => {
                let (a, _) = self.absolute_addr(0);
                OperandAddress(a, mode, false)
            },
            Addressing::AbsoluteX => {
                let (a, c) = self.absolute_addr(x);
                OperandAddress(a, mode, c)
            },
            Addressing::AbsoluteY => {
                let (a, c) = self.absolute_addr(y);
                OperandAddress(a, mode, c)
            },
            Addressing::Indirect => OperandAddress(self.indirect_addr(), mode, false),
            Addressing::IndirectX => OperandAddress(self.indirect_x_addr(), mode, false),
            Addressing::IndirectY => {
                let (a, c) = self.indirect_y_addr();
                OperandAddress(a, mode, c)
            },
            Addressing::Relative => {
                let (a, c) = self.relative_addr();
                OperandAddress(a, mode, c)
            },
        }
    }

    /// The operand of an instruction: its address and, where the
    /// instruction reads it, the byte there (A for the accumulator mode).
    fn get_operand(&mut self, mode: Addressing, read_data: bool) -> (r: Operand)
        requires
            old(self).wf(),
        ensures
            final(self).wf(),
            final(self).registers == (Registers {
                program_counter: old(self).registers.program_counter.wrapping_add(operand_bytes(mode) as u16),
                ..old(self).registers }),
            r.0.1 == mode,
            operand_pure(old(self), mode) ==> r.0 == operand_address(old(self), mode),
            mode == Addressing::Accumulator ==> r.1 == old(self).registers.accumulator,
            mode == Addressing::Immediate && old(self).pure_at(old(self).registers.program_counter) ==>
                r.1 == old(self).byte_at(old(self).registers.program_counter) && final(self).system == old(self).system,
            read_data && operand_pure(old(self), mode) && old(self).pure_at(r.0.0)
                && mode != Addressing::Accumulator && mode != Addressing::Implied
                && mode != Addressing::Indirect && mode != Addressing::Relative
                ==> r.1 == old(self).byte_at(r.0.0) && final(self).system == old(self).system,
            !read_data && operand_pure(old(self), mode) && mode != Addressing::Immediate ==> final(self).system == old(self).system,
            (mode == Addressing::Implied || mode == Addressing::Accumulator) ==> final(self).system == old(self).system,
            final(self).branched == old(self).branched,
            final(self).system.cycles == old(self).system.cycles,
    {
        let addr = self.get_operand_addr(mode);
        match mode {
            Addressing::Accumulator => Operand(addr, self.registers.accumulator),
            Addressing::Implied | Addressing::Indirect | Addressing::Relative => Operand(addr, 0),
            Addressing::Immediate => {
                let data = self.system.read(addr.0);
                Operand(addr, data)
            },
            _ => {
                if read_data {
                    let data = self.system.read(addr.0);
                    Operand(addr, data)
                } else {
                    Operand(addr, 0)
                }
            },
        }
    }

    /// LDA: A from the operand.
    fn lda(&mut self, data: u8)
        requires
            old(self).wf(),
        ensures
            final(self).wf(),
            final(self).registers == with_a(old(self).registers, data),
            final(self).system == old(self).system,
            final(self).branched == old(self).branched,
    {
        self.registers.accumulator = data;
        self.update_zero_negative(data);
    }

    /// LDX: X from the operand.
    fn ldx(&mut self, data: u8)
        requires
            old(self).wf(),
        ensures
            final(self).wf(),
            final(self).registers == with_x(old(self).registers, data),
            final(self).system == old(self).system,
            final(self).branched == old(self).branched,
    {
        self.registers.x_index = data;
        self.update_zero_negative(data);
    }

    /// LDY: Y from the operand.
    fn ldy(&mut self, data: u8)
        requires
            old(self).wf(),
        ensures
            final(self).wf(),
            final(self).registers == with_y(old(self).registers, data),
            final(self).system == old(self).system,
            final(self).branched == old(self).branched,
    {
        self.registers.y_index = data;
        self.update_zero_negative(data);
    }

    /// LAX: A and X from the operand.
    fn lax(&mut self, data: u8)
        requires
            old(self).wf(),
        ensures
            final(self).wf(),
            final(self).registers == with_x(with_a(old(self).registers, data), data),
            final(self).system == old(self).system,
            final(self).branched == old(self).branched,
    {
        self.registers.accumulator = data;
        self.registers.x_index = data;
        self.update_zero_negative(data);
    }

    /// LAS: A, X and SP from the operand and SP.
    fn las(&mut self, data: u8)
        requires
            old(self).wf(),
        ensures
            final(self).wf(),
            final(self).registers == (Registers { stack_pointer: data & old(self).registers.stack_pointer, ..with_x(with_a(old(self).registers, data & old(self).registers.stack_pointer), data & old(self).registers.stack_pointer) }),
            final(self).system == old(self).system,
            final(self).branched == old(self).branched,
    {
        let v = data & self.registers.stack_pointer;
        self.registers.accumulator = v;
        self.registers.x_index = v;
        self.registers.stack_pointer = v;
        self.update_zero_negative(v);
    }

    /// AND: A & operand.
    fn and(&mut self, data: u8)
        requires
            old(self).wf(),
        ensures
            final(self).wf(),
            final(self).registers == with_a(old(self).registers, (old(self).registers.accumulator & data)),
            final(self).system == old(self).system,
            final(self).branched == old(self).branched,
    {
        let v = self.registers.accumulator & data;
        self.registers.accumulator = v;
        self.update_zero_negative(v);
    }

    /// ORA: A | operand.
    fn ora(&mut self, data: u8)
        requires
            old(self).wf(),
        ensures
            final(self).wf(),
            final(self).registers == with_a(old(self).registers, (old(self).registers.accumulator | data)),
            final(self).system == old(self).system,
            final(self).branched == old(self).branched,
    {
        let v = self.registers.accumulator | data;
        self.registers.accumulator = v;
        self.update_zero_negative(v);
    }

    /// EOR: A ^ operand.
    fn eor(&mut self, data: u8)
        requires
            old(self).wf(),
        ensures
            final(self).wf(),
            final(self).registers == with_a(old(self).registers, (old(self).registers.accumulator ^ data)),
            final(self).system == old(self).system,
            final(self).branched == old(self).branched,
    {
        let v = self.registers.accumulator ^ data;
        self.registers.accumulator = v;
        self.update_zero_negative(v);
    }

    /// ANC: AND, then C from bit 7 of the result.
    fn anc(&mut self, data: u8)
        requires
            old(self).wf(),
        ensures
            final(self).wf(),
            final(self).registers == (Registers { carry: (old(self).registers.accumulator & data) & 0x80 != 0, ..with_a(old(self).registers, (old(self).registers.accumulator & data)) }),
            final(self).system == old(self).system,
            final(self).branched == old(self).branched,
    {
        let v = self.registers.accumulator & data;
        self.registers.accumulator = v;
        self.update_zero_negative(v);
        self.registers.carry = v & 0x80 != 0;
    }

    /// ANE: A & X & operand, flags untouched.
    fn ane(&mut self, data: u8)
        requires
            old(self).wf(),
        ensures
            final(self).wf(),
            final(self).registers == (Registers { accumulator: old(self).registers.accumulator & old(self).registers.x_index & data, ..old(self).registers }),
            final(self).system == old(self).system,
            final(self).branched == old(self).branched,
    {
        self.registers.accumulator = self.registers.accumulator & self.registers.x_index & data;
    }

    /// LXA: A and X from A & operand.
    fn lxa(&mut self, data: u8)
        requires
            old(self).wf(),
        ensures
            final(self).wf(),
            final(self).registers == with_x(with_a(old(self).registers, (old(self).registers.accumulator & data)), (old(self).registers.accumulator & data)),
            final(self).system == old(self).system,
            final(self).branched == old(self).branched,
    {
        let v = self.registers.accumulator & data;
        self.registers.accumulator = v;
        self.registers.x_index = v;
        self.update_zero_negative(v);
    }

    /// ALR: AND, then shift A right.
    fn alr(&mut self, data: u8)
        requires
            old(self).wf(),
        ensures
            final(self).wf(),
            final(self).registers == (Registers { carry: (old(self).registers.accumulator & data) & 1 == 1, ..with_a(old(self).registers, (old(self).registers.accumulator & data) >> 1) }),
            final(self).system == old(self).system,
            final(self).branched == old(self).branched,
    {
        let v = self.registers.accumulator & data;
        let r = v >> 1;
        self.registers.accumulator = r;
        self.update_zero_negative(r);
        self.registers.carry = v & 1 == 1;
    }

    /// ARR: AND, then rotate A right; C from bit 6, V from bits 6 xor 5.
    fn arr(&mut self, data: u8)
        requires
            old(self).wf(),
        ensures
            final(self).wf(),
            final(self).registers == ({ let r = ((old(self).registers.accumulator & data) >> 1) | if old(self).registers.carry { 0x80u8 } else { 0u8 }; Registers { carry: r & 0x40 != 0, overflow: ((r >> 6) ^ (r >> 5)) & 1 == 1, ..with_a(old(self).registers, r) } }),
            final(self).system == old(self).system,
            final(self).branched == old(self).branched,
    {
        let v = self.registers.accumulator & data;
        let r = (v >> 1) | if self.registers.carry { 0x80u8 } else { 0u8 };
        self.registers.accumulator = r;
        self.update_zero_negative(r);
        self.registers.carry = r & 0x40 != 0;
        self.registers.overflow = ((r >> 6) ^ (r >> 5)) & 1 == 1;
    }

    /// SBX: X = (A & X) - operand, C when no borrow.
    fn sbx(&mut self, data: u8)
        requires
            old(self).wf(),
        ensures
            final(self).wf(),
            final(self).registers == (Registers { carry: (old(self).registers.accumulator & old(self).registers.x_index) >= data, ..with_x(old(self).registers, (old(self).registers.accumulator & old(self).registers.x_index).wrapping_sub(data)) }),
            final(self).system == old(self).system,
            final(self).branched == old(self).branched,
    {
        let v = self.registers.accumulator & self.registers.x_index;
        let r = v.wrapping_sub(data);
        self.registers.x_index = r;
        self.update_zero_negative(r);
        self.registers.carry = v >= data;
    }

    /// ADC: A + operand + C.
    fn adc(&mut self, data: u8)
        requires
            old(self).wf(),
        ensures
            final(self).wf(),
            final(self).registers == added(old(self).registers, data),
            final(self).system == old(self).system,
            final(self).branched == old(self).branched,
    {
        let (r, c, v) = add_with_carry(self.registers.accumulator, data, self.registers.carry);
        self.registers.accumulator = r;
        self.update_zero_negative(r);
        self.registers.carry = c;
        self.registers.overflow = v;
    }

    /// SBC: ADC of the complemented operand.
    fn sbc(&mut self, data: u8)
        requires
            old(self).wf(),
        ensures
            final(self).wf(),
            final(self).registers == added(old(self).registers, !data),
            final(self).system == old(self).system,
            final(self).branched == old(self).branched,
    {
        self.adc(!data);
    }

    /// BIT: Z from A & operand, V and N from bits 6 and 7 of the operand.
    fn bit(&mut self, data: u8)
        requires
            old(self).wf(),
        ensures
            final(self).wf(),
            final(self).registers == (Registers { zero: old(self).registers.accumulator & data == 0, overflow: data & 0x40 != 0, negative: data & 0x80 != 0, ..old(self).registers }),
            final(self).system == old(self).system,
            final(self).branched == old(self).branched,
    {
        self.registers.zero = self.registers.accumulator & data == 0;
        self.registers.overflow = data & 0x40 != 0;
        self.registers.negative = data & 0x80 != 0;
    }

    /// INX.
    fn inx(&mut self)
        requires
            old(self).wf(),
        ensures
            final(self).wf(),
            final(self).registers == with_x(old(self).registers, old(self).registers.x_index.wrapping_add(1)),
            final(self).system == old(self).system,
            final(self).branched == old(self).branched,
    {
        let v = self.registers.x_index.wrapping_add(1);
        self.registers.x_index = v;
        self.update_zero_negative(v);
    }

    /// INY.
    fn iny(&mut self)
        requires
            old(self).wf(),
        ensures
            final(self).wf(),
            final(self).registers == with_y(old(self).registers, old(self).registers.y_index.wrapping_add(1)),
            final(self).system == old(self).system,
            final(self).branched == old(self).branched,
    {
        let v = self.registers.y_index.wrapping_add(1);
        self.registers.y_index = v;
        self.update_zero_negative(v);
    }

    /// DEX.
    fn dex(&mut self)
        requires
            old(self).wf(),
        ensures
            final(self).wf(),
            final(self).registers == with_x(old(self).registers, old(self).registers.x_index.wrapping_sub(1)),
            final(self).system == old(self).system,
            final(self).branched == old(self).branched,
    {
        let v = self.registers.x_index.wrapping_sub(1);
        self.registers.x_index = v;
        self.update_zero_negative(v);
    }

    /// DEY.
    fn dey(&mut self)
        requires
            old(self).wf(),
        ensures
            final(self).wf(),
            final(self).registers == with_y(old(self).registers, old(self).registers.y_index.wrapping_sub(1)),
            final(self).system == old(self).system,
            final(self).branched == old(self).branched,
    {
        let v = self.registers.y_index.wrapping_sub(1);
        self.registers.y_index = v;
        self.update_zero_negative(v);
    }

    /// TAX.
    fn tax(&mut self)
        requires
            old(self).wf(),
        ensures
            final(self).wf(),
            final(self).registers == with_x(old(self).registers, old(self).registers.accumulator),
            final(self).system == old(self).system,
            final(self).branched == old(self).branched,
    {
        let v = self.registers.accumulator;
        self.registers.x_index = v;
        self.update_zero_negative(v);
    }

    /// TAY.
    fn tay(&mut self)
        requires
            old(self).wf(),
        ensures
            final(self).wf(),
            final(self).registers == with_y(old(self).registers, old(self).registers.accumulator),
            final(self).system == old(self).system,
            final(self).branched == old(self).branched,
    {
        let v = self.registers.accumulator;
        self.registers.y_index = v;
        self.update_zero_negative(v);
    }

    /// TSX.
    fn tsx(&mut self)
        requires
            old(self).wf(),
        ensures
            final(self).wf(),
            final(self).registers == with_x(old(self).registers, old(self).registers.stack_pointer),
            final(self).system == old(self).system,
            final(self).branched == old(self).branched,
    {
        let v = self.registers.stack_pointer;
        self.registers.x_index = v;
        self.update_zero_negative(v);
    }

    /// TXA.
    fn txa(&mut self)
        requires
            old(self).wf(),
        ensures
            final(self).wf(),
            final(self).registers == with_a(old(self).registers, old(self).registers.x_index),
            final(self).system == old(self).system,
            final(self).branched == old(self).branched,
    {
        let v = self.registers.x_index;
        self.registers.accumulator = v;
        self.update_zero_negative(v);
    }

    /// TYA.
    fn tya(&mut self)
        requires
            old(self).wf(),
        ensures
            final(self).wf(),
            final(self).registers == with_a(old(self).registers, old(self).registers.y_index),
            final(self).system == old(self).system,
            final(self).branched == old(self).branched,
    {
        let v = self.registers.y_index;
        self.registers.accumulator = v;
        self.update_zero_negative(v);
    }

    /// TXS: flags untouched.
    fn txs(&mut self)
        requires
            old(self).wf(),
        ensures
            final(self).wf(),
            final(self).registers == (Registers { stack_pointer: old(self).registers.x_index, ..old(self).registers }),
            final(self).system == old(self).system,
            final(self).branched == old(self).branched,
    {
        self.registers.stack_pointer = self.registers.x_index;
    }

    /// CLC.
    fn clc(&mut self)
        requires
            old(self).wf(),
        ensures
            final(self).wf(),
            final(self).registers == (Registers { carry: false, ..old(self).registers }),
            final(self).system == old(self).system,
            final(self).branched == old(self).branched,
    {
        self.registers.carry = false;
    }

    /// CLD.
    fn cld(&mut self)
        requires
            old(self).wf(),
        ensures
            final(self).wf(),
            final(self).registers == (Registers { decimal: false, ..old(self).registers }),
            final(self).system == old(self).system,
            final(self).branched == old(self).branched,
    {
        self.registers.decimal = false;
    }

    /// CLI.
    fn cli(&mut self)
        requires
            old(self).wf(),
        ensures
            final(self).wf(),
            final(self).registers == (Registers { interrupt_disable: false, ..old(self).registers }),
            final(self).system == old(self).system,
            final(self).branched == old(self).branched,
    {
        self.registers.interrupt_disable = false;
    }

    /// CLV.
    fn clv(&mut self)
        requires
            old(self).wf(),
        ensures
            final(self).wf(),
            final(self).registers == (Registers { overflow: false, ..old(self).registers }),
            final(self).system == old(self).system,
            final(self).branched == old(self).branched,
    {
        self.registers.overflow = false;
    }

    /// SEC.
    fn sec(&mut self)
        requires
            old(self).wf(),
        ensures
            final(self).wf(),
            final(self).registers == (Registers { carry: true, ..old(self).registers }),
            final(self).system == old(self).system,
            final(self).branched == old(self).branched,
    {
        self.registers.carry = true;
    }

    /// SED.
    fn sed(&mut self)
        requires
            old(self).wf(),
        ensures
            final(self).wf(),
            final(self).registers == (Registers { decimal: true, ..old(self).registers }),
            final(self).system == old(self).system,
            final(self).branched == old(self).branched,
    {
        self.registers.decimal = true;
    }

    /// SEI.
    fn sei(&mut self)
        requires
            old(self).wf(),
        ensures
            final(self).wf(),
            final(self).registers == (Registers { interrupt_disable: true, ..old(self).registers }),
            final(self).system == old(self).system,
            final(self).branched == old(self).branched,
    {
        self.registers.interrupt_disable = true;
    }

    /// CMP, CPX, CPY: C when `reg` >= operand, Z and N from the difference.
    fn compare(&mut self, reg: u8, data: u8)
        requires
            old(self).wf(),
        ensures
            final(self).wf(),
            final(self).registers == compared(old(self).registers, reg, data),
            final(self).system == old(self).system,
            final(self).branched == old(self).branched,
    {
        self.registers.carry = reg >= data;
        self.update_zero_negative(reg.wrapping_sub(data));
    }

    /// Stores `value` at `addr` through the bus.
    fn store(&mut self, addr: u16, value: u8)
        requires
            old(self).wf(),
        ensures
            final(self).system.cycles == old(self).system.cycles || addr == 0x4014,
            final(self).wf(),
            final(self).registers == old(self).registers,
            addr <= 0x1FFF ==> final(self).system.memory.ram@ == old(self).system.memory.ram@.update(addr as int % 0x800, value),
            final(self).branched == old(self).branched,
    {
        self.system.write(addr, value);
    }

    /// Writes a read-modify-write result back: to A in accumulator mode, to
    /// memory otherwise.
    fn write_back(&mut self, operand: Operand, res: u8)
        requires
            old(self).wf(),
        ensures
            final(self).system.cycles == old(self).system.cycles || operand.0.0 == 0x4014,
            final(self).wf(),
            operand.0.1 == Addressing::Accumulator ==> final(self).registers == (Registers { accumulator: res, ..old(self).registers })
                && final(self).system == old(self).system,
            operand.0.1 != Addressing::Accumulator ==> final(self).registers == old(self).registers
                && (operand.0.0 <= 0x1FFF ==> final(self).system.memory.ram@ == old(self).system.memory.ram@.update(operand.0.0 as int % 0x800, res)),
            final(self).branched == old(self).branched,
    {
        match operand.0.1 {
            Addressing::Accumulator => self.registers.accumulator = res,
            _ => self.system.write(operand.0.0, res),
        }
    }

    /// ASL: shift left, C from the old bit 7.
    fn asl(&mut self, operand: Operand) -> (r: u8)
        requires
            old(self).wf(),
        ensures
            final(self).system.cycles == old(self).system.cycles || operand.0.0 == 0x4014,
            final(self).wf(),
            r == operand.1 << 1u8,
            final(self).registers.carry == (operand.1 & 0x80 != 0),
            CPU::zn(final(self).registers, r),
            final(self).registers.program_counter == old(self).registers.program_counter,
            final(self).branched == old(self).branched,
            operand.0.1 == Addressing::Accumulator ==> final(self).registers.accumulator == r,
    {
        let res = operand.1 << 1u8;
        self.registers.carry = operand.1 & 0x80 != 0;
        self.update_zero_negative(res);
        self.write_back(operand, res);
        res
    }

    /// LSR: shift right, C from the old bit 0.
    fn lsr(&mut self, operand: Operand) -> (r: u8)
        requires
            old(self).wf(),
        ensures
            final(self).system.cycles == old(self).system.cycles || operand.0.0 == 0x4014,
            final(self).wf(),
            r == operand.1 >> 1u8,
            final(self).registers.carry == (operand.1 & 0x01 != 0),
            CPU::zn(final(self).registers, r),
            final(self).registers.program_counter == old(self).registers.program_counter,
            final(self).branched == old(self).branched,
            operand.0.1 == Addressing::Accumulator ==> final(self).registers.accumulator == r,
    {
        let res = operand.1 >> 1u8;
        self.registers.carry = operand.1 & 0x01 != 0;
        self.update_zero_negative(res);
        self.write_back(operand, res);
        res
    }

    /// ROL: shift left through C.
    fn rol(&mut self, operand: Operand) -> (r: u8)
        requires
            old(self).wf(),
        ensures
            final(self).system.cycles == old(self).system.cycles || operand.0.0 == 0x4014,
            final(self).wf(),
            r == (operand.1 << 1u8) | if old(self).registers.carry { 1u8 } else { 0u8 },
            final(self).registers.carry == (operand.1 & 0x80 != 0),
            CPU::zn(final(self).registers, r),
            final(self).registers.program_counter == old(self).registers.program_counter,
            final(self).branched == old(self).branched,
            operand.0.1 == Addressing::Accumulator ==> final(self).registers.accumulator == r,
    {
        let res = (operand.1 << 1u8) | if self.registers.carry { 1u8 } else { 0u8 };
        self.registers.carry = operand.1 & 0x80 != 0;
        self.update_zero_negative(res);
        self.write_back(operand, res);
        res
    }

    /// ROR: shift right through C.
    fn ror(&mut self, operand: Operand) -> (r: u8)
        requires
            old(self).wf(),
        ensures
            final(self).system.cycles == old(self).system.cycles || operand.0.0 == 0x4014,
            final(self).wf(),
            r == (operand.1 >> 1u8) | if old(self).registers.carry { 0x80u8 } else { 0u8 },
            final(self).registers.carry == (operand.1 & 0x01 != 0),
            CPU::zn(final(self).registers, r),
            final(self).registers.program_counter == old(self).registers.program_counter,
            final(self).branched == old(self).branched,
            operand.0.1 == Addressing::Accumulator ==> final(self).registers.accumulator == r,
    {
        let res = (operand.1 >> 1u8) | if self.registers.carry { 0x80u8 } else { 0u8 };
        self.registers.carry = operand.1 & 0x01 != 0;
        self.update_zero_negative(res);
        self.write_back(operand, res);
        res
    }

    /// INC on memory.
    fn inc(&mut self, operand: Operand) -> (r: u8)
        requires
            old(self).wf(),
        ensures
            final(self).system.cycles == old(self).system.cycles || operand.0.0 == 0x4014,
            final(self).wf(),
            r == operand.1.wrapping_add(1),
            final(self).registers == with_zn(old(self).registers, r),
            operand.0.0 <= 0x1FFF ==> final(self).system.memory.ram@ == old(self).system.memory.ram@.update(operand.0.0 as int % 0x800, r),
            final(self).branched == old(self).branched,
    {
        let res = operand.1.wrapping_add(1);
        self.update_zero_negative(res);
        self.store(operand.0.0, res);
        res
    }

    /// DEC on memory.
    fn dec(&mut self, operand: Operand) -> (r: u8)
        requires
            old(self).wf(),
        ensures
            final(self).system.cycles == old(self).system.cycles || operand.0.0 == 0x4014,
            final(self).wf(),
            r == operand.1.wrapping_sub(1),
            final(self).registers == with_zn(old(self).registers, r),
            operand.0.0 <= 0x1FFF ==> final(self).system.memory.ram@ == old(self).system.memory.ram@.update(operand.0.0 as int % 0x800, r),
            final(self).branched == old(self).branched,
    {
        let res = operand.1.wrapping_sub(1);
        self.update_zero_negative(res);
        self.store(operand.0.0, res);
        res
    }

    /// Taken when `cond` holds: PC goes to the target and the extra cycle is
    /// noted.
    fn branch(&mut self, cond: bool, addr: u16)
        requires
            old(self).wf(),
        ensures
            final(self).wf(),
            final(self).registers == if cond { Registers { program_counter: addr, ..old(self).registers } } else { old(self).registers },
            final(self).branched == cond,
            final(self).system == old(self).system,
    {
        if cond {
            self.registers.set_pc(addr);
        }
        self.branched = cond;
    }

    /// JSR: pushes the address of its last byte, then jumps.
    fn jsr(&mut self, addr: u16)
        requires
            old(self).wf(),
        ensures
            final(self).system.cycles == old(self).system.cycles,
            final(self).wf(),
            final(self).registers == (Registers {
                program_counter: addr, stack_pointer: old(self).registers.stack_pointer.wrapping_sub(2), ..old(self).registers }),
            final(self).branched == old(self).branched,
    {
        let ret = self.registers.get_pc().wrapping_sub(1);
        self.stack_pushu16(ret);
        self.registers.set_pc(addr);
    }

    /// RTS: pops the return address and adds one.
    fn rts(&mut self)
        requires
            old(self).wf(),
        ensures
            final(self).wf(),
            final(self).registers.stack_pointer == old(self).registers.stack_pointer.wrapping_add(2),
            final(self).system == old(self).system,
            final(self).branched == old(self).branched,
    {
        let pc = self.stack_popu16().wrapping_add(1);
        self.registers.set_pc(pc);
    }

    /// Loads P from a pulled byte: B1 clear, B2 set.
    fn pull_status(&mut self, val: u8)
        ensures
            final(self).registers.status() == (val & 0xEF) | 0x20,
            !final(self).registers.b1 && final(self).registers.b2,
            final(self).registers.program_counter == old(self).registers.program_counter,
            final(self).registers.stack_pointer == old(self).registers.stack_pointer,
            final(self).registers.accumulator == old(self).registers.accumulator,
            final(self).registers.x_index == old(self).registers.x_index,
            final(self).registers.y_index == old(self).registers.y_index,
            final(self).system == old(self).system,
            final(self).branched == old(self).branched,
    {
        let p = (val & 0xEF) | 0x20;
        self.registers.carry = p & 0x01 != 0;
        self.registers.zero = p & 0x02 != 0;
        self.registers.interrupt_disable = p & 0x04 != 0;
        self.registers.decimal = p & 0x08 != 0;
        self.registers.b1 = p & 0x10 != 0;
        self.registers.b2 = p & 0x20 != 0;
        self.registers.overflow = p & 0x40 != 0;
        self.registers.negative = p & 0x80 != 0;
        proof {
            register::lemma_status_round_trip(p);
            assert(((val & 0xEF) | 0x20) & 0x10 == 0 && ((val & 0xEF) | 0x20) & 0x20 != 0) by (bit_vector);
        }
    }

    /// RTI: pulls P, then PC.
    fn rti(&mut self)
        requires
            old(self).wf(),
        ensures
            final(self).wf(),
            final(self).registers.stack_pointer == old(self).registers.stack_pointer.wrapping_add(3),
            !final(self).registers.b1 && final(self).registers.b2,
            final(self).system == old(self).system,
            final(self).branched == old(self).branched,
    {
        let status = self.stack_pop();
        self.pull_status(status);
        let pc = self.stack_popu16();
        self.registers.set_pc(pc);
    }

    /// PHA.
    fn pha(&mut self)
        requires
            old(self).wf(),
        ensures
            final(self).system.cycles == old(self).system.cycles,
            final(self).wf(),
            final(self).registers == (Registers { stack_pointer: old(self).registers.stack_pointer.wrapping_sub(1), ..old(self).registers }),
            final(self).system.memory.ram@ == old(self).system.memory.ram@.update(
                0x100 + old(self).registers.stack_pointer as int, old(self).registers.accumulator),
            final(self).branched == old(self).branched,
    {
        let a = self.registers.accumulator;
        self.stack_push(a);
    }

    /// PHP: pushes P with bits 4 and 5 set.
    fn php(&mut self)
        requires
            old(self).wf(),
        ensures
            final(self).system.cycles == old(self).system.cycles,
            final(self).wf(),
            final(self).registers == (Registers { stack_pointer: old(self).registers.stack_pointer.wrapping_sub(1), ..old(self).registers }),
            final(self).system.memory.ram@ == old(self).system.memory.ram@.update(
                0x100 + old(self).registers.stack_pointer as int, old(self).registers.status() | 0x30),
            final(self).branched == old(self).branched,
    {
        let p = self.registers.get(Register::P) | 0x30;
        self.stack_push(p);
    }

    /// PLA.
    fn pla(&mut self)
        requires
            old(self).wf(),
        ensures
            final(self).wf(),
            final(self).registers == with_a(Registers {
                stack_pointer: old(self).registers.stack_pointer.wrapping_add(1), ..old(self).registers },
                old(self).system.memory.ram@[0x100 + old(self).registers.stack_pointer.wrapping_add(1) as int]),
            final(self).system == old(self).system,
            final(self).branched == old(self).branched,
    {
        let v = self.stack_pop();
        self.registers.accumulator = v;
        self.update_zero_negative(v);
    }

    /// PLP.
    fn plp(&mut self)
        requires
            old(self).wf(),
        ensures
            final(self).wf(),
            final(self).registers.stack_pointer == old(self).registers.stack_pointer.wrapping_add(1),
            final(self).registers.program_counter == old(self).registers.program_counter,
            final(self).registers.status() == (old(self).system.memory.ram@[
                0x100 + old(self).registers.stack_pointer.wrapping_add(1) as int] & 0xEF) | 0x20,
            final(self).system == old(self).system,
            final(self).branched == old(self).branched,
    {
        let v = self.stack_pop();
        self.pull_status(v);
    }

    /// Interrupt sequence: pushes PC and P (bit 4 from the kind, bit 5
    /// set), sets I, loads PC from the vector and spends the kind's cycles.
    fn interrupt(&mut self, interrupt: Interrupt)
        requires
            old(self).wf(),
            interrupt.read_address == 0xFFFA || interrupt.read_address == 0xFFFE,
        ensures
            final(self).wf(),
            final(self).registers.program_counter == old(self).byte_at(interrupt.read_address) as u16
                | ((old(self).byte_at(interrupt.read_address.wrapping_add(1)) as u16) << 8),
            final(self).registers.interrupt_disable,
            final(self).registers.stack_pointer == old(self).registers.stack_pointer.wrapping_sub(3),
            final(self).branched == old(self).branched,
            ({
                let sp = old(self).registers.stack_pointer;
                let pc = old(self).registers.program_counter;
                final(self).system.memory.ram@ == old(self).system.memory.ram@
                    .update(0x100 + sp as int, (pc >> 8) as u8)
                    .update(0x100 + sp.wrapping_sub(1) as int, (pc & 0xFF) as u8)
                    .update(0x100 + sp.wrapping_sub(2) as int, (old(self).registers.status() & 0xCF) | interrupt.mask)
            }),
            final(self).system.cycles == old(self).system.cycles.wrapping_add(interrupt.cycles as usize),
    {
        let pc = self.registers.get_pc();
        self.stack_pushu16(pc);
        let p = (self.registers.get(Register::P) & 0xCF) | interrupt.mask;
        self.stack_push(p);
        self.registers.interrupt_disable = true;
        assert(self.system.ppu == old(self).system.ppu);
        assert(self.system.peek(interrupt.read_address) == old(self).system.peek(interrupt.read_address));
        assert(self.system.peek(interrupt.read_address.wrapping_add(1)) == old(self).system.peek(interrupt.read_address.wrapping_add(1)));
        let target = self.system.readu16(interrupt.read_address);
        self.registers.set_pc(target);
        if self.system.tick(interrupt.cycles as u16) {
            self.frame_ready = true;
        }
    }

    /// BRK: skips its padding byte and runs the interrupt sequence through
    /// 0xFFFE with bit 4 set in the pushed P.
    fn brk(&mut self)
        requires
            old(self).wf(),
        ensures
            final(self).wf(),
            final(self).registers.interrupt_disable,
            final(self).registers.program_counter == old(self).byte_at(0xFFFE) as u16 | ((old(self).byte_at(0xFFFF) as u16) << 8),
            final(self).branched == old(self).branched,
    {
        self.increment_pc(1);
        self.interrupt(Interrupt::brk());
    }

    /// Runs one decoded instruction on its operand; false for JAM.
    #[verifier::rlimit(100)]
    #[verifier::spinoff_prover]
    fn execute_instr(&mut self, opcode: OpCode, operand: Operand) -> (r: bool)
        requires
            old(self).wf(),
        ensures
            final(self).wf(),
            r == (opcode != OpCode::JAM),
            sequential(opcode) ==> final(self).registers.program_counter == old(self).registers.program_counter
                && final(self).branched == old(self).branched,
            opcode == OpCode::ADC ==> final(self).registers == added(old(self).registers, operand.1),
            (opcode == OpCode::SBC || opcode == OpCode::XSBC) ==> final(self).registers == added(old(self).registers, !operand.1),
            opcode == OpCode::LDA ==> final(self).registers == with_a(old(self).registers, operand.1),
            opcode == OpCode::INX ==> final(self).registers == with_x(old(self).registers, old(self).registers.x_index.wrapping_add(1)),
            is_branch(opcode) ==> final(self).branched == branch_taken(opcode, old(self).registers)
                && final(self).registers == if branch_taken(opcode, old(self).registers) {
                    Registers { program_counter: operand.0.0, ..old(self).registers }
                } else {
                    old(self).registers
                },
            opcode == OpCode::JMP ==> final(self).registers.program_counter == operand.0.0,
            opcode == OpCode::JAM ==> final(self).registers == old(self).registers && final(self).system == old(self).system,
            opcode != OpCode::BRK && operand.0.0 != 0x4014 ==> final(self).system.cycles == old(self).system.cycles,
            (opcode == OpCode::STA || opcode == OpCode::STX || opcode == OpCode::STY) && operand.0.0 <= 0x1FFF ==>
                final(self).system.memory.ram@ == old(self).system.memory.ram@.update(operand.0.0 as int % 0x800,
                    if opcode == OpCode::STA { old(self).registers.accumulator }
                    else if opcode == OpCode::STX { old(self).registers.x_index }
                    else { old(self).registers.y_index }),
    {
        let data = operand.1;
        let addr = operand.0.0;
        let a = self.registers.accumulator;
        let x = self.registers.x_index;
        let y = self.registers.y_index;
        let r = &self.registers;
        let (c, z, n, v) = (r.carry, r.zero, r.negative, r.overflow);
        let high = ((addr >> 8) as u8).wrapping_add(1);
        match opcode {
            OpCode::ADC => self.adc(data),
            OpCode::XALR => self.alr(data),
            OpCode::XANC => self.anc(data),
            OpCode::AND => self.and(data),
            OpCode::XANE => self.ane(data),
            OpCode::XARR => self.arr(data),
            OpCode::ASL => {
                self.asl(operand);
            },
            OpCode::BCC => self.branch(!c, addr),
            OpCode::BCS => self.branch(c, addr),
            OpCode::BEQ => self.branch(z, addr),
            OpCode::BIT => self.bit(data),
            OpCode::BMI => self.branch(n, addr),
            OpCode::BNE => self.branch(!z, addr),
            OpCode::BPL => self.branch(!n, addr),
            OpCode::BRK => self.brk(),
            OpCode::BVC => self.branch(!v, addr),
            OpCode::BVS => self.branch(v, addr),
            OpCode::CLC => self.clc(),
            OpCode::CLD => self.cld(),
            OpCode::CLI => self.cli(),
            OpCode::CLV => self.clv(),
            OpCode::CMP => self.compare(a, data),
            OpCode::CPX => self.compare(x, data),
            OpCode::CPY => self.compare(y, data),
            OpCode::XDCP => {
                let res = self.dec(operand);
                self.compare(a, res);
            },
            OpCode::DEC => {
                self.dec(operand);
            },
            OpCode::DEX => self.dex(),
            OpCode::DEY => self.dey(),
            OpCode::EOR => self.eor(data),
            OpCode::INC => {
                self.inc(operand);
            },
            OpCode::INX => self.inx(),
            OpCode::INY => self.iny(),
            OpCode::XISC => {
                let res = self.inc(operand);
                self.sbc(res);
            },
            OpCode::JAM => {
                return false;
            },
            OpCode::JMP => self.registers.set_pc(addr),
            OpCode::JSR => self.jsr(addr),
            OpCode::XLAS => self.las(data),
            OpCode::XLAX => self.lax(data),
            OpCode::LDA => self.lda(data),
            OpCode::LDX => self.ldx(data),
            OpCode::LDY => self.ldy(data),
            OpCode::LSR => {
                self.lsr(operand);
            },
            OpCode::XLXA => self.lxa(data),
            OpCode::NOP | OpCode::XNOP => {},
            OpCode::ORA => self.ora(data),
            OpCode::PHA => self.pha(),
            OpCode::PHP => self.php(),
            OpCode::PLA => self.pla(),
            OpCode::PLP => self.plp(),
            OpCode::XRLA => {
                let res = self.rol(operand);
                self.and(res);
            },
            OpCode::ROL => {
                self.rol(operand);
            },
            OpCode::ROR => {
                self.ror(operand);
            },
            OpCode::XRRA => {
                let res = self.ror(operand);
                self.adc(res);
            },
            OpCode::RTI => self.rti(),
            OpCode::RTS => self.rts(),
            OpCode::XSAX => self.store(addr, a & x),
            OpCode::SBC | OpCode::XSBC => self.sbc(data),
            OpCode::XSBX => self.sbx(data),
            OpCode::SEC => self.sec(),
            OpCode::SED => self.sed(),
            OpCode::SEI => self.sei(),
            OpCode::XSHA => self.store(addr, a & x & high),
            OpCode::XSHX => self.store(addr, x & high),
            OpCode::XSHY => self.store(addr, y & high),
            OpCode::XSLO => {
                let res = self.asl(operand);
                self.ora(res);
            },
            OpCode::XSRE => {
                let res = self.lsr(operand);
                self.eor(res);
            },
            OpCode::STA => self.store(addr, a),
            OpCode::STX => self.store(addr, x),
            OpCode::STY => self.store(addr, y),
            OpCode::XTAS => {
                self.registers.stack_pointer = a & x;
                self.store(addr, a & x & high);
            },
            OpCode::TAX => self.tax(),
            OpCode::TAY => self.tay(),
            OpCode::TSX => self.tsx(),
            OpCode::TXA => self.txa(),
            OpCode::TXS => self.txs(),
            OpCode::TYA => self.tya(),
        }
        true
    }

    /// Fetches, decodes and runs the instruction at PC, without interrupts
    /// or clocking the rest of the console. Returns its cycle count: base
    /// cycles, one more when indexing crossed a page (for the reading modes
    /// that pay for it), and for a taken branch one more plus one if the
    /// target is on another page.
    #[verifier::rlimit(100)]
    #[verifier::spinoff_prover]
    pub fn execute(&mut self) -> (r: Result<u16, Halt>)
        requires
            old(self).wf(),
        ensures
            final(self).wf(),
            execute_pc_post(old(self), final(self).registers, r),
            execute_ram_post(old(self), final(self).system.memory.ram@),
            execute_keeps_cycles(old(self)) ==> final(self).system.cycles == old(self).system.cycles,
            execute_pure(old(self)) && r is Err ==> final(self).system == old(self).system,
    {
        proof {
            reveal(execute_pure);
            reveal(execute_pc_post);
            reveal(execute_ram_post);
            reveal(execute_keeps_cycles);
        }
        self.branched = false;
        let pc = self.registers.get_pc();
        let code = self.read();
        let instruction = Instruction::get(code);
        proof {
            instruction::lemma_relative_is_branch(code);
        }
        let operand = self.get_operand(instruction.mode, instruction.needs_data());
        let crossed: u16 = if operand.0.2 { 1 } else { 0 };
        if !self.execute_instr(instruction.opcode, operand) {
            return Err(Halt { pc, opcode: code });
        }
        let extra: u16 = match instruction.mode {
            Addressing::Relative => if self.branched { 1 + crossed } else { 0 },
            _ => instruction.extra as u16 * crossed,
        };
        Ok(instruction.cycles as u16 + extra)
    }

    /// Services a pending NMI, or else an IRQ while I is clear; returns
    /// whether one was taken.
    fn service_interrupts(&mut self) -> (r: bool)
        requires
            old(self).wf(),
        ensures
            final(self).wf(),
            old(self).system.ppu.nmi.pending ==> r && final(self).registers.interrupt_disable
                && final(self).registers.program_counter
                    == old(self).byte_at(0xFFFA) as u16 | ((old(self).byte_at(0xFFFB) as u16) << 8),
            !old(self).system.ppu.nmi.pending && old(self).system.poll_irq_spec() && !old(self).registers.interrupt_disable ==>
                r && final(self).registers.interrupt_disable
                && final(self).registers.program_counter
                    == old(self).byte_at(0xFFFE) as u16 | ((old(self).byte_at(0xFFFF) as u16) << 8),
            no_interrupt(old(self)) ==> !r && *final(self) == *old(self),
    {
        let nmi = self.system.poll_nmi();
        proof {
            assert(self.system.ppu.mapper == old(self).system.ppu.mapper);
            assert(forall|a: u16| a >= 0xFFFA ==> self.system.peek(a) == old(self).system.peek(a));
        }
        if nmi {
            self.interrupt(Interrupt::nmi());
            return true;
        }
        assert(self.system.poll_irq_spec() == old(self).system.poll_irq_spec());
        if self.system.poll_irq() && !self.registers.interrupt_disable {
            self.interrupt(Interrupt::irq());
            return true;
        }
        false
    }

    /// One step: a pending NMI (or an IRQ while I is clear) is serviced
    /// first, then one instruction runs and the console is clocked for its
    /// cycles.
    #[verifier::rlimit(100)]
    #[verifier::spinoff_prover]
    pub fn step(&mut self) -> (r: Result<u16, Halt>)
        requires
            old(self).wf(),
        ensures
            final(self).wf(),
            final(self).steps == old(self).steps.wrapping_add(1),
            no_interrupt(old(self)) ==> execute_pc_post(old(self), final(self).registers, r)
                && execute_ram_post(old(self), final(self).system.memory.ram@),
            no_interrupt(old(self)) && execute_keeps_cycles(old(self)) && r is Ok ==>
                final(self).system.cycles == old(self).system.cycles.wrapping_add(r->Ok_0 as usize),
            no_interrupt(old(self)) && execute_pure(old(self)) && r is Err ==>
                final(self).system == old(self).system,
    {
        let count = self.steps;
        self.service_interrupts();
        let res = self.execute();
        match res {
            Ok(cycles) => {
                if self.system.tick(cycles) {
                    self.frame_ready = true;
                }
            },
            Err(_) => {},
        }
        self.steps = count.wrapping_add(1);
        res
    }

    /// Runs until the PPU completes a frame (or a bounded number of steps
    /// has run); returns whether a frame completed, or the halt.
    pub fn step_frame(&mut self) -> (r: Result<bool, Halt>)
        requires
            old(self).wf(),
        ensures
            final(self).wf(),
            r is Ok ==> r->Ok_0 == final(self).frame_ready,
            r == Ok::<bool, Halt>(false) ==>
                final(self).steps as int == (old(self).steps as int + FRAME_STEP_LIMIT as int) % 0x1_0000_0000_0000_0000,
    {
        self.frame_ready = false;
        let mut n: u32 = 0;
        while !self.frame_ready && n < FRAME_STEP_LIMIT
            invariant
                self.wf(),
                n <= FRAME_STEP_LIMIT,
                self.steps as int == (old(self).steps as int + n as int) % 0x1_0000_0000_0000_0000,
            decreases FRAME_STEP_LIMIT - n,
        {
            let ghost before = self.steps;
            match self.step() {
                Ok(_) => {},
                Err(h) => {
                    return Err(h);
                },
            }
            proof {
                vstd::arithmetic::div_mod::lemma_add_mod_noop(old(self).steps as int + n as int, 1, 0x1_0000_0000_0000_0000);
                assert(before < 0x1_0000_0000_0000_0000);
            }
            n = n + 1;
        }
        Ok(self.frame_ready)
    }

    /// Sets Z and N from `res`.
    fn update_zero_negative(&mut self, res: u8)
        ensures
            CPU::zn(final(self).registers, res),
            final(self).registers == (Registers {
                zero: final(self).registers.zero, negative: final(self).registers.negative, ..old(self).registers }),
            final(self).system == old(self).system,
            final(self).branched == old(self).branched,
    {
        self.registers.zero = res == 0;
        self.registers.negative = res & 0x80 != 0;
    }
}

} // verus!
