use neones::cpu::instruction::{Addressing, Instruction, OpCode};
use neones::cpu::register::Registers;
use neones::cpu::{add_with_carry, Halt, CPU};
use neones::system::cartridge::{Cartridge, LoadError};
use neones::system::System;

/// An iNES image with the given mapper, PRG banks and no CHR ROM.
fn image(mapper: u8, prg: Vec<u8>) -> Vec<u8> {
    let banks = (prg.len() / 0x4000) as u8;
    let mut rom = vec![0x4E, 0x45, 0x53, 0x1A, banks, 0, (mapper & 0x0F) << 4, mapper & 0xF0];
    rom.extend_from_slice(&[0; 8]);
    rom.extend_from_slice(&prg);
    rom
}

/// A 32 KiB NROM program: `code` at 0x8000, NMI vector 0x9000, reset vector
/// 0x8000, IRQ/BRK vector 0xA000.
fn nrom_with(code: &[u8], extra: &[(usize, u8)]) -> CPU {
    let mut prg = vec![0xEA; 0x8000];
    prg[..code.len()].copy_from_slice(code);
    for &(at, b) in extra {
        prg[at - 0x8000] = b;
    }
    prg[0x7FFA] = 0x00;
    prg[0x7FFB] = 0x90;
    prg[0x7FFC] = 0x00;
    prg[0x7FFD] = 0x80;
    prg[0x7FFE] = 0x00;
    prg[0x7FFF] = 0xA0;
    let cart = Cartridge::new(image(0, prg)).ok().unwrap();
    let mut cpu = CPU::new(System::new(cart));
    cpu.start();
    cpu
}

#[test]
fn lda_immediate_then_brk() {
    let mut cpu = nrom_with(&[0xA9, 0x42, 0x00], &[]);
    cpu.step().unwrap();
    assert_eq!(cpu.registers.accumulator, 0x42);
    assert!(!cpu.registers.zero);
    assert!(!cpu.registers.negative);
    cpu.step().unwrap();
    assert_eq!(cpu.registers.program_counter, 0xA000);
    assert!(cpu.registers.interrupt_disable);
}

#[test]
fn inx_overflow() {
    let mut cpu = nrom_with(&[0xE8], &[]);
    cpu.registers.x_index = 0xFF;
    cpu.step().unwrap();
    assert_eq!(cpu.registers.x_index, 0x00);
    assert!(cpu.registers.zero);
    assert!(!cpu.registers.negative);
}

#[test]
fn adc_with_carry() {
    let mut cpu = nrom_with(&[0x69, 0x10], &[]);
    cpu.registers.accumulator = 0x50;
    cpu.registers.carry = true;
    cpu.step().unwrap();
    assert_eq!(cpu.registers.accumulator, 0x61);
    assert!(!cpu.registers.carry);
    assert!(!cpu.registers.overflow);
    assert!(!cpu.registers.negative);
    assert!(!cpu.registers.zero);
}

#[test]
fn adc_with_signed_overflow() {
    let mut cpu = nrom_with(&[0x69, 0x50], &[]);
    cpu.registers.accumulator = 0x50;
    cpu.registers.carry = false;
    cpu.step().unwrap();
    assert_eq!(cpu.registers.accumulator, 0xA0);
    assert!(cpu.registers.overflow);
    assert!(cpu.registers.negative);
}

#[test]
fn adc_and_sbc_formulas() {
    assert_eq!(add_with_carry(0xFF, 0x01, false), (0x00, true, false));
    assert_eq!(add_with_carry(0x7F, 0x01, false), (0x80, false, true));
    assert_eq!(add_with_carry(0x80, 0x80, true), (0x01, true, true));
    // SBC 0x10 from 0x50 with carry set (no borrow) is 0x40, carry stays set.
    assert_eq!(add_with_carry(0x50, !0x10u8, true), (0x40, true, false));
    // SBC 0x60 from 0x50 borrows.
    assert_eq!(add_with_carry(0x50, !0x60u8, true), (0xF0, false, false));
}

#[test]
fn sbc_instruction() {
    let mut cpu = nrom_with(&[0xE9, 0x01], &[]);
    cpu.registers.accumulator = 0x00;
    cpu.registers.carry = true;
    cpu.step().unwrap();
    assert_eq!(cpu.registers.accumulator, 0xFF);
    assert!(!cpu.registers.carry);
    assert!(cpu.registers.negative);
}

#[test]
fn branch_taken_with_page_cross() {
    let mut cpu = nrom_with(&[], &[(0x80FE, 0xD0), (0x80FF, 0x05)]);
    cpu.registers.program_counter = 0x80FE;
    cpu.registers.zero = false;
    let cycles = cpu.execute();
    assert_eq!(cycles, Ok(4));
    assert_eq!(cpu.registers.program_counter, 0x8105);
}

#[test]
fn branch_not_taken_costs_base_cycles() {
    let mut cpu = nrom_with(&[0xD0, 0x05], &[]);
    cpu.registers.zero = true;
    assert_eq!(cpu.execute(), Ok(2));
    assert_eq!(cpu.registers.program_counter, 0x8002);
}

#[test]
fn branch_taken_same_page() {
    let mut cpu = nrom_with(&[0xD0, 0x05], &[]);
    cpu.registers.zero = false;
    assert_eq!(cpu.execute(), Ok(3));
    assert_eq!(cpu.registers.program_counter, 0x8007);
}

#[test]
fn jmp_indirect_page_wrap() {
    // JMP ($02FF): low byte from 0x02FF, high byte from 0x0200.
    let mut cpu = nrom_with(&[0x6C, 0xFF, 0x02], &[]);
    cpu.system.write(0x02FF, 0x34);
    cpu.system.write(0x0200, 0x12);
    cpu.system.write(0x0300, 0x56);
    assert_eq!(cpu.execute(), Ok(5));
    assert_eq!(cpu.registers.program_counter, 0x1234);
}

#[test]
fn instruction_lengths_and_cycles() {
    // LDA absolute,X crossing a page: 3 bytes, 4 + 1 cycles.
    let mut cpu = nrom_with(&[0xBD, 0xFF, 0x00], &[]);
    cpu.registers.x_index = 0x01;
    assert_eq!(cpu.execute(), Ok(5));
    assert_eq!(cpu.registers.program_counter, 0x8003);
    // STA zero page: 2 bytes, 3 cycles.
    let mut cpu = nrom_with(&[0x85, 0x10], &[]);
    cpu.registers.accumulator = 0x77;
    assert_eq!(cpu.execute(), Ok(3));
    assert_eq!(cpu.registers.program_counter, 0x8002);
    assert_eq!(cpu.system.read(0x0010), 0x77);
}

#[test]
fn jam_halts() {
    let mut cpu = nrom_with(&[0x02], &[]);
    assert_eq!(cpu.execute(), Err(Halt { pc: 0x8000, opcode: 0x02 }));
}

#[test]
fn decode_table() {
    let i = Instruction::get(0x6C);
    assert_eq!(i.mode, Addressing::Indirect);
    assert_eq!(i.opcode, OpCode::JMP);
    assert_eq!(i.cycles, 5);
    assert_eq!(Addressing::Indirect.length(), 3);
}

#[test]
fn reset_state() {
    let cpu = nrom_with(&[], &[]);
    assert_eq!(cpu.registers.stack_pointer, 0xFD);
    assert_eq!(cpu.registers.get(neones::cpu::register::Register::P), 0x24);
    assert_eq!(cpu.registers.program_counter, 0x8000);
    let fresh = Registers::new();
    assert_eq!(fresh.get(neones::cpu::register::Register::P), 0x24);
}

#[test]
fn stack_round_trip() {
    // LDA #$5A; PHA; LDA #$00; PLA
    let mut cpu = nrom_with(&[0xA9, 0x5A, 0x48, 0xA9, 0x00, 0x68], &[]);
    for _ in 0..4 {
        cpu.step().unwrap();
    }
    assert_eq!(cpu.registers.accumulator, 0x5A);
    assert_eq!(cpu.registers.stack_pointer, 0xFD);
}

#[test]
fn php_plp_flags() {
    // SEC; PHP; CLC; PLP
    let mut cpu = nrom_with(&[0x38, 0x08, 0x18, 0x28], &[]);
    for _ in 0..2 {
        cpu.step().unwrap();
    }
    assert_eq!(cpu.system.read(0x01FD), 0x24 | 0x01 | 0x30);
    for _ in 0..2 {
        cpu.step().unwrap();
    }
    assert!(cpu.registers.carry);
    assert!(!cpu.registers.b1);
    assert!(cpu.registers.b2);
}

#[test]
fn jsr_rts() {
    // JSR $8010 ... at 0x8010: RTS
    let mut cpu = nrom_with(&[0x20, 0x10, 0x80], &[(0x8010, 0x60)]);
    cpu.step().unwrap();
    assert_eq!(cpu.registers.program_counter, 0x8010);
    cpu.step().unwrap();
    assert_eq!(cpu.registers.program_counter, 0x8003);
}

#[test]
fn compare_sets_carry() {
    // LDA #$10; CMP #$10; CMP #$20
    let mut cpu = nrom_with(&[0xA9, 0x10, 0xC9, 0x10, 0xC9, 0x20], &[]);
    cpu.step().unwrap();
    cpu.step().unwrap();
    assert!(cpu.registers.carry && cpu.registers.zero);
    cpu.step().unwrap();
    assert!(!cpu.registers.carry && !cpu.registers.zero && cpu.registers.negative);
}

#[test]
fn shifts_and_rotates() {
    // LDA #$81; ASL A; ROL A; LSR A; ROR A
    let mut cpu = nrom_with(&[0xA9, 0x81, 0x0A, 0x2A, 0x4A, 0x6A], &[]);
    cpu.step().unwrap();
    cpu.step().unwrap();
    assert_eq!(cpu.registers.accumulator, 0x02);
    assert!(cpu.registers.carry);
    cpu.step().unwrap();
    assert_eq!(cpu.registers.accumulator, 0x05);
    assert!(!cpu.registers.carry);
    cpu.step().unwrap();
    assert_eq!(cpu.registers.accumulator, 0x02);
    assert!(cpu.registers.carry);
    cpu.step().unwrap();
    assert_eq!(cpu.registers.accumulator, 0x81);
}

#[test]
fn ppu_nmi_once_per_frame() {
    // LDA #$80; STA $2000; LDA #$08; STA $2001; loop: JMP loop
    // NMI handler at 0x9000: INX; RTI
    let code = [0xA9, 0x80, 0x8D, 0x00, 0x20, 0xA9, 0x08, 0x8D, 0x01, 0x20, 0x4C, 0x0A, 0x80];
    let mut cpu = nrom_with(&code, &[(0x9000, 0xE8), (0x9001, 0x40)]);
    while cpu.system.cycles < 89342 / 3 {
        cpu.step().unwrap();
    }
    assert_eq!(cpu.registers.x_index, 1);
}

#[test]
fn ram_mirroring() {
    let mut cpu = nrom_with(&[], &[]);
    cpu.system.write(0x0801, 0x55);
    assert_eq!(cpu.system.read(0x0001), 0x55);
    assert_eq!(cpu.system.read(0x1801), 0x55);
    assert_eq!(cpu.system.read(0x1001), 0x55);
}

#[test]
fn ppu_register_mirroring() {
    let mut cpu = nrom_with(&[], &[]);
    // Address 0x2105 through the 0x3FFE mirror of 0x2006, data through 0x200F.
    cpu.system.write(0x3FFE, 0x21);
    cpu.system.write(0x3FFE, 0x05);
    cpu.system.write(0x200F, 0x99);
    cpu.system.write(0x2006, 0x21);
    cpu.system.write(0x2006, 0x05);
    cpu.system.read(0x2007);
    assert_eq!(cpu.system.read(0x3FFF), 0x99);
}

#[test]
fn ppu_data_round_trip() {
    let mut cpu = nrom_with(&[], &[]);
    cpu.system.write(0x2006, 0x20);
    cpu.system.write(0x2006, 0x40);
    cpu.system.write(0x2007, 0xAB);
    cpu.system.write(0x2007, 0xCD);
    cpu.system.write(0x2006, 0x20);
    cpu.system.write(0x2006, 0x40);
    cpu.system.read(0x2007);
    assert_eq!(cpu.system.read(0x2007), 0xAB);
    assert_eq!(cpu.system.read(0x2007), 0xCD);
}

#[test]
fn ppu_data_increment_32() {
    let mut cpu = nrom_with(&[], &[]);
    cpu.system.write(0x2000, 0x04);
    cpu.system.write(0x2006, 0x20);
    cpu.system.write(0x2006, 0x00);
    cpu.system.write(0x2007, 0x11);
    cpu.system.write(0x2007, 0x22);
    cpu.system.write(0x2000, 0x00);
    cpu.system.write(0x2006, 0x20);
    cpu.system.write(0x2006, 0x20);
    cpu.system.read(0x2007);
    assert_eq!(cpu.system.read(0x2007), 0x22);
}

#[test]
fn oam_round_trip() {
    let mut cpu = nrom_with(&[], &[]);
    cpu.system.write(0x2003, 0x00);
    for i in 0..32u8 {
        cpu.system.write(0x2004, i.wrapping_mul(37) ^ 0xFF);
    }
    for i in 0..32u8 {
        cpu.system.write(0x2003, i);
        let expected = i.wrapping_mul(37) ^ 0xFF;
        let expected = if i % 4 == 2 { expected & 0xE3 } else { expected };
        assert_eq!(cpu.system.read(0x2004), expected);
    }
}

#[test]
fn palette_mirrors() {
    let mut cpu = nrom_with(&[], &[]);
    cpu.system.write(0x2006, 0x3F);
    cpu.system.write(0x2006, 0x10);
    cpu.system.write(0x2007, 0x2A);
    cpu.system.write(0x2006, 0x3F);
    cpu.system.write(0x2006, 0x00);
    assert_eq!(cpu.system.read(0x2007), 0x2A);
}

#[test]
fn status_read_clears_vblank() {
    let mut cpu = nrom_with(&[], &[]);
    cpu.system.ppu.registers.status.value = 0xC0;
    assert_eq!(cpu.system.read(0x2002), 0xC0);
    assert_eq!(cpu.system.read(0x2002), 0x40);
}

#[test]
fn mapper2_bank_switch() {
    let mut prg = vec![0u8; 4 * 0x4000];
    for bank in 0..4 {
        prg[bank * 0x4000] = bank as u8;
    }
    let cart = Cartridge::new(image(2, prg)).ok().unwrap();
    let mut sys = System::new(cart);
    sys.write(0x8000, 0x02);
    assert_eq!(sys.read(0x8000), 2);
    assert_eq!(sys.read(0xC000), 3);
    sys.write(0x8000, 0x01);
    assert_eq!(sys.read(0x8000), 1);
}

#[test]
fn nrom_16k_mirrors() {
    let mut prg = vec![0u8; 0x4000];
    prg[0] = 0x5A;
    let cart = Cartridge::new(image(0, prg)).ok().unwrap();
    let mut sys = System::new(cart);
    assert_eq!(sys.read(0x8000), 0x5A);
    assert_eq!(sys.read(0xC000), 0x5A);
}

#[test]
fn mapper4_bank_switch() {
    let mut prg = vec![0u8; 4 * 0x4000];
    for page in 0..8 {
        prg[page * 0x2000] = page as u8;
    }
    let cart = Cartridge::new(image(4, prg)).ok().unwrap();
    let mut sys = System::new(cart);
    assert_eq!(sys.read(0xE000), 7);
    assert_eq!(sys.read(0xC000), 6);
    sys.write(0x8000, 0x06);
    sys.write(0x8001, 0x03);
    assert_eq!(sys.read(0x8000), 3);
    sys.write(0x8000, 0x46);
    assert_eq!(sys.read(0x8000), 6);
    assert_eq!(sys.read(0xC000), 3);
}

#[test]
fn mapper1_serial_load() {
    let mut prg = vec![0u8; 8 * 0x4000];
    for bank in 0..8 {
        prg[bank * 0x4000] = bank as u8;
    }
    let cart = Cartridge::new(image(1, prg)).ok().unwrap();
    let mut sys = System::new(cart);
    assert_eq!(sys.read(0xC000), 7);
    // Five writes of 5 (LSB first) to the PRG register.
    for bit in [1u8, 0, 1, 0, 0] {
        sys.write(0xE000, bit);
    }
    assert_eq!(sys.read(0x8000), 5);
    assert_eq!(sys.read(0xC000), 7);
}

#[test]
fn load_errors() {
    assert_eq!(Cartridge::new(vec![0u8; 32]).err(), Some(LoadError::NotINes));
    let mut nes2 = image(0, vec![0u8; 0x4000]);
    nes2[7] = 0x08;
    assert_eq!(Cartridge::new(nes2).err(), Some(LoadError::Nes2Unsupported));
    let mut short = image(0, vec![0u8; 0x4000]);
    short.truncate(100);
    assert_eq!(Cartridge::new(short).err(), Some(LoadError::Truncated));
    assert_eq!(Cartridge::new(image(0, vec![])).err(), Some(LoadError::NoProgram));
    assert_eq!(Cartridge::new(image(5, vec![0u8; 0x4000])).err(), Some(LoadError::UnsupportedMapper(5)));
    assert_eq!(LoadError::NotINes.message(), "File not in iNES format.");
}

#[test]
fn joypad_shift_register() {
    let mut cpu = nrom_with(&[], &[]);
    cpu.system.joypads.0.push(neones::system::joypad::Flag::A);
    cpu.system.joypads.0.push(neones::system::joypad::Flag::Start);
    cpu.system.write(0x4016, 1);
    cpu.system.write(0x4016, 0);
    let bits: Vec<u8> = (0..8).map(|_| cpu.system.read(0x4016)).collect();
    assert_eq!(bits, vec![0x41, 0x40, 0x40, 0x41, 0x40, 0x40, 0x40, 0x40]);
    assert_eq!(cpu.system.read(0x4016), 0x41);
    cpu.system.joypads.0.release(neones::system::joypad::Flag::A);
    assert_eq!(cpu.system.joypads.0.buttons, 0x08);
}

#[test]
fn three_dots_per_cpu_cycle() {
    let mut cpu = nrom_with(&[], &[]);
    let before = cpu.system.ppu.scan.dot;
    cpu.system.tick(10);
    assert_eq!(cpu.system.ppu.scan.dot, before + 30);
    assert_eq!(cpu.system.cycles, 10);
    // A whole frame of CPU cycles: 89342 dots is 29780 cycles and 2 dots.
    let mut sys_cpu = nrom_with(&[], &[]);
    sys_cpu.system.tick(29780);
    assert_eq!((sys_cpu.system.ppu.scan.line, sys_cpu.system.ppu.scan.dot), (261, 339));
}

#[test]
fn irq_respects_interrupt_disable() {
    // CLI; NOP; NOP with the frame IRQ pending: serviced after CLI.
    let mut cpu = nrom_with(&[0x58, 0xEA, 0xEA], &[]);
    cpu.system.apu.irq.pending = true;
    cpu.step().unwrap();
    assert_eq!(cpu.registers.program_counter, 0x8001);
    cpu.step().unwrap();
    assert_eq!(cpu.registers.program_counter, 0xA001);
    assert!(cpu.registers.interrupt_disable);
}
