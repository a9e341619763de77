use neones::system::cartridge::LoadError;
use neones::apu::lengthcounter::LengthCounter;
use neones::apu::pulse::{Pulse, PulseChannel};
use neones::apu::timer::Timer;
use neones::apu::triangle::Triangle;
use neones::apu::noise::Noise;
use neones::apu::dmc::DMC;
use neones::apu::envelope::Envelope;
use neones::apu::{SequencerMode, APU};
use neones::mapper::banks::Banks;
use neones::mapper::mapper0::Mapper0;
use neones::mapper::{from, Mapper, Mirroring};
use neones::ppu::register::Registers;
use neones::ppu::{compose, pattern_row, PPU};

fn blank_ppu() -> PPU {
    let mapper = from(0, vec![], vec![0u8; 0x4000], Mirroring::Horizontal).unwrap();
    PPU::new(mapper)
}

#[test]
fn frame_dot_count() {
    let mut ppu = blank_ppu();
    let mut ticks = 0u32;
    loop {
        ppu.tick();
        ticks += 1;
        if ppu.scan.line == 0 && ppu.scan.dot == 0 {
            break;
        }
    }
    assert_eq!(ticks, 262 * 341);
    assert!(ppu.state.odd);
}

#[test]
fn odd_frame_skips_a_dot_when_rendering() {
    let mut ppu = blank_ppu();
    ppu.registers.mask.value = 0x08;
    ppu.state.odd = true;
    let mut ticks = 0u32;
    loop {
        ppu.tick();
        ticks += 1;
        if ppu.scan.line == 0 && ppu.scan.dot == 0 {
            break;
        }
    }
    assert_eq!(ticks, 262 * 341 - 1);
    assert!(!ppu.state.odd);
}

#[test]
fn vblank_signal_once_per_frame() {
    let mut ppu = blank_ppu();
    let mut signals = 0;
    for _ in 0..262 * 341 {
        if ppu.tick() {
            signals += 1;
            assert_eq!((ppu.scan.line, ppu.scan.dot), (241, 1));
        }
    }
    assert_eq!(signals, 1);
}

#[test]
fn nmi_after_delay() {
    let mut ppu = blank_ppu();
    ppu.write(0x2000, 0x80);
    let mut dots = 0;
    while !ppu.tick() {
        dots += 1;
    }
    assert!(!ppu.poll());
    for _ in 0..15 {
        ppu.tick();
    }
    assert!(ppu.poll());
    assert!(!ppu.poll());
    assert_eq!(dots + 1, 241 * 341 + 1);
}

#[test]
fn loopy_registers() {
    let mut r = Registers::new();
    r.write_scroll(0x7D);
    assert_eq!(r.t & 0x1F, 0x0F);
    assert_eq!(r.x, 0x05);
    r.write_scroll(0x5E);
    assert_eq!((r.t >> 12) & 0x07, 0x06);
    assert_eq!((r.t >> 5) & 0x1F, 0x0B);
    r.write_address(0x3D);
    r.write_address(0xF0);
    assert_eq!(r.v, 0x3DF0);
    let mut r = Registers::new();
    r.v = 0x001F;
    r.increment_x();
    assert_eq!(r.v, 0x0400);
    r.v = 0x73A0;
    r.increment_y();
    assert_eq!(r.v, 0x0800);
    r.v = 0x73E0;
    r.increment_y();
    assert_eq!(r.v, 0x0000);
    assert_eq!(r.write_controller(0x03), false);
    assert_eq!(r.t & 0x0C00, 0x0C00);
}

#[test]
fn compose_rules() {
    assert_eq!(compose(0, 0, 0), 0);
    assert_eq!(compose(0, 5, 1), 0x15);
    assert_eq!(compose(6, 0, 0), 6);
    assert_eq!(compose(6, 5, 0), 0x15);
    assert_eq!(compose(6, 5, 1), 6);
}

#[test]
fn pattern_rows() {
    assert_eq!(pattern_row(0x80, 0x00, 0, false), 0x1000_0000);
    assert_eq!(pattern_row(0x80, 0x00, 0, true), 0x0000_0001);
    assert_eq!(pattern_row(0x01, 0x01, 0x04, false), 0x4444_4447);
}

#[test]
fn length_table_and_halt() {
    let mut l = LengthCounter::new();
    l.update(1);
    assert_eq!(l.counter, 254);
    l.tick();
    assert_eq!(l.counter, 254);
    l.halted = false;
    l.tick();
    assert_eq!(l.counter, 253);
}

#[test]
fn timer_reloads() {
    let mut t = Timer::new();
    t.period = 2;
    assert!(t.tick());
    assert!(!t.tick());
    assert!(!t.tick());
    assert!(t.tick());
}

#[test]
fn envelope_decay() {
    let mut e = Envelope::new();
    e.set(0x01);
    e.reset();
    e.tick();
    assert_eq!(e.volume, 15);
    e.tick();
    e.tick();
    assert_eq!(e.volume, 14);
    assert_eq!(e.output(), 14);
}

#[test]
fn pulse_output_and_sweep() {
    let mut p = Pulse::new(PulseChannel::One);
    p.set_enabled(true);
    p.write_control(0xBF);
    p.write_timer_lo(0x00);
    p.write_timer_hi(0x09);
    assert_eq!(p.length_counter(), 254);
    assert_eq!(p.timer.period, 0x100);
    p.write_sweep(0x81);
    p.half();
    p.half();
    assert_eq!(p.timer.period, 0x100 + 0x80);
    let mut q = Pulse::new(PulseChannel::Two);
    q.write_timer_hi(0x01);
    q.write_sweep(0x80 | 0x08 | 0x01);
    q.half();
    q.half();
    assert_eq!(q.timer.period, 0x100 - 0x80);
    p.duty.value = 1;
    assert_eq!(p.signal(), 15);
}

#[test]
fn triangle_ramp() {
    let mut t = Triangle::new();
    t.set_enabled(true);
    t.write_counter(0x7F);
    t.write_timer_hi(0x08);
    t.quarter();
    assert_eq!(t.signal(), 15);
    t.timer();
    assert_eq!(t.signal(), 14);
}

#[test]
fn noise_shift_register() {
    let mut n = Noise::new();
    n.write_timer(0x00);
    n.timer();
    assert_eq!(n.shift.value, 0x2000);
}

#[test]
fn dmc_registers() {
    let mut d = DMC::new();
    d.write_address(0x10);
    d.write_length(0x02);
    d.set_enabled(true, 1);
    assert_eq!(d.dma_addr(), 0xC400);
    assert_eq!(d.length(), 33);
    assert_eq!(d.dma.delay, 3);
    d.write_output(0xFF);
    assert_eq!(d.signal(), 0x7F);
    d.sample.address = 0xFFFF;
    d.load(0xAA);
    assert_eq!(d.sample.address, 0x8000);
}

#[test]
fn frame_counter_write_clocks_at_once() {
    let mut apu = APU::new();
    apu.write(0x4015, 0x0F);
    apu.write(0x4000, 0x00);
    apu.write(0x4003, 0x08);
    assert_eq!(apu.pulse_one.length_counter(), 254);
    apu.write(0x4017, 0x80);
    assert_eq!(apu.mode, SequencerMode::StepFive);
    assert_eq!(apu.pulse_one.length_counter(), 253);
    apu.write(0x4017, 0x00);
    assert_eq!(apu.pulse_one.length_counter(), 253);
}

#[test]
fn frame_irq_in_four_step_mode() {
    let mut apu = APU::new();
    apu.write(0x4017, 0x00);
    for _ in 0..(4 * 7458) {
        apu.tick();
    }
    assert!(apu.poll());
    assert_eq!(apu.read(0x4015) & 0x40, 0x40);
    assert!(!apu.poll());
    assert_eq!(apu.take_samples().len(), 4 * 7458);
}

#[test]
fn banks_translate() {
    let mut mem = vec![0u8; 0x8000];
    for i in 0..4 {
        mem[i * 0x2000] = i as u8 + 1;
    }
    let mut b = Banks::new(0x8000, 0xFFFF, 0x4000, mem, false);
    assert_eq!(b.read(0x8000), 1);
    assert_eq!(b.read(0xC000), 3);
    b.set(0, 1);
    assert_eq!(b.read(0x8000), 3);
    assert_eq!(b.translate(0x8001), 0x4001);
    assert_eq!(b.last(), 1);
    assert_eq!(b.capacity(), 0x8000);
    b.set_range(0, 1, 1);
    assert_eq!(b.read(0xC000), 1);
}

#[test]
fn mirroring_coefficients() {
    assert_eq!(Mirroring::Vertical.coeff(), [0, 1, 0, 1]);
    assert_eq!(Mirroring::Horizontal.coeff(), [0, 0, 1, 1]);
    assert_eq!(Mirroring::Single1.coeff(), [1, 1, 1, 1]);
}

#[test]
fn nrom_prg_ram_and_chr_ram() {
    let mut m = Mapper0::new(vec![], vec![0u8; 0x4000], Mirroring::Vertical);
    m.write(0x6005, 0x12);
    m.write(0x0010, 0x34);
    assert_eq!(m.read(0x6005), 0x12);
    assert_eq!(m.read(0x0010), 0x34);
    let mut wrapped = Mapper::Nrom(m);
    wrapped.write(0x7000, 9);
    assert_eq!(wrapped.read(0x7000), 9);
    assert_eq!(wrapped.mirroring(), Mirroring::Vertical);
    assert!(!wrapped.poll());
    assert!(from(7, vec![], vec![0u8; 0x4000], Mirroring::Vertical).is_none());
}

#[test]
fn mmc3_scanline_irq() {
    let mut m = from(4, vec![], vec![0u8; 0x8000], Mirroring::Vertical).unwrap();
    m.write(0xC000, 2);
    m.write(0xC001, 0);
    m.write(0xE001, 0);
    for _ in 0..3 {
        m.notify(neones::mapper::MapperEvent::HBlank);
    }
    assert!(m.poll());
    m.write(0xE000, 0);
    assert!(!m.poll());
}

#[test]
fn cnrom_selects_with_low_two_bits() {
    let mut chr = vec![0u8; 8 * 0x2000];
    for bank in 0..8 {
        chr[bank * 0x2000] = bank as u8 + 1;
    }
    let mut m = from(3, chr, vec![0u8; 0x4000], Mirroring::Vertical).unwrap();
    m.write(0x8000, 0x02);
    assert_eq!(m.read(0x0000), 3);
    m.write(0x8000, 0x04);
    assert_eq!(m.read(0x0000), 1);
    m.write(0x8000, 0x07);
    assert_eq!(m.read(0x0000), 4);
}

#[test]
fn unsupported_mapper_message_names_it() {
    assert_eq!(LoadError::UnsupportedMapper(17).message(), "Unsupported mapper: 17");
    assert_eq!(LoadError::UnsupportedMapper(5).message(), "Unsupported mapper: 5");
}

#[test]
fn sprite_evaluation_keeps_first_eight() {
    let mut ppu = blank_ppu();
    for i in 0..10usize {
        ppu.oam[4 * i] = 10;
        ppu.oam[4 * i + 2] = if i == 1 { 0x20 } else { 0 };
        ppu.oam[4 * i + 3] = i as u8 * 3;
    }
    for i in 10..64usize {
        ppu.oam[4 * i] = 0xF0;
    }
    ppu.registers.mask.value = 0x18;
    while !(ppu.scan.line == 12 && ppu.scan.dot == 257) {
        ppu.tick();
    }
    assert_eq!(ppu.sprites.count, 8);
    assert_eq!(ppu.sprites.indices[..8], [0, 1, 2, 3, 4, 5, 6, 7]);
    assert_eq!(ppu.sprites.positions[2], 6);
    assert_eq!(ppu.sprites.priorities[1], 1);
    assert_eq!(ppu.registers.status.value & 0x20, 0x20);
}
