pub mod dmc;
pub mod envelope;
pub mod lengthcounter;
pub mod noise;
pub mod pulse;
pub mod timer;
pub mod triangle;

use vstd::prelude::*;
use dmc::DMC;
use noise::Noise;
use pulse::{Pulse, PulseChannel};
use triangle::Triangle;

verus! {

/// Half CPU cycles between two frame sequencer steps (7457.5 cycles, a
/// quarter of a 60 Hz frame).
pub const SEQUENCER_HALF_CYCLES: u16 = 14915;

#[derive(Clone, Copy, PartialEq, Eq, Structural, Debug)]
pub enum SequencerMode {
    StepFour,
    StepFive,
}

impl SequencerMode {
    pub fn steps(&self) -> (r: u8)
        ensures
            r == if *self == SequencerMode::StepFour { 4u8 } else { 5u8 },
    {
        match self {
            SequencerMode::StepFour => 4,
            SequencerMode::StepFive => 5,
        }
    }
}

/// An interrupt source with an enable flag.
pub struct IRQ {
    pub enabled: bool,
    pub pending: bool,
}

impl IRQ {
    pub fn new() -> (r: IRQ)
        ensures
            !r.enabled && !r.pending,
    {
        IRQ { enabled: false, pending: false }
    }

    /// Disabling also drops a pending interrupt.
    pub fn set_enabled(&mut self, enabled: bool)
        ensures
            final(self).enabled == enabled,
            final(self).pending == (old(self).pending && enabled),
    {
        self.enabled = enabled;
        if !enabled {
            self.pending = false;
        }
    }
}

/// The five channel outputs at one CPU cycle; the host mixes them.
#[derive(Clone, Copy, PartialEq, Eq, Structural, Debug)]
pub struct Levels {
    pub pulse_one: u8,
    pub pulse_two: u8,
    pub triangle: u8,
    pub noise: u8,
    pub dmc: u8,
}

pub struct APU {
    pub pulse_one: Pulse,
    pub pulse_two: Pulse,
    pub triangle: Triangle,
    pub noise: Noise,
    pub dmc: DMC,
    pub mode: SequencerMode,
    pub step: u8,
    pub irq: IRQ,
    pub cycles: usize,
    pub sequencer: u16,
    pub samples: Vec<Levels>,
}

/// Length counter after a half-frame clock.
pub open spec fn length_after_half(counter: u8, halted: bool) -> u8 {
    if !halted && counter > 0 { (counter - 1) as u8 } else { counter }
}

impl APU {
    pub open spec fn wf(&self) -> bool {
        &&& self.pulse_one.wf()
        &&& self.pulse_two.wf()
        &&& self.triangle.wf()
        &&& self.noise.wf()
        &&& self.dmc.wf()
        &&& self.step < 5
        &&& self.sequencer < SEQUENCER_HALF_CYCLES
    }

    pub fn new() -> (r: APU)
        ensures
            r.wf(),
            r.mode == SequencerMode::StepFour,
            r.step == 0,
            !r.irq.pending && !r.irq.enabled,
            r.cycles == 0,
            r.samples@.len() == 0,
    {
        APU {
            pulse_one: Pulse::new(PulseChannel::One),
            pulse_two: Pulse::new(PulseChannel::Two),
            triangle: Triangle::new(),
            noise: Noise::new(),
            dmc: DMC::new(),
            mode: SequencerMode::StepFour,
            step: 0,
            irq: IRQ::new(),
            cycles: 0,
            sequencer: 0,
            samples: Vec::new(),
        }
    }

    /// Reads 0x4015 (status); other APU addresses read as 0.
    pub fn read(&mut self, addr: u16) -> (r: u8)
        requires
            old(self).wf(),
        ensures
            final(self).wf(),
            addr == 0x4015 ==> r == self_status(old(self)) && !final(self).irq.pending,
            addr != 0x4015 ==> r == 0,
            *final(self) == (APU { irq: final(self).irq, ..*old(self) }),
    {
        if addr == 0x4015 {
            self.read_status()
        } else {
            0
        }
    }

    /// Routes a register write at 0x4000..=0x4017 to its channel.
    pub fn write(&mut self, addr: u16, data: u8)
        requires
            old(self).wf(),
        ensures
            final(self).wf(),
            addr == 0x4017 ==> write_frame_counter_post(old(self), final(self), data),
            0x4000 <= addr <= 0x4003 ==> *final(self) == (APU { pulse_one: final(self).pulse_one, ..*old(self) }),
            0x4004 <= addr <= 0x4007 ==> *final(self) == (APU { pulse_two: final(self).pulse_two, ..*old(self) }),
            0x4008 <= addr <= 0x400B ==> *final(self) == (APU { triangle: final(self).triangle, ..*old(self) }),
            0x400C <= addr <= 0x400F ==> *final(self) == (APU { noise: final(self).noise, ..*old(self) }),
            0x4010 <= addr <= 0x4013 ==> *final(self) == (APU { dmc: final(self).dmc, ..*old(self) }),
            addr == 0x4000 ==> final(self).pulse_one.duty.cycle == (data >> 6) & 0x03
                && final(self).pulse_one.length.halted == (data & 0x20 != 0)
                && final(self).pulse_one.envelope.rate == data & 0x0F,
            addr == 0x4001 ==> final(self).pulse_one.sweep.enabled == (data & 0x80 != 0)
                && final(self).pulse_one.sweep.shift == data & 0x07 && final(self).pulse_one.sweep.reload,
            addr == 0x4002 ==> final(self).pulse_one.timer.period == (old(self).pulse_one.timer.period & 0xFF00) | data as u16,
            addr == 0x4003 ==> final(self).pulse_one.timer.period
                    == (old(self).pulse_one.timer.period & 0x00FF) | (((data & 0x07) as u16) << 8)
                && final(self).pulse_one.length.counter == if old(self).pulse_one.enabled {
                    lengthcounter::length_table(data >> 3) } else { old(self).pulse_one.length.counter },
            addr == 0x4006 ==> final(self).pulse_two.timer.period == (old(self).pulse_two.timer.period & 0xFF00) | data as u16,
            addr == 0x4007 ==> final(self).pulse_two.timer.period
                    == (old(self).pulse_two.timer.period & 0x00FF) | (((data & 0x07) as u16) << 8)
                && final(self).pulse_two.length.counter == if old(self).pulse_two.enabled {
                    lengthcounter::length_table(data >> 3) } else { old(self).pulse_two.length.counter },
            addr == 0x4008 ==> final(self).triangle.linear.period == data & 0x7F
                && final(self).triangle.linear.control == (data & 0x80 != 0),
            addr == 0x400B ==> final(self).triangle.timer.period
                    == (old(self).triangle.timer.period & 0x00FF) | (((data & 0x07) as u16) << 8)
                && final(self).triangle.linear.reload,
            addr == 0x400E ==> final(self).noise.timer.period == noise::noise_period(data & 0x0F),
            addr == 0x400F ==> final(self).noise.length.counter == if old(self).noise.enabled {
                    lengthcounter::length_table(data >> 3) } else { old(self).noise.length.counter },
            addr == 0x4010 ==> final(self).dmc.irq.enabled == (data & 0x80 != 0) && final(self).dmc.looped == (data & 0x40 != 0)
                && final(self).dmc.timer.period == dmc::dmc_period(data & 0x0F),
            addr == 0x4011 ==> final(self).dmc.buffer.value == data & 0x7F,
            addr == 0x4012 ==> final(self).dmc.load.address == 0xC000 + 64 * data as int,
            addr == 0x4013 ==> final(self).dmc.load.length == 16 * data as int + 1,
            addr == 0x4015 ==> final(self).pulse_one.enabled == (data & 0x01 != 0)
                && final(self).pulse_two.enabled == (data & 0x02 != 0)
                && final(self).triangle.enabled == (data & 0x04 != 0)
                && final(self).noise.enabled == (data & 0x08 != 0)
                && (data & 0x01 == 0 ==> final(self).pulse_one.length.counter == 0)
                && (data & 0x02 == 0 ==> final(self).pulse_two.length.counter == 0)
                && (data & 0x04 == 0 ==> final(self).triangle.length.counter == 0)
                && (data & 0x08 == 0 ==> final(self).noise.length.counter == 0)
                && (data & 0x10 == 0 ==> final(self).dmc.sample.length == 0),
    {
        if addr == 0x4000 {
            self.pulse_one.write_control(data);
        } else if addr == 0x4001 {
            self.pulse_one.write_sweep(data);
        } else if addr == 0x4002 {
            self.pulse_one.write_timer_lo(data);
        } else if addr == 0x4003 {
            self.pulse_one.write_timer_hi(data);
        } else if addr == 0x4004 {
            self.pulse_two.write_control(data);
        } else if addr == 0x4005 {
            self.pulse_two.write_sweep(data);
        } else if addr == 0x4006 {
            self.pulse_two.write_timer_lo(data);
        } else if addr == 0x4007 {
            self.pulse_two.write_timer_hi(data);
        } else if addr == 0x4008 {
            self.triangle.write_counter(data);
        } else if addr == 0x400A {
            self.triangle.write_timer_lo(data);
        } else if addr == 0x400B {
            self.triangle.write_timer_hi(data);
        } else if addr == 0x400C {
            self.noise.write_control(data);
        } else if addr == 0x400E {
            self.noise.write_timer(data);
        } else if addr == 0x400F {
            self.noise.write_length(data);
        } else if addr == 0x4010 {
            self.dmc.write_control(data);
        } else if addr == 0x4011 {
            self.dmc.write_output(data);
        } else if addr == 0x4012 {
            self.dmc.write_address(data);
        } else if addr == 0x4013 {
            self.dmc.write_length(data);
        } else if addr == 0x4015 {
            self.write_status(data);
        } else if addr == 0x4017 {
            self.write_frame_counter(data);
        }
    }

    /// Channel outputs right now.
    pub fn levels(&self) -> (r: Levels)
        requires
            self.wf(),
        ensures
            r.dmc == self.dmc.buffer.value,
            r.pulse_one <= 15 && r.pulse_two <= 15 && r.triangle <= 15 && r.noise <= 15,
    {
        proof {
            assert(self.pulse_one.envelope.wf() && self.pulse_two.envelope.wf() && self.noise.envelope.wf());
        }
        Levels {
            pulse_one: self.pulse_one.signal(),
            pulse_two: self.pulse_two.signal(),
            triangle: self.triangle.signal(),
            noise: self.noise.signal(),
            dmc: self.dmc.signal(),
        }
    }

    /// One CPU cycle: DMC fetch delay, channel timers, the frame sequencer
    /// every 7457.5 cycles, and one sample of the channel levels.
    pub fn tick(&mut self)
        requires
            old(self).wf(),
        ensures
            final(self).wf(),
            final(self).cycles == old(self).cycles.wrapping_add(1),
            final(self).samples@.len() == old(self).samples@.len() + 1,
            final(self).samples@.subrange(0, old(self).samples@.len() as int) == old(self).samples@,
            final(self).sequencer == if old(self).sequencer + 2 >= SEQUENCER_HALF_CYCLES {
                old(self).sequencer + 2 - SEQUENCER_HALF_CYCLES
            } else {
                old(self).sequencer + 2
            },
            final(self).step == if old(self).sequencer + 2 >= SEQUENCER_HALF_CYCLES {
                (old(self).step + 1) % (if old(self).mode == SequencerMode::StepFour { 4int } else { 5int })
            } else {
                old(self).step as int
            },
    {
        self.cycles = self.cycles.wrapping_add(1);
        self.dmc.tick_dma();
        self.timers();
        self.sequencer = self.sequencer + 2;
        if self.sequencer >= SEQUENCER_HALF_CYCLES {
            self.sequencer = self.sequencer - SEQUENCER_HALF_CYCLES;
            self.frame();
        }
        let l = self.levels();
        self.samples.push(l);
    }

    /// Whether the frame counter or the DMC asserts IRQ.
    pub fn poll(&self) -> (r: bool)
        ensures
            r == (self.irq.pending || self.dmc.irq.pending),
    {
        self.irq.pending || self.dmc.irq.pending
    }

    /// Takes the DMC's pending fetch request.
    pub fn dma(&mut self) -> (r: bool)
        requires
            old(self).wf(),
        ensures
            final(self).wf(),
            r == old(self).dmc.dma.pending,
            !final(self).dmc.dma.pending,
            final(self).dmc.sample == old(self).dmc.sample,
            final(self).cycles == old(self).cycles,
            final(self).samples == old(self).samples,
            final(self).step == old(self).step,
            final(self).sequencer == old(self).sequencer,
    {
        self.dmc.dma()
    }

    pub fn dma_addr(&self) -> (r: u16)
        ensures
            r == self.dmc.sample.address,
    {
        self.dmc.dma_addr()
    }

    /// Hands a fetched sample byte to the DMC.
    pub fn dmcdma(&mut self, val: u8)
        requires
            old(self).wf(),
        ensures
            final(self).wf(),
            final(self).cycles == old(self).cycles,
            final(self).samples == old(self).samples,
            final(self).step == old(self).step,
            final(self).sequencer == old(self).sequencer,
            old(self).dmc.loaded(&final(self).dmc, val),
            *final(self) == (APU { dmc: final(self).dmc, ..*old(self) }),
    {
        self.dmc.load(val);
    }

    /// Removes and returns the samples gathered so far.
    pub fn take_samples(&mut self) -> (r: Vec<Levels>)
        ensures
            r@ == old(self).samples@,
            final(self).samples@.len() == 0,
            *final(self) == (APU { samples: final(self).samples, ..*old(self) }),
    {
        self.samples.split_off(0)
    }

    fn timers(&mut self)
        requires
            old(self).wf(),
        ensures
            final(self).wf(),
            final(self).mode == old(self).mode,
            final(self).step == old(self).step,
            final(self).cycles == old(self).cycles,
            final(self).sequencer == old(self).sequencer,
            final(self).samples == old(self).samples,
    {
        self.triangle.timer();
        if self.cycles % 2 == 0 {
            self.pulse_one.timer();
            self.pulse_two.timer();
            self.noise.timer();
            self.dmc.timer();
        }
    }

    /// Quarter-frame clock: envelopes and the triangle's linear counter.
    fn quarter(&mut self)
        requires
            old(self).wf(),
        ensures
            final(self).wf(),
            final(self).pulse_one.length == old(self).pulse_one.length,
            final(self).pulse_two.length == old(self).pulse_two.length,
            final(self).triangle.length == old(self).triangle.length,
            final(self).noise.length == old(self).noise.length,
            final(self).triangle.linear.counter == if old(self).triangle.linear.reload {
                old(self).triangle.linear.period
            } else if old(self).triangle.linear.counter > 0 {
                (old(self).triangle.linear.counter - 1) as u8
            } else {
                0
            },
            final(self).mode == old(self).mode,
            final(self).step == old(self).step,
            final(self).irq == old(self).irq,
            final(self).cycles == old(self).cycles,
            final(self).sequencer == old(self).sequencer,
            final(self).samples == old(self).samples,
            old(self).pulse_one.envelope.ticked(&final(self).pulse_one.envelope),
            old(self).pulse_two.envelope.ticked(&final(self).pulse_two.envelope),
            old(self).noise.envelope.ticked(&final(self).noise.envelope),
            final(self).pulse_one == (Pulse { envelope: final(self).pulse_one.envelope, ..old(self).pulse_one }),
            final(self).pulse_two == (Pulse { envelope: final(self).pulse_two.envelope, ..old(self).pulse_two }),
    {
        self.pulse_one.quarter();
        self.pulse_two.quarter();
        self.triangle.quarter();
        self.noise.quarter();
    }

    /// Half-frame clock: length counters and sweeps.
    fn half(&mut self)
        requires
            old(self).wf(),
        ensures
            final(self).wf(),
            final(self).pulse_one.length.counter == length_after_half(old(self).pulse_one.length.counter, old(self).pulse_one.length.halted),
            final(self).pulse_two.length.counter == length_after_half(old(self).pulse_two.length.counter, old(self).pulse_two.length.halted),
            final(self).triangle.length.counter == length_after_half(old(self).triangle.length.counter, old(self).triangle.length.halted),
            final(self).noise.length.counter == length_after_half(old(self).noise.length.counter, old(self).noise.length.halted),
            final(self).pulse_one.length.halted == old(self).pulse_one.length.halted,
            final(self).pulse_two.length.halted == old(self).pulse_two.length.halted,
            final(self).triangle.length.halted == old(self).triangle.length.halted,
            final(self).noise.length.halted == old(self).noise.length.halted,
            final(self).triangle.linear == old(self).triangle.linear,
            old(self).pulse_one.sweep_post(&Pulse { length: old(self).pulse_one.length, ..final(self).pulse_one }),
            old(self).pulse_two.sweep_post(&Pulse { length: old(self).pulse_two.length, ..final(self).pulse_two }),
            final(self).noise.envelope == old(self).noise.envelope,
            final(self).mode == old(self).mode,
            final(self).step == old(self).step,
            final(self).irq == old(self).irq,
            final(self).cycles == old(self).cycles,
            final(self).sequencer == old(self).sequencer,
            final(self).samples == old(self).samples,
    {
        self.pulse_one.half();
        self.pulse_two.half();
        self.triangle.half();
        self.noise.half();
    }

    /// One frame sequencer step: quarter frames on steps 0..3, half frames
    /// on 1 and 3, the frame IRQ on step 3 in four-step mode.
    fn frame(&mut self)
        requires
            old(self).wf(),
        ensures
            final(self).wf(),
            final(self).step == (old(self).step + 1) % (if old(self).mode == SequencerMode::StepFour { 4int } else { 5int }),
            final(self).irq.pending == (old(self).irq.pending
                || (final(self).step == 3 && old(self).mode == SequencerMode::StepFour && old(self).irq.enabled)),
            final(self).mode == old(self).mode,
            final(self).cycles == old(self).cycles,
            final(self).sequencer == old(self).sequencer,
            final(self).samples == old(self).samples,
    {
        let steps = self.mode.steps();
        self.step = (self.step + 1) % steps;
        if self.step == 0 || self.step == 2 {
            self.quarter();
        } else if self.step == 1 || self.step == 3 {
            self.quarter();
            self.half();
        }
        if self.step == 3 && self.mode == SequencerMode::StepFour && self.irq.enabled {
            self.irq.pending = true;
        }
    }

    /// Status read: one bit per channel with a running length counter (bits
    /// 0..4), the frame IRQ (bit 6) and the DMC IRQ (bit 7); clears the
    /// frame IRQ.
    fn read_status(&mut self) -> (r: u8)
        requires
            old(self).wf(),
        ensures
            final(self).wf(),
            r == self_status(old(self)),
            *final(self) == (APU { irq: IRQ { pending: false, ..old(self).irq }, ..*old(self) }),
    {
        let status: u8 = (if self.pulse_one.length_counter() > 0 { 0x01u8 } else { 0u8 })
            | (if self.pulse_two.length_counter() > 0 { 0x02u8 } else { 0u8 })
            | (if self.triangle.length_counter() > 0 { 0x04u8 } else { 0u8 })
            | (if self.noise.length_counter() > 0 { 0x08u8 } else { 0u8 })
            | (if self.dmc.length() > 0 { 0x10u8 } else { 0u8 })
            | (if self.irq.pending { 0x40u8 } else { 0u8 })
            | (if self.dmc.irq.pending { 0x80u8 } else { 0u8 });
        self.irq.pending = false;
        status
    }

    /// Status write: enable bits of the five channels.
    fn write_status(&mut self, val: u8)
        requires
            old(self).wf(),
        ensures
            final(self).wf(),
            final(self).pulse_one.enabled == (val & 0x01 != 0),
            final(self).pulse_two.enabled == (val & 0x02 != 0),
            final(self).triangle.enabled == (val & 0x04 != 0),
            final(self).noise.enabled == (val & 0x08 != 0),
            val & 0x10 == 0 ==> final(self).dmc.sample.length == 0,
            val & 0x01 == 0 ==> final(self).pulse_one.length.counter == 0,
            val & 0x02 == 0 ==> final(self).pulse_two.length.counter == 0,
            val & 0x04 == 0 ==> final(self).triangle.length.counter == 0,
            val & 0x08 == 0 ==> final(self).noise.length.counter == 0,
            final(self).mode == old(self).mode,
            final(self).step == old(self).step,
            final(self).irq == old(self).irq,
    {
        self.pulse_one.set_enabled(val & 0x01 != 0);
        self.pulse_two.set_enabled(val & 0x02 != 0);
        self.triangle.set_enabled(val & 0x04 != 0);
        self.noise.set_enabled(val & 0x08 != 0);
        let cycles = self.cycles;
        self.dmc.set_enabled(val & 0x10 != 0, cycles);
    }

    /// Frame counter write: bit 7 selects five-step mode and clocks a
    /// quarter and a half frame at once; bit 6 disables (and clears) the
    /// frame IRQ.
    fn write_frame_counter(&mut self, val: u8)
        requires
            old(self).wf(),
        ensures
            final(self).wf(),
            write_frame_counter_post(old(self), final(self), val),
    {
        self.mode = if val & 0x80 == 0 { SequencerMode::StepFour } else { SequencerMode::StepFive };
        self.irq.set_enabled(val & 0x40 == 0);
        if self.mode == SequencerMode::StepFive {
            self.quarter();
            self.half();
        }
    }
}

/// The status byte that a read of 0x4015 returns.
pub open spec fn self_status(a: &APU) -> u8 {
    (if a.pulse_one.length.counter > 0 { 0x01u8 } else { 0u8 })
        | (if a.pulse_two.length.counter > 0 { 0x02u8 } else { 0u8 })
        | (if a.triangle.length.counter > 0 { 0x04u8 } else { 0u8 })
        | (if a.noise.length.counter > 0 { 0x08u8 } else { 0u8 })
        | (if a.dmc.sample.length > 0 { 0x10u8 } else { 0u8 })
        | (if a.irq.pending { 0x40u8 } else { 0u8 })
        | (if a.dmc.irq.pending { 0x80u8 } else { 0u8 })
}

/// What a frame counter write leaves: the mode and IRQ enable from the
/// value, and with bit 7 set a quarter and a half frame already clocked.
pub open spec fn write_frame_counter_post(o: &APU, f: &APU, val: u8) -> bool {
    &&& f.mode == if val & 0x80 == 0 { SequencerMode::StepFour } else { SequencerMode::StepFive }
    &&& f.irq.enabled == (val & 0x40 == 0)
    &&& f.irq.pending == (o.irq.pending && val & 0x40 == 0)
    &&& f.step == o.step
    &&& if val & 0x80 != 0 {
        &&& f.pulse_one.length.counter == length_after_half(o.pulse_one.length.counter, o.pulse_one.length.halted)
        &&& f.pulse_two.length.counter == length_after_half(o.pulse_two.length.counter, o.pulse_two.length.halted)
        &&& f.triangle.length.counter == length_after_half(o.triangle.length.counter, o.triangle.length.halted)
        &&& f.noise.length.counter == length_after_half(o.noise.length.counter, o.noise.length.halted)
        &&& o.pulse_one.envelope.ticked(&f.pulse_one.envelope)
        &&& o.pulse_two.envelope.ticked(&f.pulse_two.envelope)
        &&& o.noise.envelope.ticked(&f.noise.envelope)
        &&& o.pulse_one.sweep_post(&Pulse { envelope: o.pulse_one.envelope, length: o.pulse_one.length, ..f.pulse_one })
        &&& o.pulse_two.sweep_post(&Pulse { envelope: o.pulse_two.envelope, length: o.pulse_two.length, ..f.pulse_two })
        &&& f.triangle.linear.counter == if o.triangle.linear.reload {
            o.triangle.linear.period
        } else if o.triangle.linear.counter > 0 {
            (o.triangle.linear.counter - 1) as u8
        } else {
            0
        }
    } else {
        &&& f.pulse_one.length == o.pulse_one.length
        &&& f.pulse_two.length == o.pulse_two.length
        &&& f.triangle.length == o.triangle.length
        &&& f.noise.length == o.noise.length
    }
}

} // verus!
