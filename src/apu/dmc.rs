use vstd::prelude::*;
use super::IRQ;
use super::timer::Timer;

verus! {

#[derive(Clone, Copy, PartialEq, Eq, Structural, Debug)]
pub struct Sample {
    pub address: u16,
    pub length: u16,
}

/// A pending request for a sample byte, and the countdown before it.
pub struct DMA {
    pub pending: bool,
    pub delay: u8,
}

/// The output unit: level, bits left, shift register and the sample buffer.
pub struct Buffer {
    pub value: u8,
    pub bits: u8,
    pub shift: u8,
    pub silent: bool,
    pub reload: bool,
    pub sample: u8,
}

/// Delta modulation channel: plays one-bit deltas of bytes fetched from CPU
/// memory.
pub struct DMC {
    pub irq: IRQ,
    pub looped: bool,
    pub timer: Timer,
    pub sample: Sample,
    pub load: Sample,
    pub dma: DMA,
    pub buffer: Buffer,
}

/// Timer periods selected by the low four bits of the control write.
pub open spec fn dmc_period(index: u8) -> u16 {
    let t = seq![
        0x1ACu16, 0x17C, 0x154, 0x140, 0x11E, 0x0FE, 0x0E2, 0x0D6,
        0x0BE, 0x0A0, 0x08E, 0x080, 0x06A, 0x054, 0x048, 0x036,
    ];
    t[index as int % 16]
}

impl DMA {
    pub fn new() -> (r: DMA)
        ensures
            !r.pending && r.delay == 0,
    {
        DMA { pending: false, delay: 0 }
    }

    /// Counts the delay down; true when it reaches zero.
    pub fn tick(&mut self) -> (r: bool)
        ensures
            r == (old(self).delay == 1),
            final(self).delay == if old(self).delay > 0 { (old(self).delay - 1) as u8 } else { 0 },
            final(self).pending == old(self).pending,
    {
        if self.delay > 0 {
            self.delay = self.delay - 1;
            if self.delay == 0 {
                return true;
            }
        }
        false
    }
}

impl DMC {
    pub open spec fn wf(&self) -> bool {
        self.buffer.value <= 0x7F
    }

    pub fn new() -> (r: DMC)
        ensures
            r.wf(),
            r.sample.length == 0,
            !r.irq.pending && !r.irq.enabled,
            !r.dma.pending,
    {
        DMC {
            irq: IRQ::new(),
            looped: false,
            timer: Timer::new(),
            sample: Sample { address: 0, length: 0 },
            load: Sample { address: 0, length: 0 },
            dma: DMA::new(),
            buffer: Buffer { value: 0, bits: 0, shift: 0, silent: true, reload: false, sample: 0 },
        }
    }

    /// Bytes left in the current sample.
    pub fn length(&self) -> (r: u16)
        ensures
            r == self.sample.length,
    {
        self.sample.length
    }

    /// Status-register enable: enabling restarts an exhausted sample and
    /// schedules its first fetch (one cycle later on odd CPU cycles);
    /// disabling drops what is left. Either way the DMC IRQ clears.
    pub fn set_enabled(&mut self, enabled: bool, cycle: usize)
        requires
            old(self).wf(),
        ensures
            final(self).wf(),
            !final(self).irq.pending,
            final(self).irq.enabled == old(self).irq.enabled,
            !enabled ==> final(self).sample.length == 0,
            enabled && old(self).sample.length == 0 ==> final(self).sample == old(self).load
                && final(self).dma.delay == if cycle % 2 == 1 { 3u8 } else { 2u8 },
            enabled && old(self).sample.length != 0 ==> final(self).sample == old(self).sample,
    {
        self.irq.pending = false;
        if enabled {
            if self.sample.length == 0 {
                self.reset();
                self.dma.delay = if cycle % 2 == 1 { 3 } else { 2 };
            }
        } else {
            self.sample.length = 0;
        }
    }

    fn reset(&mut self)
        ensures
            *final(self) == (DMC { sample: old(self).load, ..*old(self) }),
    {
        self.sample = self.load;
    }

    /// IRQ enable (bit 7), loop (bit 6) and rate (bits 0..3).
    pub fn write_control(&mut self, val: u8)
        requires
            old(self).wf(),
        ensures
            final(self).wf(),
            final(self).irq.enabled == (val & 0x80 != 0),
            !(val & 0x80 != 0) ==> !final(self).irq.pending,
            final(self).looped == (val & 0x40 != 0),
            final(self).timer.period == dmc_period(val & 0x0F),
            final(self).sample == old(self).sample,
    {
        self.irq.set_enabled(val & 0x80 != 0);
        self.looped = val & 0x40 != 0;
        let table: [u16; 16] = [
            0x1AC, 0x17C, 0x154, 0x140, 0x11E, 0x0FE, 0x0E2, 0x0D6,
            0x0BE, 0x0A0, 0x08E, 0x080, 0x06A, 0x054, 0x048, 0x036,
        ];
        proof {
            assert(table@ =~= seq![
                0x1ACu16, 0x17C, 0x154, 0x140, 0x11E, 0x0FE, 0x0E2, 0x0D6,
                0x0BE, 0x0A0, 0x08E, 0x080, 0x06A, 0x054, 0x048, 0x036,
            ]);
            assert(val & 0x0F < 16) by (bit_vector);
        }
        self.timer.period = table[(val & 0x0F) as usize];
    }

    /// Direct load of the output level (seven bits).
    pub fn write_output(&mut self, val: u8)
        requires
            old(self).wf(),
        ensures
            final(self).wf(),
            final(self).buffer.value == val & 0x7F,
            final(self).sample == old(self).sample,
    {
        self.buffer.value = val & 0x7F;
        proof {
            assert(val & 0x7F <= 0x7F) by (bit_vector);
        }
    }

    /// Sample start address: 0xC000 + 64 * val.
    pub fn write_address(&mut self, val: u8)
        requires
            old(self).wf(),
        ensures
            final(self).wf(),
            final(self).load.address == 0xC000 + 64 * val as int,
            final(self).load.length == old(self).load.length,
            final(self).sample == old(self).sample,
    {
        self.load.address = 0xC000 + 64 * (val as u16);
    }

    /// Sample length: 16 * val + 1 bytes.
    pub fn write_length(&mut self, val: u8)
        requires
            old(self).wf(),
        ensures
            final(self).wf(),
            final(self).load.length == 16 * val as int + 1,
            final(self).load.address == old(self).load.address,
            final(self).sample == old(self).sample,
    {
        self.load.length = 16 * (val as u16) + 1;
    }

    /// Takes the pending fetch request.
    pub fn dma(&mut self) -> (r: bool)
        ensures
            r == old(self).dma.pending,
            !final(self).dma.pending,
            final(self).sample == old(self).sample,
            final(self).buffer == old(self).buffer,
            final(self).irq == old(self).irq,
            final(self).timer == old(self).timer,
            final(self).load == old(self).load,
            final(self).looped == old(self).looped,
            final(self).dma.delay == old(self).dma.delay,
    {
        let res = self.dma.pending;
        self.dma.pending = false;
        res
    }

    /// Address of the next sample byte.
    pub fn dma_addr(&self) -> (r: u16)
        ensures
            r == self.sample.address,
    {
        self.sample.address
    }

    /// `f` is this channel after receiving the fetched byte `val`.
    pub open spec fn loaded(&self, f: &DMC, val: u8) -> bool {
        if self.sample.length == 0 {
            *f == *self
        } else {
            let next = Sample {
                address: if self.sample.address == 0xFFFF { 0x8000u16 } else { (self.sample.address + 1) as u16 },
                length: (self.sample.length - 1) as u16,
            };
            let ends = self.sample.length == 1;
            *f == (DMC {
                buffer: Buffer { sample: val, reload: false, ..self.buffer },
                sample: if ends && self.looped { self.load } else { next },
                irq: if ends && !self.looped && self.irq.enabled { IRQ { pending: true, ..self.irq } } else { self.irq },
                ..*self
            })
        }
    }

    /// Receives a fetched byte: it fills the sample buffer, the address moves
    /// on (0xFFFF wraps to 0x8000) and the length down; at the end the
    /// sample loops or raises the IRQ.
    pub fn load(&mut self, val: u8)
        requires
            old(self).wf(),
        ensures
            final(self).wf(),
            old(self).loaded(final(self), val),
    {
        if self.sample.length > 0 {
            self.buffer.sample = val;
            self.buffer.reload = false;
            self.sample.address = if self.sample.address == 0xFFFF { 0x8000 } else { self.sample.address + 1 };
            self.sample.length = self.sample.length - 1;
            if self.sample.length == 0 {
                if self.looped {
                    self.reset();
                } else if self.irq.enabled {
                    self.irq.pending = true;
                }
            }
        }
    }

    /// CPU-cycle clock of the fetch delay; when it runs out and the buffer
    /// is empty with bytes left, a fetch is requested.
    pub fn tick_dma(&mut self)
        requires
            old(self).wf(),
        ensures
            final(self).wf(),
            final(self).dma.pending == (old(self).dma.pending
                || (old(self).dma.delay == 1 && old(self).buffer.reload && old(self).sample.length > 0)),
            final(self).sample == old(self).sample,
            final(self).irq == old(self).irq,
            final(self).buffer == old(self).buffer,
    {
        if self.dma.tick() {
            if self.buffer.reload && self.sample.length > 0 {
                self.dma.pending = true;
            }
        }
    }

    /// Output clock: each bit of the shift register moves the level up or
    /// down by 2 (within 0..=0x7F); after eight bits the buffered byte is
    /// taken and a new fetch requested.
    pub fn timer(&mut self)
        requires
            old(self).wf(),
        ensures
            final(self).wf(),
            final(self).sample == old(self).sample,
            final(self).irq == old(self).irq,
            old(self).timer.current == 0 && !old(self).buffer.silent ==> final(self).buffer.value == if old(self).buffer.shift & 0x01 == 0x01 {
                if old(self).buffer.value <= 0x7D { (old(self).buffer.value + 2) as u8 } else { old(self).buffer.value }
            } else if old(self).buffer.value >= 2 {
                (old(self).buffer.value - 2) as u8
            } else {
                old(self).buffer.value
            },
            !(old(self).timer.current == 0 && !old(self).buffer.silent) ==> final(self).buffer.value == old(self).buffer.value,
            old(self).timer.current != 0 ==> final(self).buffer == old(self).buffer,
            ({
                let left = if old(self).buffer.bits > 0 { (old(self).buffer.bits - 1) as u8 } else { 0u8 };
                let shifted = if old(self).buffer.silent { old(self).buffer.shift } else { old(self).buffer.shift >> 1u8 };
                old(self).timer.current == 0 ==> {
                    &&& final(self).buffer.bits == if left == 0 { 8u8 } else { left }
                    &&& left != 0 ==> final(self).buffer.shift == shifted
                        && final(self).buffer.silent == old(self).buffer.silent
                        && final(self).buffer.reload == old(self).buffer.reload
                    &&& left == 0 && old(self).buffer.reload ==> final(self).buffer.silent
                        && final(self).buffer.shift == shifted
                    &&& left == 0 && !old(self).buffer.reload ==> !final(self).buffer.silent
                        && final(self).buffer.shift == old(self).buffer.sample
                        && final(self).buffer.reload
                        && (old(self).sample.length > 0 ==> final(self).dma.pending)
                }
            }),
    {
        if self.timer.tick_cycles(2) {
            if !self.buffer.silent {
                if self.buffer.shift & 0x01 == 0x01 {
                    if self.buffer.value <= 0x7D {
                        self.buffer.value = self.buffer.value + 2;
                    }
                } else if self.buffer.value >= 2 {
                    self.buffer.value = self.buffer.value - 2;
                }
                self.buffer.shift = self.buffer.shift >> 1;
            }
            self.buffer.bits = self.buffer.bits.saturating_sub(1);
            if self.buffer.bits == 0 {
                self.buffer.bits = 8;
                if self.buffer.reload {
                    self.buffer.silent = true;
                } else {
                    self.buffer.silent = false;
                    self.buffer.shift = self.buffer.sample;
                    self.buffer.reload = true;
                    if self.sample.length > 0 {
                        self.dma.pending = true;
                    }
                }
            }
        }
    }

    /// Output level 0..0x7F.
    pub fn signal(&self) -> (r: u8)
        requires
            self.wf(),
        ensures
            r == self.buffer.value,
            r <= 0x7F,
    {
        self.buffer.value
    }
}

} // verus!
