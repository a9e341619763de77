use vstd::prelude::*;

verus! {

/// The console's 2 KiB of work RAM, repeated through 0x0000..0x1FFF.
pub struct Memory {
    pub ram: Vec<u8>,
}

impl Memory {
    pub open spec fn wf(&self) -> bool {
        self.ram@.len() == 0x800
    }

    pub fn new() -> (r: Memory)
        ensures
            r.wf(),
            r.ram@ == Seq::new(0x800, |i: int| 0u8),
    {
        let ram: Vec<u8> = vec![0u8; 0x800];
        proof {
            assert(ram@ =~= Seq::new(0x800, |i: int| 0u8));
        }
        Memory { ram }
    }

    pub fn read(&self, addr: u16) -> (r: u8)
        requires
            self.wf(),
        ensures
            r == self.ram@[addr as int % 0x800],
    {
        self.ram[(addr % 0x800) as usize]
    }

    pub fn write(&mut self, addr: u16, data: u8)
        requires
            old(self).wf(),
        ensures
            final(self).wf(),
            final(self).ram@ == old(self).ram@.update(addr as int % 0x800, data),
    {
        self.ram[(addr % 0x800) as usize] = data;
    }
}

} // verus!
