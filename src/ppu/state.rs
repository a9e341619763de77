use vstd::prelude::*;

verus! {

/// Background fetch state and the data port's read buffer.
pub struct State {
    pub buffer: u8,
    pub odd: bool,
    pub tile: u64,
    pub attrtable: u8,
    pub hitile: u8,
    pub lotile: u8,
    pub nametable: u8,
}

/// Position of the beam: scanline 0..=261, dot 0..=340.
pub struct RenderState {
    pub line: u16,
    pub dot: u16,
}

/// The up to eight sprites selected for the current scanline.
pub struct SpriteState {
    pub count: usize,
    pub indices: Vec<u8>,
    pub patterns: Vec<u32>,
    pub positions: Vec<u8>,
    pub priorities: Vec<u8>,
}

impl State {
    pub fn new() -> (r: State)
        ensures
            r.buffer == 0,
            !r.odd,
            r.tile == 0,
    {
        State { buffer: 0, odd: false, tile: 0, attrtable: 0, hitile: 0, lotile: 0, nametable: 0 }
    }
}

impl RenderState {
    pub fn new() -> (r: RenderState)
        ensures
            r.line == 0,
            r.dot == 0,
    {
        RenderState { line: 0, dot: 0 }
    }
}

impl SpriteState {
    pub open spec fn wf(&self) -> bool {
        &&& self.count <= 8
        &&& self.indices@.len() == 8
        &&& self.patterns@.len() == 8
        &&& self.positions@.len() == 8
        &&& self.priorities@.len() == 8
    }

    pub fn new() -> (r: SpriteState)
        ensures
            r.wf(),
            r.count == 0,
    {
        SpriteState {
            count: 0,
            indices: vec![0u8; 8],
            patterns: vec![0u32; 8],
            positions: vec![0u8; 8],
            priorities: vec![0u8; 8],
        }
    }
}

} // verus!
