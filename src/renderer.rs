use vstd::prelude::*;
use crate::system::joypad::Joypad;

verus! {

/// A host's display: receives each finished frame (256 x 240 RGB bytes)
/// together with the first controller, so input can be polled in step with
/// the picture.
pub trait Renderer {
    fn render(&mut self, frame: &Vec<u8>, joypad: &mut Joypad);
}

} // verus!
