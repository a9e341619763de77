use vstd::prelude::*;
use super::palette::Color;

verus! {

pub const WIDTH: usize = 256;
pub const HEIGHT: usize = 240;
/// Bytes per pixel.
pub const SCALE: usize = 3;

/// A 256 x 240 picture, three bytes (red, green, blue) per pixel, row by row.
pub struct Frame {
    pub data: Vec<u8>,
    pub number: usize,
}

/// Offset of the red byte of pixel (x, y).
pub open spec fn pixel_offset(x: int, y: int) -> int {
    y * 256 * 3 + x * 3
}

impl Frame {
    pub open spec fn wf(&self) -> bool {
        self.data@.len() == WIDTH * HEIGHT * SCALE
    }

    pub fn new() -> (r: Frame)
        ensures
            r.wf(),
            r.number == 0,
            forall|i: int| 0 <= i < r.data@.len() ==> r.data@[i] == 0,
    {
        Frame { data: vec![0u8; 256 * 240 * 3], number: 0 }
    }

    /// Paints pixel (x, y); coordinates off the picture change nothing.
    pub fn set_pixel(&mut self, x: usize, y: usize, color: Color)
        requires
            old(self).wf(),
        ensures
            final(self).wf(),
            final(self).number == old(self).number,
            x < 256 && y < 240 ==> final(self).data@ == old(self).data@
                .update(pixel_offset(x as int, y as int), color.0)
                .update(pixel_offset(x as int, y as int) + 1, color.1)
                .update(pixel_offset(x as int, y as int) + 2, color.2),
            !(x < 256 && y < 240) ==> final(self).data@ == old(self).data@,
    {
        if x < 256 && y < 240 {
            let loc = y * 256 * 3 + x * 3;
            self.data[loc] = color.0;
            self.data[loc + 1] = color.1;
            self.data[loc + 2] = color.2;
        }
    }
}

} // verus!
