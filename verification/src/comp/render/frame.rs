//! The picture: 256 by 240 pixels, three bytes each, red first.

use vstd::prelude::*;
use crate::comp::ppu::zeroed;

verus! {

pub const WIDTH: usize = 256;

pub const HEIGHT: usize = 240;

/// Bytes in a picture.
pub const FRAME_SIZE: usize = 184320;

pub struct Frame {
    pub data: Vec<u8>,
}

impl View for Frame {
    type V = Seq<u8>;

    open spec fn view(&self) -> Seq<u8> {
        self.data@
    }
}

impl Frame {
    /// A black picture.
    pub fn new() -> (frame: Frame)
        ensures
            frame@ == Seq::new(FRAME_SIZE as nat, |i: int| 0u8),
    {
        Frame { data: zeroed(FRAME_SIZE) }
    }

    /// Colours the pixel in column `x` of row `y`. A pixel outside the
    /// picture is left out.
    pub fn set_pixel(&mut self, x: usize, y: usize, rgb: (u8, u8, u8))
        ensures
            x < WIDTH && y < HEIGHT && old(self)@.len() == FRAME_SIZE ==> final(self)@ == old(
                self,
            )@.update((y * WIDTH + x) * 3, rgb.0).update((y * WIDTH + x) * 3 + 1, rgb.1).update(
                (y * WIDTH + x) * 3 + 2,
                rgb.2,
            ),
            !(x < WIDTH && y < HEIGHT && old(self)@.len() == FRAME_SIZE) ==> final(self)@ == old(
                self,
            )@,
    {
        if x < WIDTH && y < HEIGHT && self.data.len() == FRAME_SIZE {
            let base: usize = (y * WIDTH + x) * 3;
            self.data.set(base, rgb.0);
            self.data.set(base + 1, rgb.1);
            self.data.set(base + 2, rgb.2);
        }
    }
}

} // verus!
