//! The host-visible frame: a 256 x 240 grid of RGB bytes, row-major.

use vstd::prelude::*;

verus! {

pub const WIDTH: usize = 256;

pub const HEIGHT: usize = 240;

pub struct Frame {
    pub data: Vec<u8>,
}

impl Frame {
    /// A frame buffer holds three bytes for each of the 256 x 240 pixels.
    pub open spec fn wf(self) -> bool {
        self.data@.len() == 256 * 240 * 3
    }

    pub fn new() -> (r: Frame)
        ensures
            r.wf(),
            forall|i: int| 0 <= i < r.data@.len() ==> r.data@[i] == 0,
    {
        let mut data: Vec<u8> = Vec::new();
        let mut i: usize = 0;
        while i < WIDTH * HEIGHT * 3
            invariant
                i <= 256 * 240 * 3,
                data@.len() == i,
                forall|j: int| 0 <= j < i ==> data@[j] == 0,
            decreases 256 * 240 * 3 - i,
        {
            data.push(0);
            i += 1;
        }
        Frame { data }
    }

    /// Writes one pixel; coordinates outside the visible grid are dropped.
    pub fn set_pixel(&mut self, x: usize, y: usize, rgb: (u8, u8, u8))
        requires
            old(self).wf(),
        ensures
            final(self).wf(),
            (x < 256 && y < 240) ==> ({
                let base = y * 3 * 256 + x * 3;
                final(self).data@ == old(self).data@.update(base as int, rgb.0).update(
                    base + 1,
                    rgb.1,
                ).update(base + 2, rgb.2)
            }),
            !(x < 256 && y < 240) ==> final(self).data@ == old(self).data@,
    {
        if x < WIDTH && y < HEIGHT {
            let base = y * 3 * WIDTH + x * 3;
            self.data[base] = rgb.0;
            self.data[base + 1] = rgb.1;
            self.data[base + 2] = rgb.2;
        }
    }
}

} // verus!
