//! The PPU SCROLL register: two latched writes through `$2005`, X first,
//! then Y.

use vstd::prelude::*;

verus! {

/// The scroll register after one write: the first of a pair sets X, the
/// second sets Y.
pub open spec fn spec_scroll_write(s: ScrollRegister, data: u8) -> ScrollRegister {
    ScrollRegister {
        scroll_x: if !s.scroll_switch {
            data
        } else {
            s.scroll_x
        },
        scroll_y: if s.scroll_switch {
            data
        } else {
            s.scroll_y
        },
        scroll_switch: !s.scroll_switch,
    }
}

pub struct ScrollRegister {
    pub scroll_x: u8,
    pub scroll_y: u8,
    pub scroll_switch: bool,
}

impl ScrollRegister {
    pub fn new() -> (r: ScrollRegister)
        ensures
            r.scroll_x == 0,
            r.scroll_y == 0,
            !r.scroll_switch,
    {
        ScrollRegister { scroll_x: 0, scroll_y: 0, scroll_switch: false }
    }

    /// One CPU write: the first of a pair sets X, the second sets Y.
    pub fn write(&mut self, data: u8)
        ensures
            *final(self) == spec_scroll_write(*old(self), data),
            final(self).scroll_x == if !old(self).scroll_switch {
                data
            } else {
                old(self).scroll_x
            },
            final(self).scroll_y == if old(self).scroll_switch {
                data
            } else {
                old(self).scroll_y
            },
            final(self).scroll_switch == !old(self).scroll_switch,
    {
        if !self.scroll_switch {
            self.scroll_x = data;
        } else {
            self.scroll_y = data;
        }
        self.scroll_switch = !self.scroll_switch;
    }

    /// Reading STATUS rewinds the latch so the next write sets X.
    pub fn reset_scroll_switch(&mut self)
        ensures
            final(self).scroll_x == old(self).scroll_x,
            final(self).scroll_y == old(self).scroll_y,
            !final(self).scroll_switch,
    {
        self.scroll_switch = false;
    }
}

} // verus!
