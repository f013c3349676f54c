//! The two controllers: a strobe latch, a read index and an 8-bit button
//! mask reported one bit per read, low bit first.

use vstd::prelude::*;

verus! {

/// One of the eight buttons; `mask` gives its bit in the serial report,
/// listed LSB to MSB: A, B, Select, Start, Up, Down, Left, Right.
#[allow(non_camel_case_types)]
#[derive(Debug, Clone, Copy, PartialEq, Eq, Structural)]
pub enum JoypadButton {
    BUTTON_A,
    BUTTON_B,
    SELECT,
    START,
    UP,
    DOWN,
    LEFT,
    RIGHT,
}

impl JoypadButton {
    pub open spec fn spec_mask(self) -> u8 {
        match self {
            JoypadButton::BUTTON_A => 0b0000_0001,
            JoypadButton::BUTTON_B => 0b0000_0010,
            JoypadButton::SELECT => 0b0000_0100,
            JoypadButton::START => 0b0000_1000,
            JoypadButton::UP => 0b0001_0000,
            JoypadButton::DOWN => 0b0010_0000,
            JoypadButton::LEFT => 0b0100_0000,
            JoypadButton::RIGHT => 0b1000_0000,
        }
    }

    pub fn mask(self) -> (r: u8)
        ensures
            r == self.spec_mask(),
    {
        match self {
            JoypadButton::BUTTON_A => 0b0000_0001,
            JoypadButton::BUTTON_B => 0b0000_0010,
            JoypadButton::SELECT => 0b0000_0100,
            JoypadButton::START => 0b0000_1000,
            JoypadButton::UP => 0b0001_0000,
            JoypadButton::DOWN => 0b0010_0000,
            JoypadButton::LEFT => 0b0100_0000,
            JoypadButton::RIGHT => 0b1000_0000,
        }
    }
}

pub struct Joypad {
    pub strobe: bool,
    pub button_index: u8,
    pub button_status: u8,
}

/// The value one read returns: past the eighth button every read reports 1,
/// otherwise the bit of the mask selected by the read index.
pub open spec fn spec_read_value(j: Joypad) -> u8 {
    if j.button_index > 7 {
        1
    } else {
        (j.button_status >> j.button_index) & 1
    }
}

/// The state after one read: with the strobe low the read index advances
/// until it has walked past the last button.
pub open spec fn spec_read_step(j: Joypad) -> Joypad {
    if !j.strobe && j.button_index <= 7 {
        Joypad { button_index: (j.button_index + 1) as u8, ..j }
    } else {
        j
    }
}

/// The state after a register write: bit 0 sets the strobe, and raising the
/// strobe rewinds the read index to the first button.
pub open spec fn spec_write(j: Joypad, data: u8) -> Joypad {
    Joypad {
        strobe: data & 1 == 1,
        button_index: if data & 1 == 1 {
            0
        } else {
            j.button_index
        },
        ..j
    }
}

/// The state after `n` consecutive reads.
pub open spec fn spec_read_step_n(j: Joypad, n: nat) -> Joypad
    decreases n,
{
    if n == 0 {
        j
    } else {
        spec_read_step(spec_read_step_n(j, (n - 1) as nat))
    }
}

impl Joypad {
    pub fn new() -> (r: Joypad)
        ensures
            !r.strobe,
            r.button_index == 0,
            r.button_status == 0,
    {
        Joypad { strobe: false, button_index: 0, button_status: 0 }
    }

    pub fn write(&mut self, data: u8)
        ensures
            *final(self) == spec_write(*old(self), data),
    {
        self.strobe = data & 1 == 1;
        if self.strobe {
            self.button_index = 0;
        }
    }

    pub fn read(&mut self) -> (r: u8)
        ensures
            r == spec_read_value(*old(self)),
            *final(self) == spec_read_step(*old(self)),
    {
        if self.button_index > 7 {
            return 1;
        }
        let response = (self.button_status & (1 << self.button_index)) >> self.button_index;
        proof {
            let b = self.button_status;
            let i = self.button_index;
            assert((b & (1u8 << i)) >> i == (b >> i) & 1) by (bit_vector)
                requires
                    i <= 7,
            ;
        }
        if !self.strobe && self.button_index <= 7 {
            self.button_index += 1;
        }
        response
    }

    pub fn set_button_pressed_status(&mut self, button: JoypadButton, pressed: bool)
        ensures
            final(self).button_status == if pressed {
                old(self).button_status | button.spec_mask()
            } else {
                old(self).button_status & !button.spec_mask()
            },
            final(self).strobe == old(self).strobe,
            final(self).button_index == old(self).button_index,
    {
        let mask = button.mask();
        if pressed {
            self.button_status = self.button_status | mask;
        } else {
            self.button_status = self.button_status & !mask;
        }
    }
}

/// After `n` reads with the strobe low the mask and strobe are untouched and
/// the read index has advanced by `n`, saturating past the last button.
proof fn lemma_read_step_n_state(j: Joypad, n: nat)
    requires
        !j.strobe,
        j.button_index <= 8,
    ensures
        spec_read_step_n(j, n).button_status == j.button_status,
        !spec_read_step_n(j, n).strobe,
        spec_read_step_n(j, n).button_index == if j.button_index + n <= 8 {
            j.button_index + n
        } else {
            8
        },
    decreases n,
{
    if n > 0 {
        lemma_read_step_n_state(j, (n - 1) as nat);
    }
}

/// Controller serial law: after a strobe pulse (write 1 then 0), the first
/// eight reads return, in order, bits 0 through 7 of the button mask, and
/// every later read returns 1.
pub proof fn lemma_strobe_pulse_serial_reads(j: Joypad, n: u8)
    ensures
        ({
            let pulsed = spec_write(spec_write(j, 1), 0);
            &&& n < 8 ==> spec_read_value(spec_read_step_n(pulsed, n as nat)) == (j.button_status
                >> n) & 1
            &&& n >= 8 ==> spec_read_value(spec_read_step_n(pulsed, n as nat)) == 1
        }),
{
    assert(1u8 & 1 == 1 && 0u8 & 1 == 0) by (bit_vector);
    let pulsed = spec_write(spec_write(j, 1), 0);
    lemma_read_step_n_state(pulsed, n as nat);
}

} // verus!
