//! Joypad buttons: holding and releasing them, and reading an analog axis as
//! a direction.
use vstd::prelude::*;
use crate::alu::{bit_is_set, res_bit, res_spec, set_bit, set_spec};
use crate::cpu::Cpu;
use crate::interrupts::{source_bit, Interrupt};
use crate::bus::IF_ADDR;

verus! {

/// Axis readings within this distance of the centre count as centred.
pub const AXIS_DEADZONE: i32 = 10000;

#[derive(Clone, Copy, Debug, PartialEq, Eq, Structural)]
pub enum Button {
    Right,
    Left,
    Up,
    Down,
    A,
    B,
    Select,
    Start,
}

/// Where an analog stick axis points.
#[derive(Clone, Copy, Debug, PartialEq, Eq, Structural)]
pub enum AxisDirection {
    Negative,
    Centered,
    Positive,
}

/// The bit of a button in the held-buttons byte.
pub open spec fn button_bit(b: Button) -> int {
    match b {
        Button::Right => 0,
        Button::Left => 1,
        Button::Up => 2,
        Button::Down => 3,
        Button::A => 4,
        Button::B => 5,
        Button::Select => 6,
        Button::Start => 7,
    }
}

pub open spec fn axis_direction_spec(value: i16) -> AxisDirection {
    if value < -AXIS_DEADZONE {
        AxisDirection::Negative
    } else if value > AXIS_DEADZONE {
        AxisDirection::Positive
    } else {
        AxisDirection::Centered
    }
}

/// Reads a stick axis: beyond the dead zone it points one way or the other.
pub fn axis_direction(value: i16) -> (r: AxisDirection)
    ensures
        r == axis_direction_spec(value),
{
    let v = value as i32;
    if v < -AXIS_DEADZONE {
        AxisDirection::Negative
    } else if v > AXIS_DEADZONE {
        AxisDirection::Positive
    } else {
        AxisDirection::Centered
    }
}

fn button_index(b: Button) -> (r: u8)
    ensures
        r as int == button_bit(b),
{
    match b {
        Button::Right => 0,
        Button::Left => 1,
        Button::Up => 2,
        Button::Down => 3,
        Button::A => 4,
        Button::B => 5,
        Button::Select => 6,
        Button::Start => 7,
    }
}

impl Cpu {
    /// Holds a button. A button that was not held already requests the
    /// joypad interrupt.
    pub fn press(&mut self, b: Button)
        requires
            old(self).wf(),
        ensures
            final(self).wf(),
            final(self).bus.buttons == set_spec(button_bit(b), old(self).bus.buttons),
            final(self).regs == old(self).regs,
            final(self).state == old(self).state,
            final(self).bus.mem@ == if bit_is_set(old(self).bus.buttons as int, button_bit(b)) {
                old(self).bus.mem@
            } else {
                old(self).bus.mem@.update(IF_ADDR as int,
                    set_spec(source_bit(Interrupt::Joypad), old(self).bus.mem@[IF_ADDR as int]))
            },
    {
        let i = button_index(b);
        let held = self.bus.buttons;
        if (held / crate::alu::bit_weight(i)) % 2 == 0 {
            self.request_interrupt(Interrupt::Joypad);
        }
        self.bus.buttons = set_bit(i, held);
    }

    /// Releases a button.
    pub fn release(&mut self, b: Button)
        requires
            old(self).wf(),
        ensures
            final(self).wf(),
            final(self).bus.buttons == res_spec(button_bit(b), old(self).bus.buttons),
            *final(self) == (Cpu { bus: crate::bus::Bus { buttons: final(self).bus.buttons, ..old(self).bus }, ..*old(self) }),
    {
        let i = button_index(b);
        self.bus.buttons = res_bit(i, self.bus.buttons);
    }

    /// Holds the button for `dir`'s side of an axis and releases the other
    /// one (both when centred).
    pub fn set_axis(&mut self, dir: AxisDirection, negative: Button, positive: Button)
        requires
            old(self).wf(),
        ensures
            final(self).wf(),
            final(self).regs == old(self).regs,
            final(self).state == old(self).state,
            ({
                let held = old(self).bus.buttons;
                let nb = button_bit(negative);
                let pb = button_bit(positive);
                let iflag = old(self).bus.mem@[IF_ADDR as int];
                let joy = source_bit(Interrupt::Joypad);
                match dir {
                    AxisDirection::Negative => {
                        &&& final(self).bus.buttons == res_spec(pb, set_spec(nb, held))
                        &&& final(self).bus.mem@ == if bit_is_set(held as int, nb) {
                                old(self).bus.mem@
                            } else {
                                old(self).bus.mem@.update(IF_ADDR as int, set_spec(joy, iflag))
                            }
                    },
                    AxisDirection::Positive => {
                        &&& final(self).bus.buttons == res_spec(nb, set_spec(pb, held))
                        &&& final(self).bus.mem@ == if bit_is_set(held as int, pb) {
                                old(self).bus.mem@
                            } else {
                                old(self).bus.mem@.update(IF_ADDR as int, set_spec(joy, iflag))
                            }
                    },
                    AxisDirection::Centered => {
                        &&& final(self).bus.buttons == res_spec(pb, res_spec(nb, held))
                        &&& final(self).bus.mem@ == old(self).bus.mem@
                    },
                }
            }),
    {
        match dir {
            AxisDirection::Negative => {
                self.press(negative);
                self.release(positive);
            },
            AxisDirection::Positive => {
                self.press(positive);
                self.release(negative);
            },
            AxisDirection::Centered => {
                self.release(negative);
                self.release(positive);
            },
        }
    }
}

} // verus!
