use vstd::prelude::*;

verus! {

/// Snapshot of the eight buttons of a standard controller.
#[derive(Clone, Copy)]
pub struct ButtonState {
    pub a: bool,
    pub b: bool,
    pub select: bool,
    pub start: bool,
    pub up: bool,
    pub down: bool,
    pub left: bool,
    pub right: bool,
}

/// The serial order of the buttons on the controller wire: bit 0 is A,
/// then B, Select, Start, Up, Down, Left, Right.
pub open spec fn button_bits(s: ButtonState) -> u8 {
    (if s.a { 0x01u8 } else { 0u8 })
        | (if s.b { 0x02u8 } else { 0u8 })
        | (if s.select { 0x04u8 } else { 0u8 })
        | (if s.start { 0x08u8 } else { 0u8 })
        | (if s.up { 0x10u8 } else { 0u8 })
        | (if s.down { 0x20u8 } else { 0u8 })
        | (if s.left { 0x40u8 } else { 0u8 })
        | (if s.right { 0x80u8 } else { 0u8 })
}

/// Latch-and-shift controller. While the strobe is high every read
/// returns the A button; after the strobe falls, eight reads shift the
/// latched snapshot out bit by bit, and further reads return the fill
/// bit 1.
pub struct Joypad {
    state: ButtonState,
    strobe: bool,
    shift: u8,
}

impl Joypad {
    pub closed spec fn spec_state(self) -> ButtonState {
        self.state
    }

    pub closed spec fn spec_strobe(self) -> bool {
        self.strobe
    }

    pub closed spec fn spec_shift(self) -> u8 {
        self.shift
    }

    pub fn new() -> (r: Joypad)
        ensures
            r.spec_state() == (ButtonState {
                a: false,
                b: false,
                select: false,
                start: false,
                up: false,
                down: false,
                left: false,
                right: false,
            }),
            !r.spec_strobe(),
            r.spec_shift() == 0,
    {
        Joypad {
            state: ButtonState {
                a: false,
                b: false,
                select: false,
                start: false,
                up: false,
                down: false,
                left: false,
                right: false,
            },
            strobe: false,
            shift: 0,
        }
    }

    /// A write to the strobe register. The shift register is reloaded
    /// from the button snapshot on every write made while the strobe is
    /// or becomes high, so the fall of the strobe leaves the snapshot
    /// latched for serial reads.
    pub fn write_strobe(&mut self, value: u8)
        ensures
            final(self).spec_state() == old(self).spec_state(),
            final(self).spec_strobe() == (value & 1 != 0),
            final(self).spec_shift() == if value & 1 != 0 || old(self).spec_strobe() {
                button_bits(old(self).spec_state())
            } else {
                old(self).spec_shift()
            },
    {
        let new_strobe = value & 1 != 0;
        if new_strobe || self.strobe {
            self.latch();
        }
        self.strobe = new_strobe;
    }

    /// A read of the serial port: the A button while strobed, else the
    /// low bit of the shift register, which then shifts down with a 1
    /// filled in at the top.
    pub fn read(&mut self) -> (r: u8)
        ensures
            final(self).spec_state() == old(self).spec_state(),
            final(self).spec_strobe() == old(self).spec_strobe(),
            old(self).spec_strobe() ==> {
                &&& r == if old(self).spec_state().a { 1u8 } else { 0u8 }
                &&& final(self).spec_shift() == old(self).spec_shift()
            },
            !old(self).spec_strobe() ==> {
                &&& r == old(self).spec_shift() & 1
                &&& final(self).spec_shift() == (old(self).spec_shift() >> 1) | 0x80u8
            },
    {
        if self.strobe {
            return if self.state.a { 1 } else { 0 };
        }

        let value = self.shift & 1;
        self.shift = (self.shift >> 1) | 0x80;
        value
    }

    pub fn set_state(&mut self, state: ButtonState)
        ensures
            final(self).spec_state() == state,
            final(self).spec_strobe() == old(self).spec_strobe(),
            final(self).spec_shift() == old(self).spec_shift(),
    {
        self.state = state;
    }

    fn latch(&mut self)
        ensures
            final(self).spec_state() == old(self).spec_state(),
            final(self).spec_strobe() == old(self).spec_strobe(),
            final(self).spec_shift() == button_bits(old(self).spec_state()),
    {
        self.shift = self.state_to_bits();
    }

    fn state_to_bits(&self) -> (r: u8)
        ensures
            r == button_bits(self.spec_state()),
    {
        (if self.state.a { 0x01u8 } else { 0u8 })
            | (if self.state.b { 0x02u8 } else { 0u8 })
            | (if self.state.select { 0x04u8 } else { 0u8 })
            | (if self.state.start { 0x08u8 } else { 0u8 })
            | (if self.state.up { 0x10u8 } else { 0u8 })
            | (if self.state.down { 0x20u8 } else { 0u8 })
            | (if self.state.left { 0x40u8 } else { 0u8 })
            | (if self.state.right { 0x80u8 } else { 0u8 })
    }
}

impl Default for Joypad {
    fn default() -> (r: Self)
        ensures
            !r.spec_strobe(),
            r.spec_shift() == 0,
    {
        Joypad::new()
    }
}

} // verus!
