//! The controller port: eight buttons read out one at a time.

use vstd::prelude::*;

verus! {

/// The buttons of a controller, in the order in which the port hands them out.
#[derive(Copy, Clone, Debug, PartialEq, Eq, Structural)]
pub enum NESIoButton {
    A,
    B,
    Select,
    Start,
    Up,
    Down,
    Left,
    Right,
}

impl NESIoButton {
    /// The place of the button in the read-out order.
    pub open spec fn index(self) -> int {
        match self {
            NESIoButton::A => 0,
            NESIoButton::B => 1,
            NESIoButton::Select => 2,
            NESIoButton::Start => 3,
            NESIoButton::Up => 4,
            NESIoButton::Down => 5,
            NESIoButton::Left => 6,
            NESIoButton::Right => 7,
        }
    }

    pub fn to_index(&self) -> (r: usize)
        ensures
            r == self.index(),
            r < 8,
    {
        match self {
            NESIoButton::A => 0,
            NESIoButton::B => 1,
            NESIoButton::Select => 2,
            NESIoButton::Start => 3,
            NESIoButton::Up => 4,
            NESIoButton::Down => 5,
            NESIoButton::Left => 6,
            NESIoButton::Right => 7,
        }
    }
}

/// The address of the controller port.
pub const CONTROLLER_PORT: usize = 0x4016;

pub struct NESIo {
    buttons: [bool; 8],
    controller_read_count: u8,
    strobe: bool,
}

/// What the port holds: the state of the eight buttons, which of them the next
/// read hands out, and whether the strobe holds the read-out at the first one.
pub struct IoView {
    pub buttons: Seq<bool>,
    pub read_count: u8,
    pub strobe: bool,
}

impl View for NESIo {
    type V = IoView;

    closed spec fn view(&self) -> IoView {
        IoView {
            buttons: self.buttons@,
            read_count: self.controller_read_count,
            strobe: self.strobe,
        }
    }
}

/// The button that the next read of the port hands out.
pub open spec fn next_button(s: IoView) -> int {
    if s.strobe {
        0
    } else {
        s.read_count as int
    }
}

/// The port after a read of `addr`. Only a read of the controller port moves
/// the read-out on, and after the eighth button comes the first again.
pub open spec fn io_after_read(s: IoView, addr: int) -> IoView {
    if addr == CONTROLLER_PORT {
        IoView { read_count: ((next_button(s) + 1) % 8) as u8, ..s }
    } else {
        s
    }
}

/// The byte that a read of `addr` returns: at the controller port 1 if the
/// button whose turn it is is pressed, and 0 everywhere else.
pub open spec fn io_read_value(s: IoView, addr: int) -> u8 {
    if addr == CONTROLLER_PORT && next_button(s) < 8 && s.buttons[next_button(s)] {
        1
    } else {
        0
    }
}

/// The port after `val` is written to `addr`: bit 0 of a byte written to the
/// controller port is the new strobe.
pub open spec fn io_after_write(s: IoView, addr: int, val: u8) -> IoView {
    if addr == CONTROLLER_PORT {
        IoView { strobe: val & 1 != 0, ..s }
    } else {
        s
    }
}

impl NESIo {
    pub fn new() -> (r: NESIo)
        ensures
            r@.buttons == Seq::new(8, |i: int| false),
            r@.read_count == 0,
            !r@.strobe,
    {
        let r = NESIo { buttons: [false;8], controller_read_count: 0, strobe: false };
        assert(r@.buttons =~= Seq::new(8, |i: int| false));
        r
    }

    pub fn set_controller_button(&mut self, btn: NESIoButton, pressed: bool)
        ensures
            final(self)@ == (IoView {
                buttons: old(self)@.buttons.update(btn.index(), pressed),
                ..old(self)@
            }),
    {
        self.buttons[btn.to_index()] = pressed;
    }

    fn get_controller_button(&mut self) -> (r: u8)
        ensures
            final(self)@ == io_after_read(old(self)@, CONTROLLER_PORT as int),
            r == io_read_value(old(self)@, CONTROLLER_PORT as int),
    {
        if self.strobe {
            self.controller_read_count = 0;
        }
        let count: u8 = self.controller_read_count;
        let btn: u8 = if count < 8 && self.buttons[count as usize] {
            1
        } else {
            0
        };
        self.controller_read_count = if count < 255 {
            (count + 1) % 8
        } else {
            0
        };
        btn
    }

    pub fn read(&mut self, addr: usize) -> (r: u8)
        ensures
            final(self)@ == io_after_read(old(self)@, addr as int),
            r == io_read_value(old(self)@, addr as int),
    {
        if addr == CONTROLLER_PORT {
            self.get_controller_button()
        } else {
            0
        }
    }

    pub fn write(&mut self, addr: usize, val: u8)
        ensures
            final(self)@ == io_after_write(old(self)@, addr as int, val),
    {
        if addr == CONTROLLER_PORT {
            self.strobe = (val & 1) != 0;
        }
    }
}

} // verus!
