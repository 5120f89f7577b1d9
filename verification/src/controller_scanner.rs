//! The report of a controller adapter, read as eight buttons.

use vstd::prelude::*;

verus! {

/// The buttons of one controller, as one report of the adapter gives them.
#[derive(Copy, Clone, Debug, PartialEq, Eq, Structural)]
pub struct Controller {
    pub a: bool,
    pub b: bool,
    pub select: bool,
    pub start: bool,
    pub up: bool,
    pub down: bool,
    pub left: bool,
    pub right: bool,
}

/// The buttons that a report holds. Byte 0 holds B in bit 0 and A in bit 1, byte 1
/// Select in bit 0 and Start in bit 1, and byte 2 the direction of the pad as a
/// number: 0 is up, and each further step turns it an eighth clockwise.
pub open spec fn controller_of_report(data: Seq<u8>) -> Controller {
    Controller {
        a: (data[0] >> 1) & 1 != 0,
        b: data[0] & 1 != 0,
        select: data[1] & 1 != 0,
        start: (data[1] >> 1) & 1 != 0,
        up: data[2] == 0 || data[2] == 1 || data[2] == 7,
        down: data[2] == 3 || data[2] == 4 || data[2] == 5,
        left: data[2] == 5 || data[2] == 6 || data[2] == 7,
        right: data[2] == 1 || data[2] == 2 || data[2] == 3,
    }
}

impl Controller {
    /// Reads a report. One of fewer than three bytes holds no buttons.
    pub fn parse(data: &[u8]) -> (r: Option<Controller>)
        ensures
            data@.len() < 3 ==> r is None,
            data@.len() >= 3 ==> r == Some(controller_of_report(data@)),
    {
        if data.len() < 3 {
            return None;
        }
        let d0: u8 = data[0];
        let d1: u8 = data[1];
        let d2: u8 = data[2];
        Some(
            Controller {
                a: ((d0 >> 1) & 1) != 0,
                b: (d0 & 1) != 0,
                select: (d1 & 1) != 0,
                start: ((d1 >> 1) & 1) != 0,
                up: d2 == 0 || d2 == 1 || d2 == 7,
                down: d2 == 3 || d2 == 4 || d2 == 5,
                left: d2 == 5 || d2 == 6 || d2 == 7,
                right: d2 == 1 || d2 == 2 || d2 == 3,
            },
        )
    }
}

} // verus!
