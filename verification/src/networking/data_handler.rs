//! One decoded joystick frame.

use vstd::prelude::*;

verus! {

/// Level of a button channel while the button is held down.
pub const BUTTON_PRESSED: i16 = 0;

/// The six channels of one sample of the remote, after decoding.
///
/// Stick channels are signed magnitudes of at most eight.  A button channel
/// is zero while the button is pressed and non-zero while it is idle.
#[derive(Clone, Copy, Debug, PartialEq, Eq)]
pub struct DataHandler {
    pub x: i16,
    pub y: i16,
    pub roll: i16,
    pub pitch: i16,
    pub button1: i16,
    pub button2: i16,
}

impl DataHandler {
    /// The channels in wire order: x, y, roll, pitch, button one, button two.
    pub open spec fn channels(&self) -> Seq<i16> {
        seq![self.x, self.y, self.roll, self.pitch, self.button1, self.button2]
    }

    /// Whether both buttons are held down.
    pub open spec fn both_pressed(&self) -> bool {
        self.button1 == 0 && self.button2 == 0
    }

    /// A frame with the given channels.
    pub fn new(x: i16, y: i16, roll: i16, pitch: i16, button1: i16, button2: i16) -> (out:
        DataHandler)
        ensures
            out == (DataHandler { x, y, roll, pitch, button1, button2 }),
    {
        DataHandler { x, y, roll, pitch, button1, button2 }
    }

    /// Builds a frame from six channels in wire order.
    pub fn from_buffer(buffer: &[i16; 6]) -> (out: DataHandler)
        ensures
            out.channels() == buffer@,
    {
        let out = DataHandler {
            x: buffer[0],
            y: buffer[1],
            roll: buffer[2],
            pitch: buffer[3],
            button1: buffer[4],
            button2: buffer[5],
        };
        assert(out.channels() =~= buffer@);
        out
    }

    /// The channels grouped by stick: first x, y and button one, then roll,
    /// pitch and button two.
    pub fn return_joystick_data(&self) -> (out: ([i16; 3], [i16; 3]))
        ensures
            out.0@ == seq![self.x, self.y, self.button1],
            out.1@ == seq![self.roll, self.pitch, self.button2],
    {
        let first: [i16; 3] = [self.x, self.y, self.button1];
        let second: [i16; 3] = [self.roll, self.pitch, self.button2];
        assert(first@ =~= seq![self.x, self.y, self.button1]);
        assert(second@ =~= seq![self.roll, self.pitch, self.button2]);
        (first, second)
    }

    /// Whether both buttons are held down.
    pub fn both_buttons_pressed(&self) -> (out: bool)
        ensures
            out == self.both_pressed(),
    {
        (self.button1 == BUTTON_PRESSED) && (self.button2 == BUTTON_PRESSED)
    }
}

} // verus!
