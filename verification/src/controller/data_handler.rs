//! The outgoing frame of the remote.

use vstd::prelude::*;

verus! {

/// Wire byte of a button that is not held down.
pub const BUTTON_IDLE: u8 = 1;

/// The latest sample of both sticks, as the six bytes that go on the wire.
#[derive(Debug)]
pub struct DataHandler {
    x: u8,
    y: u8,
    pitch: u8,
    roll: u8,
    button1: u8,
    button2: u8,
}

/// Whether a frame of six wire bytes shows any input: an axis off rest or a
/// button held.
pub open spec fn shows_input(frame: Seq<u8>) -> bool {
    frame[0] != 0 || frame[1] != 0 || frame[2] != 0 || frame[3] != 0 || frame[4] == 0
        || frame[5] == 0
}

impl View for DataHandler {
    type V = Seq<u8>;

    /// The frame in wire order: x, y, roll, pitch, button one, button two.
    closed spec fn view(&self) -> Seq<u8> {
        seq![self.x, self.y, self.roll, self.pitch, self.button1, self.button2]
    }
}

impl DataHandler {
    /// The frame of two sticks at rest.
    pub fn new() -> (out: DataHandler)
        ensures
            out@ == seq![0u8, 0u8, 0u8, 0u8, 1u8, 1u8],
    {
        DataHandler { x: 0, y: 0, roll: 0, pitch: 0, button1: BUTTON_IDLE, button2: BUTTON_IDLE }
    }

    /// Takes over one sample of each stick.  The first stick gives x, y and
    /// button one, the second roll, pitch and button two.
    pub fn update(&mut self, joystick1: [u8; 3], joystick2: [u8; 3])
        ensures
            final(self)@ == seq![
                joystick1[0],
                joystick1[1],
                joystick2[0],
                joystick2[1],
                joystick1[2],
                joystick2[2],
            ],
    {
        self.x = joystick1[0];
        self.y = joystick1[1];
        self.button1 = joystick1[2];
        self.roll = joystick2[0];
        self.pitch = joystick2[1];
        self.button2 = joystick2[2];
    }

    /// Whether the operator is doing anything.
    pub fn input_detected(&self) -> (out: bool)
        ensures
            out == shows_input(self@),
    {
        self.x != 0 || self.y != 0 || self.button1 == 0 || self.pitch != 0 || self.roll != 0
            || self.button2 == 0
    }

    /// The frame as it goes on the wire.
    pub fn data_as_bytes(&self) -> (out: [u8; 6])
        ensures
            out@ == self@,
    {
        let out: [u8; 6] = [self.x, self.y, self.roll, self.pitch, self.button1, self.button2];
        assert(out@ =~= self@);
        out
    }
}

} // verus!
