//! Quadrature decoding.
//!
//! The two encoder lines step through four phases as the shaft turns.  A step
//! to the next phase counts one tick forward, a step to the previous phase
//! one tick backward.  Any other change of the lines, a skipped phase
//! included, only resynchronises the phase: ticks missed that way are lost.

use vstd::prelude::*;

verus! {

// Phase changes that count, written as the old phase code in bits 3..2 and
// the new phase code in bits 1..0.
const STATE1_STATE2: u8 = 0b0001;

const STATE1_STATE4: u8 = 0b0010;

const STATE2_STATE3: u8 = 0b0111;

const STATE2_STATE1: u8 = 0b0100;

const STATE3_STATE4: u8 = 0b1110;

const STATE3_STATE2: u8 = 0b1101;

const STATE4_STATE1: u8 = 0b1000;

const STATE4_STATE3: u8 = 0b1011;

/// Phase of the encoder, named in the order a forward turn visits them.
#[derive(Debug, Clone, Copy, PartialEq, Eq)]
pub enum MotorState {
    /// Both lines low.
    State1,
    /// Line a low, line b high.
    State2,
    /// Both lines high.
    State3,
    /// Line a high, line b low.
    State4,
}

/// The phase shown by the levels of the two encoder lines.
pub open spec fn phase_of(a: bool, b: bool) -> MotorState {
    if !a && !b {
        MotorState::State1
    } else if !a && b {
        MotorState::State2
    } else if a && b {
        MotorState::State3
    } else {
        MotorState::State4
    }
}

/// Ticks counted for a change of phase: one for each of the four forward
/// steps, minus one for each of the four backward steps, nothing otherwise.
pub open spec fn tick_step(from: MotorState, to: MotorState) -> int {
    match (from, to) {
        (MotorState::State1, MotorState::State2) => 1,
        (MotorState::State1, MotorState::State4) => -1,
        (MotorState::State2, MotorState::State3) => 1,
        (MotorState::State2, MotorState::State1) => -1,
        (MotorState::State3, MotorState::State4) => 1,
        (MotorState::State3, MotorState::State2) => -1,
        (MotorState::State4, MotorState::State1) => 1,
        (MotorState::State4, MotorState::State3) => -1,
        _ => 0,
    }
}

/// `value` brought into the range of the tick counter, which rolls over at
/// either end.
pub open spec fn wrap_counter(value: int) -> int {
    if value > i16::MAX {
        value - 0x1_0000
    } else if value < i16::MIN {
        value + 0x1_0000
    } else {
        value
    }
}

impl MotorState {
    /// The two line levels as a number: line a in bit 1, line b in bit 0.
    pub open spec fn spec_code(self) -> u8 {
        match self {
            MotorState::State1 => 0b00,
            MotorState::State2 => 0b01,
            MotorState::State3 => 0b11,
            MotorState::State4 => 0b10,
        }
    }

    /// The phase half a cycle away, which is that with both lines inverted.
    pub open spec fn opposite(self) -> MotorState {
        match self {
            MotorState::State1 => MotorState::State3,
            MotorState::State2 => MotorState::State4,
            MotorState::State3 => MotorState::State1,
            MotorState::State4 => MotorState::State2,
        }
    }

    /// Reads the phase off the levels of the two encoder lines.
    pub fn new(a: bool, b: bool) -> (out: MotorState)
        ensures
            out == phase_of(a, b),
    {
        if !a && !b {
            MotorState::State1
        } else if !a && b {
            MotorState::State2
        } else if a && b {
            MotorState::State3
        } else {
            MotorState::State4
        }
    }

    /// The two line levels as a number: line a in bit 1, line b in bit 0.
    #[verifier::when_used_as_spec(spec_code)]
    pub fn code(self) -> (out: u8)
        ensures
            out == self.spec_code(),
    {
        match self {
            MotorState::State1 => 0b00,
            MotorState::State2 => 0b01,
            MotorState::State3 => 0b11,
            MotorState::State4 => 0b10,
        }
    }
}

/// What an encoder channel knows: the phase last seen, the ticks counted so
/// far and the ticks of one revolution.
pub struct EncoderState {
    pub phase: MotorState,
    pub position: int,
    pub ticks_per_rev: int,
}

impl EncoderState {
    /// The state after the lines were sampled at levels `a` and `b`.
    pub open spec fn sampled(self, a: bool, b: bool) -> EncoderState {
        EncoderState {
            phase: phase_of(a, b),
            position: wrap_counter(self.position + tick_step(self.phase, phase_of(a, b))),
            ticks_per_rev: self.ticks_per_rev,
        }
    }

    /// The state with the phase re-read and the count kept.
    pub open spec fn resynchronised(self, a: bool, b: bool) -> EncoderState {
        EncoderState { phase: phase_of(a, b), ..self }
    }
}

/// One encoder channel.
#[derive(Debug)]
pub struct Motor {
    state: MotorState,
    position: i16,
    ticks_per_rev: i16,
}

impl View for Motor {
    type V = EncoderState;

    closed spec fn view(&self) -> EncoderState {
        EncoderState {
            phase: self.state,
            position: self.position as int,
            ticks_per_rev: self.ticks_per_rev as int,
        }
    }
}

impl Motor {
    /// A channel at position zero, in the phase shown by the line levels.
    pub fn new(a: bool, b: bool, ticks_per_rev: i16) -> (out: Motor)
        ensures
            out@ == (EncoderState {
                phase: phase_of(a, b),
                position: 0,
                ticks_per_rev: ticks_per_rev as int,
            }),
    {
        let motor_state = MotorState::new(a, b);
        Motor { state: motor_state, position: 0, ticks_per_rev }
    }

    /// Adopts the phase shown by the lines without counting.
    pub fn set_motor_state(&mut self, a: bool, b: bool)
        ensures
            final(self)@ == old(self)@.resynchronised(a, b),
    {
        let motor_state = MotorState::new(a, b);
        self.state = motor_state;
    }

    /// Takes one sample of the lines: counts a tick if the phase moved to a
    /// neighbour, and adopts the new phase in any case.
    pub fn update_motor_state(&mut self, a: bool, b: bool)
        ensures
            final(self)@ == old(self)@.sampled(a, b),
    {
        let new_state = MotorState::new(a, b);
        let old_code: u8 = self.state.code();
        let new_code: u8 = new_state.code();
        let combo_state: u8 = (old_code << 2) | new_code;
        assert(old_code <= 3 && new_code <= 3 ==> ((old_code << 2) | new_code) == 4 * old_code
            + new_code) by (bit_vector);
        match combo_state {
            STATE1_STATE2 => self.position = self.position.wrapping_add(1),
            STATE1_STATE4 => self.position = self.position.wrapping_sub(1),
            STATE2_STATE3 => self.position = self.position.wrapping_add(1),
            STATE2_STATE1 => self.position = self.position.wrapping_sub(1),
            STATE3_STATE4 => self.position = self.position.wrapping_add(1),
            STATE3_STATE2 => self.position = self.position.wrapping_sub(1),
            STATE4_STATE1 => self.position = self.position.wrapping_add(1),
            STATE4_STATE3 => self.position = self.position.wrapping_sub(1),
            _ => {},
        }
        self.state = new_state;
    }

    /// The phase last seen.
    pub fn get_state(&self) -> (out: MotorState)
        ensures
            out == self@.phase,
    {
        self.state
    }

    /// Ticks counted so far.
    pub fn get_position(&self) -> (out: i16)
        ensures
            out == self@.position,
    {
        self.position
    }
}

/// One full forward turn through the four phases, starting from the first,
/// counts four ticks.
pub proof fn lemma_forward_cycle(start: EncoderState)
    requires
        start.phase == MotorState::State1,
        i16::MIN <= start.position <= i16::MAX,
    ensures
        start.sampled(false, true).sampled(true, true).sampled(true, false).sampled(false, false)
            == (EncoderState {
            phase: MotorState::State1,
            position: wrap_counter(start.position + 4),
            ticks_per_rev: start.ticks_per_rev,
        }),
        start.position + 4 <= i16::MAX ==> wrap_counter(start.position + 4) == start.position + 4,
{
}

/// One full backward turn, starting from the first phase, takes four ticks
/// off.
pub proof fn lemma_backward_cycle(start: EncoderState)
    requires
        start.phase == MotorState::State1,
        i16::MIN <= start.position <= i16::MAX,
    ensures
        start.sampled(true, false).sampled(true, true).sampled(false, true).sampled(false, false)
            == (EncoderState {
            phase: MotorState::State1,
            position: wrap_counter(start.position - 4),
            ticks_per_rev: start.ticks_per_rev,
        }),
        start.position - 4 >= i16::MIN ==> wrap_counter(start.position - 4) == start.position - 4,
{
}

/// A sample that shows the same phase again, or the phase opposite, counts
/// nothing and only moves the phase.
pub proof fn lemma_resync_keeps_count(start: EncoderState, a: bool, b: bool)
    requires
        i16::MIN <= start.position <= i16::MAX,
        phase_of(a, b) == start.phase || phase_of(a, b) == start.phase.opposite(),
    ensures
        start.sampled(a, b) == start.resynchronised(a, b),
{
}

} // verus!
