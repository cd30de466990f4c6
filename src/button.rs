//! The button's interrupt flag: a falling edge on the pin raises it, and the
//! interrupt handler lowers it again by acknowledging.
use vstd::prelude::*;

verus! {

/// The state of the button's pending flag.
#[derive(Clone, Copy, Debug, PartialEq, Eq, Structural)]
pub enum ButtonState {
    Idle,
    Pending,
}

impl ButtonState {
    /// The state as read from the hardware flag.
    pub fn from_flag(flag_set: bool) -> (r: ButtonState)
        ensures
            r == (if flag_set { ButtonState::Pending } else { ButtonState::Idle }),
    {
        if flag_set {
            ButtonState::Pending
        } else {
            ButtonState::Idle
        }
    }

    /// A falling edge: the flag is raised, whether or not it already was.
    pub fn falling_edge(self) -> (r: ButtonState)
        ensures
            r == ButtonState::Pending,
    {
        ButtonState::Pending
    }

    /// The handler's pass: a raised flag is acknowledged, which clears it. The
    /// second value tells whether the hardware bit has to be cleared.
    pub fn acknowledge(self) -> (r: (ButtonState, bool))
        ensures
            r.0 == ButtonState::Idle,
            r.1 == (self == ButtonState::Pending),
    {
        match self {
            ButtonState::Pending => (ButtonState::Idle, true),
            ButtonState::Idle => (ButtonState::Idle, false),
        }
    }
}

} // verus!
