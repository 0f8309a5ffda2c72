//! The keys and buttons that the renderer reacts to.

use vstd::prelude::*;

verus! {

/// A physical key, as far as the renderer tells keys apart.
#[derive(Clone, Copy, Debug, PartialEq, Eq, Structural)]
pub enum KeyCode {
    KeyW,
    KeyA,
    KeyS,
    KeyD,
    ArrowUp,
    ArrowLeft,
    ArrowDown,
    ArrowRight,
    Escape,
    Space,
    /// Every other key.
    Other,
}

/// A mouse button, as far as the renderer tells buttons apart.
#[derive(Clone, Copy, Debug, PartialEq, Eq, Structural)]
pub enum MouseButton {
    Left,
    /// Every other button.
    Other,
}

/// One of the two axes along which keys move the camera.
#[derive(Clone, Copy, Debug, PartialEq, Eq, Structural)]
pub enum Axis {
    /// Left (negative) and right (positive).
    Horizontal,
    /// Backward (negative) and forward (positive).
    Vertical,
}

/// Which way along its axis a movement key pushes.
#[derive(Clone, Copy, Debug, PartialEq, Eq, Structural)]
pub enum Sign {
    Negative,
    Positive,
}

impl Sign {
    /// The axis value of this sign: -1 or 1.
    pub open spec fn value(self) -> int {
        match self {
            Sign::Negative => -1,
            Sign::Positive => 1,
        }
    }

    /// The other sign.
    pub open spec fn spec_opposite(self) -> Sign {
        match self {
            Sign::Negative => Sign::Positive,
            Sign::Positive => Sign::Negative,
        }
    }

    /// The other sign.
    #[verifier::when_used_as_spec(spec_opposite)]
    pub fn opposite(self) -> (other: Sign)
        ensures
            other == self.spec_opposite(),
    {
        match self {
            Sign::Negative => Sign::Positive,
            Sign::Positive => Sign::Negative,
        }
    }
}

impl KeyCode {
    /// The axis and sign that a movement key stands for; `None` for every
    /// key that does not move the camera.
    pub open spec fn spec_movement(self) -> Option<(Axis, Sign)> {
        match self {
            KeyCode::KeyW | KeyCode::ArrowUp => Some((Axis::Vertical, Sign::Positive)),
            KeyCode::KeyS | KeyCode::ArrowDown => Some((Axis::Vertical, Sign::Negative)),
            KeyCode::KeyA | KeyCode::ArrowLeft => Some((Axis::Horizontal, Sign::Negative)),
            KeyCode::KeyD | KeyCode::ArrowRight => Some((Axis::Horizontal, Sign::Positive)),
            _ => None,
        }
    }

    /// The axis and sign that a movement key stands for.
    #[verifier::when_used_as_spec(spec_movement)]
    pub fn movement(self) -> (movement: Option<(Axis, Sign)>)
        ensures
            movement == self.spec_movement(),
    {
        match self {
            KeyCode::KeyW | KeyCode::ArrowUp => Some((Axis::Vertical, Sign::Positive)),
            KeyCode::KeyS | KeyCode::ArrowDown => Some((Axis::Vertical, Sign::Negative)),
            KeyCode::KeyA | KeyCode::ArrowLeft => Some((Axis::Horizontal, Sign::Negative)),
            KeyCode::KeyD | KeyCode::ArrowRight => Some((Axis::Horizontal, Sign::Positive)),
            _ => None,
        }
    }
}

} // verus!
