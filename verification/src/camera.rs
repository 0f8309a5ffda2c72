//! The keyboard-driven camera controller: two movement axes, each holding
//! -1, 0 or 1, derived from the directions whose keys are down.
//!
//! The controller tells directions apart, not keys: the two keys of one
//! direction (a letter and an arrow) count as one.

use vstd::prelude::*;
use crate::input::{Axis, KeyCode, Sign};

verus! {

/// What a camera controller holds.
#[verifier::ext_equal]
pub struct ControllerView {
    /// The movement speed, as the bits of a single-precision float.
    pub speed: u32,
    /// The value of the horizontal axis.
    pub horizontal: int,
    /// The value of the vertical axis.
    pub vertical: int,
    /// The directions whose keys are down.
    pub held: Set<(Axis, Sign)>,
}

/// The value of an axis after a key of the given sign went down or up,
/// given the directions that were held before.
///
/// A press sets the axis to the key's sign: the last key wins. A release
/// gives the axis to the opposing key where that one is held, and clears the
/// axis only where it is not.
pub open spec fn axis_after(held: Set<(Axis, Sign)>, axis: Axis, sign: Sign, pressed: bool) -> int {
    if pressed {
        sign.value()
    } else if held.contains((axis, sign.opposite())) {
        sign.opposite().value()
    } else {
        0
    }
}

/// Whether the value of an axis agrees with which of its directions are
/// held: 0 with neither, the sign of the one with one, either sign with both.
pub open spec fn axis_agrees(value: int, negative: bool, positive: bool) -> bool {
    if negative && positive {
        value == -1 || value == 1
    } else if negative {
        value == -1
    } else if positive {
        value == 1
    } else {
        value == 0
    }
}

impl ControllerView {
    /// A controller at rest: no direction is held.
    pub open spec fn at_rest(speed: u32) -> ControllerView {
        ControllerView { speed, horizontal: 0, vertical: 0, held: Set::empty() }
    }

    /// Each axis agrees with the directions that are held, and so holds -1,
    /// 0 or 1.
    pub open spec fn well_formed(self) -> bool {
        &&& axis_agrees(
            self.horizontal,
            self.held.contains((Axis::Horizontal, Sign::Negative)),
            self.held.contains((Axis::Horizontal, Sign::Positive)),
        )
        &&& axis_agrees(
            self.vertical,
            self.held.contains((Axis::Vertical, Sign::Negative)),
            self.held.contains((Axis::Vertical, Sign::Positive)),
        )
    }

    /// The value of one axis.
    pub open spec fn axis(self, axis: Axis) -> int {
        match axis {
            Axis::Horizontal => self.horizontal,
            Axis::Vertical => self.vertical,
        }
    }

    /// The controller after a key went down (`pressed`) or up: the key's
    /// direction is held from a press on and until a release, and the key's
    /// axis follows `axis_after`. The other axis stays, and a key that does
    /// not move the camera changes nothing.
    pub open spec fn key_handled(self, code: KeyCode, pressed: bool) -> ControllerView {
        match code.movement() {
            Some((axis, sign)) => {
                let value = axis_after(self.held, axis, sign, pressed);
                let held = if pressed {
                    self.held.insert((axis, sign))
                } else {
                    self.held.remove((axis, sign))
                };
                match axis {
                    Axis::Horizontal => ControllerView { horizontal: value, held, ..self },
                    Axis::Vertical => ControllerView { vertical: value, held, ..self },
                }
            },
            None => self,
        }
    }

    /// The controller after a key went down and up again.
    pub open spec fn tapped(self, code: KeyCode) -> ControllerView {
        self.key_handled(code, true).key_handled(code, false)
    }
}

/// A controller at rest is well formed, and key events keep it so.
pub proof fn lemma_key_keeps_well_formed(
    c: ControllerView,
    speed: u32,
    code: KeyCode,
    pressed: bool,
)
    requires
        c.well_formed(),
    ensures
        ControllerView::at_rest(speed).well_formed(),
        c.key_handled(code, pressed).well_formed(),
        -1 <= c.horizontal <= 1,
        -1 <= c.vertical <= 1,
{
}

/// A key event leaves the axis that the key does not belong to, and the
/// speed, as they were.
pub proof fn lemma_key_keeps_other_axis(c: ControllerView, code: KeyCode, pressed: bool)
    ensures
        c.key_handled(code, pressed).speed == c.speed,
        code.movement() matches Some((axis, _)) ==> match axis {
            Axis::Horizontal => c.key_handled(code, pressed).vertical == c.vertical,
            Axis::Vertical => c.key_handled(code, pressed).horizontal == c.horizontal,
        },
        code.movement() is None ==> c.key_handled(code, pressed) == c,
{
}

/// Pressing and releasing a key a second time changes nothing: after the
/// first press and release the controller is where every further press and
/// release of that key leaves it.
pub proof fn lemma_tap_idempotent(c: ControllerView, code: KeyCode)
    ensures
        c.tapped(code).tapped(code) == c.tapped(code),
{
    assert(c.tapped(code).tapped(code) =~= c.tapped(code));
}

/// Pressing and releasing a key, once or twice, returns the controller to
/// exactly what it was before the press: the axis to its value, whether the
/// opposing key is held or not. This holds of every key whose direction was
/// not held before the press. Keys that do not move the camera never change
/// the controller.
pub proof fn lemma_tap_restores(c: ControllerView, code: KeyCode)
    requires
        c.well_formed(),
        code.movement() matches Some(direction) ==> !c.held.contains(direction),
    ensures
        c.tapped(code) == c,
        c.tapped(code).tapped(code) == c,
{
    assert(c.tapped(code) =~= c);
}

/// With both directions of an axis held, releasing a key of either one
/// leaves the axis at the sign of the direction still held, never at 0; the
/// other axis stays as it was.
pub proof fn lemma_release_gives_axis_to_opposing(c: ControllerView, code: KeyCode)
    requires
        code.movement() matches Some((axis, sign)) && c.held.contains((axis, sign))
            && c.held.contains((axis, sign.opposite())),
    ensures
        ({
            let (axis, sign) = code.movement().unwrap();
            let after = c.key_handled(code, false);
            &&& after.axis(axis) == sign.opposite().value()
            &&& after.axis(axis) != 0
            &&& after.held.contains((axis, sign.opposite()))
            &&& !after.held.contains((axis, sign))
            &&& match axis {
                Axis::Horizontal => after.vertical == c.vertical,
                Axis::Vertical => after.horizontal == c.horizontal,
            }
        }),
{
}

/// After two opposing keys went down, in either order and from any state,
/// the release of either one leaves the axis at the sign of the other.
pub proof fn lemma_opposing_release(
    c: ControllerView,
    first: KeyCode,
    second: KeyCode,
    released: KeyCode,
)
    requires
        first.movement() is Some,
        second.movement() is Some,
        first.movement().unwrap().0 == second.movement().unwrap().0,
        first.movement().unwrap().1.opposite() == second.movement().unwrap().1,
        released == first || released == second,
    ensures
        ({
            let (axis, sign) = released.movement().unwrap();
            let after = c.key_handled(first, true).key_handled(second, true).key_handled(
                released,
                false,
            );
            after.axis(axis) == sign.opposite().value() && after.axis(axis) != 0
        }),
{
}

/// Turns key presses and releases into the two axis values that move the
/// camera.
pub struct CameraController {
    speed: u32,
    horizontal: i8,
    vertical: i8,
    left: bool,
    right: bool,
    down: bool,
    up: bool,
}

impl View for CameraController {
    type V = ControllerView;

    closed spec fn view(&self) -> ControllerView {
        ControllerView {
            speed: self.speed,
            horizontal: self.horizontal as int,
            vertical: self.vertical as int,
            held: Set::new(|direction: (Axis, Sign)| self.holds(direction.0, direction.1)),
        }
    }
}

impl CameraController {
    spec fn holds(self, axis: Axis, sign: Sign) -> bool {
        match (axis, sign) {
            (Axis::Horizontal, Sign::Negative) => self.left,
            (Axis::Horizontal, Sign::Positive) => self.right,
            (Axis::Vertical, Sign::Negative) => self.down,
            (Axis::Vertical, Sign::Positive) => self.up,
        }
    }

    #[verifier::type_invariant]
    spec fn axes_agree(self) -> bool {
        self@.well_formed()
    }

    /// A controller at rest, with the movement speed given as the bits of a
    /// single-precision float.
    pub fn new(speed: u32) -> (controller: Self)
        ensures
            controller@ == ControllerView::at_rest(speed),
    {
        let controller = CameraController {
            speed,
            horizontal: 0,
            vertical: 0,
            left: false,
            right: false,
            down: false,
            up: false,
        };
        assert(controller@ =~= ControllerView::at_rest(speed));
        controller
    }

    /// Takes a key that went down (`is_pressed`) or up, and says whether it
    /// is a key that moves the camera.
    pub fn handle_key(&mut self, code: KeyCode, is_pressed: bool) -> (handled: bool)
        ensures
            final(self)@ == old(self)@.key_handled(code, is_pressed),
            final(self)@.well_formed(),
            handled == code.movement() is Some,
    {
        proof {
            use_type_invariant(&*self);
        }
        match code.movement() {
            Some((axis, sign)) => {
                let value = Self::axis_value(self.is_held(axis, sign.opposite()), sign, is_pressed);
                let (horizontal, vertical): (i8, i8) = match axis {
                    Axis::Horizontal => (value, self.vertical),
                    Axis::Vertical => (self.horizontal, value),
                };
                let (left, right, down, up) = match (axis, sign) {
                    (Axis::Horizontal, Sign::Negative) => (is_pressed, self.right, self.down, self.up),
                    (Axis::Horizontal, Sign::Positive) => (self.left, is_pressed, self.down, self.up),
                    (Axis::Vertical, Sign::Negative) => (self.left, self.right, is_pressed, self.up),
                    (Axis::Vertical, Sign::Positive) => (self.left, self.right, self.down, is_pressed),
                };
                let next = CameraController {
                    speed: self.speed,
                    horizontal,
                    vertical,
                    left,
                    right,
                    down,
                    up,
                };
                assert(next@ =~= self@.key_handled(code, is_pressed));
                *self = next;
                true
            },
            None => false,
        }
    }

    fn axis_value(opposing_held: bool, sign: Sign, pressed: bool) -> (after: i8)
        ensures
            after == if pressed {
                sign.value()
            } else if opposing_held {
                sign.opposite().value()
            } else {
                0
            },
    {
        let (toward, away): (i8, i8) = match sign {
            Sign::Negative => (-1, 1),
            Sign::Positive => (1, -1),
        };
        if pressed {
            toward
        } else if opposing_held {
            away
        } else {
            0
        }
    }

    /// Whether a key of the given direction is down.
    pub fn is_held(&self, axis: Axis, sign: Sign) -> (held: bool)
        ensures
            held == self@.held.contains((axis, sign)),
    {
        match (axis, sign) {
            (Axis::Horizontal, Sign::Negative) => self.left,
            (Axis::Horizontal, Sign::Positive) => self.right,
            (Axis::Vertical, Sign::Negative) => self.down,
            (Axis::Vertical, Sign::Positive) => self.up,
        }
    }

    /// The movement speed, as the bits of a single-precision float.
    pub fn speed(&self) -> (speed: u32)
        ensures
            speed == self@.speed,
    {
        self.speed
    }

    /// The value of the horizontal axis: -1 (left), 0 or 1 (right).
    pub fn horizontal(&self) -> (value: i8)
        ensures
            value == self@.horizontal,
            -1 <= value <= 1,
    {
        proof {
            use_type_invariant(self);
        }
        self.horizontal
    }

    /// The value of the vertical axis: -1 (backward), 0 or 1 (forward).
    pub fn vertical(&self) -> (value: i8)
        ensures
            value == self@.vertical,
            -1 <= value <= 1,
    {
        proof {
            use_type_invariant(self);
        }
        self.vertical
    }
}

} // verus!
