//! The controller state: which logical actions are currently held.
use vstd::prelude::*;

verus! {

/// Keyboard code of the key that thrusts forward (`W`).
pub const KEY_FORWARD: i32 = 0x77;

/// Keyboard code of the key that turns left (`A`).
pub const KEY_TURN_LEFT: i32 = 0x61;

/// Keyboard code of the key that turns right (`D`).
pub const KEY_TURN_RIGHT: i32 = 0x64;

/// Keyboard code of the key that fires (space).
pub const KEY_FIRE: i32 = 0x20;

/// A logical action of the player.
#[derive(Clone, Copy, Debug, PartialEq, Eq, Structural)]
pub enum Action {
    Forward,
    TurnLeft,
    TurnRight,
    Fire,
}

/// The action bound to a keyboard code, if any.
pub open spec fn key_action(code: i32) -> Option<Action> {
    if code == KEY_FORWARD {
        Some(Action::Forward)
    } else if code == KEY_TURN_LEFT {
        Some(Action::TurnLeft)
    } else if code == KEY_TURN_RIGHT {
        Some(Action::TurnRight)
    } else if code == KEY_FIRE {
        Some(Action::Fire)
    } else {
        None
    }
}

/// Looks up the action bound to a keyboard code.
pub fn action_for_key_code(code: i32) -> (r: Option<Action>)
    ensures
        r == key_action(code),
{
    if code == KEY_FORWARD {
        Some(Action::Forward)
    } else if code == KEY_TURN_LEFT {
        Some(Action::TurnLeft)
    } else if code == KEY_TURN_RIGHT {
        Some(Action::TurnRight)
    } else if code == KEY_FIRE {
        Some(Action::Fire)
    } else {
        None
    }
}

/// Which actions are held. `fire` is stored as a level; the simulation step
/// turns it into an edge.
#[derive(Clone, Copy, Debug, PartialEq, Eq, Structural)]
pub struct ControllerInput {
    pub move_forward: bool,
    pub turn_left: bool,
    pub turn_right: bool,
    pub fire: bool,
}

impl ControllerInput {
    /// Whether `action` is held.
    pub open spec fn held(self, action: Action) -> bool {
        match action {
            Action::Forward => self.move_forward,
            Action::TurnLeft => self.turn_left,
            Action::TurnRight => self.turn_right,
            Action::Fire => self.fire,
        }
    }

    /// Nothing held.
    pub fn new() -> (r: ControllerInput)
        ensures
            !r.move_forward,
            !r.turn_left,
            !r.turn_right,
            !r.fire,
    {
        ControllerInput { move_forward: false, turn_left: false, turn_right: false, fire: false }
    }

    /// Records that `action` is now held or released; the other actions keep
    /// their state.
    pub fn set(&mut self, action: Action, held: bool)
        ensures
            final(self).held(action) == held,
            forall|b: Action| b != action ==> final(self).held(b) == old(self).held(b),
    {
        match action {
            Action::Forward => self.move_forward = held,
            Action::TurnLeft => self.turn_left = held,
            Action::TurnRight => self.turn_right = held,
            Action::Fire => self.fire = held,
        }
    }

    /// A press notification: `action` becomes held.
    pub fn press(&mut self, action: Action)
        ensures
            final(self).held(action),
            forall|b: Action| b != action ==> final(self).held(b) == old(self).held(b),
    {
        self.set(action, true);
    }

    /// A release notification: `action` is no longer held.
    pub fn release(&mut self, action: Action)
        ensures
            !final(self).held(action),
            forall|b: Action| b != action ==> final(self).held(b) == old(self).held(b),
    {
        self.set(action, false);
    }
}

} // verus!
