//! The five boolean intents a peer reports each tick. Input is produced by
//! an external keyboard collaborator and applied verbatim by the host.

use vstd::prelude::*;

verus! {

/// Directional and shoot intent for one tick. Contradictory pairs (both
/// `up` and `down`, or both `left` and `right`) are legal: the simulation
/// resolves them by letting `up` win over `down` and `left` over `right`.
#[derive(Clone, Copy, Debug, PartialEq, Eq, Structural)]
pub struct PlayerInput {
    pub up: bool,
    pub down: bool,
    pub left: bool,
    pub right: bool,
    pub shoot: bool,
}

/// The input with no intent set.
pub open spec fn idle_input() -> PlayerInput {
    PlayerInput { up: false, down: false, left: false, right: false, shoot: false }
}

impl Default for PlayerInput {
    /// No key pressed.
    fn default() -> (r: Self)
        ensures
            r == idle_input(),
    {
        PlayerInput { up: false, down: false, left: false, right: false, shoot: false }
    }
}

impl PlayerInput {
    /// Builds an input from its five intents.
    pub fn new(up: bool, down: bool, left: bool, right: bool, shoot: bool) -> (r: Self)
        ensures
            r == (PlayerInput { up, down, left, right, shoot }),
    {
        PlayerInput { up, down, left, right, shoot }
    }
}

} // verus!
