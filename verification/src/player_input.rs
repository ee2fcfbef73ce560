use vstd::prelude::*;

verus! {

/// The discrete intents a player (human mapper or bot) can express for one
/// tick: move left, move right, jump.
#[derive(Clone, Copy, Debug, PartialEq, Eq, Structural)]
pub struct PlayerInput {
    pub left: bool,
    pub right: bool,
    pub up: bool,
}

impl PlayerInput {
    /// The neutral input: no intent expressed.
    pub open spec fn neutral_spec() -> PlayerInput {
        PlayerInput { left: false, right: false, up: false }
    }

    pub fn new() -> (r: PlayerInput)
        ensures
            r == PlayerInput::neutral_spec(),
    {
        PlayerInput { left: false, right: false, up: false }
    }
}

} // verus!
