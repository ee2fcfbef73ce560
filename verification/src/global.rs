use vstd::prelude::*;

verus! {

/// Identity of a player, with a sentinel for "no player" used by the
/// fault and winner queries of the rule engine.
#[derive(Clone, Copy, Debug, PartialEq, Eq, Structural)]
pub enum PlayerSide {
    LeftPlayer,
    RightPlayer,
    NoPlayer,
}

impl PlayerSide {
    /// The opponent of a real player; `NoPlayer` has no opponent.
    pub open spec fn opponent_spec(self) -> PlayerSide {
        match self {
            PlayerSide::LeftPlayer => PlayerSide::RightPlayer,
            PlayerSide::RightPlayer => PlayerSide::LeftPlayer,
            PlayerSide::NoPlayer => PlayerSide::NoPlayer,
        }
    }

    pub fn opponent(self) -> (r: PlayerSide)
        ensures
            r == self.opponent_spec(),
    {
        match self {
            PlayerSide::LeftPlayer => PlayerSide::RightPlayer,
            PlayerSide::RightPlayer => PlayerSide::LeftPlayer,
            PlayerSide::NoPlayer => PlayerSide::NoPlayer,
        }
    }

    /// True of the two real players, false of the sentinel.
    pub open spec fn is_player(self) -> bool {
        self != PlayerSide::NoPlayer
    }
}

} // verus!
