use vstd::prelude::*;
use crate::global::PlayerSide;

verus! {

/// Score at which a side wins the match.
pub const WIN_THRESHOLD: i32 = 15;

/// A side may touch the ball this many times before the next touch is a
/// fault.
pub const MAX_TOUCHES: i32 = 3;

/// A physical contact with the same blob within this many ticks of a
/// counted touch is one squashed contact, not a new touch: it is ignored.
pub const SQUISH_TICKS: i32 = 5;

/// The rule-enforcement collaborator as this core observes it: scores,
/// serve rotation, touch counting and fault detection. It never sees the
/// continuous world; the match controller feeds it discrete contacts and
/// reads its verdicts.
#[derive(Clone, Copy, Debug, PartialEq, Eq, Structural)]
pub struct GameLogic {
    pub score_left: i32,
    pub score_right: i32,
    pub serving: PlayerSide,
    /// The side that faulted, set when a fault is registered and cleared
    /// when the controller reads it; `NoPlayer` when no fault is pending.
    pub last_error: PlayerSide,
    /// The side that has reached the winning score, `NoPlayer` before then.
    pub winner: PlayerSide,
    pub touches_left: i32,
    pub touches_right: i32,
    /// Remaining ticks during which a renewed contact with that blob is
    /// squashed into the previous touch.
    pub squish_left: i32,
    pub squish_right: i32,
}

/// A squish timer counts down to zero, one tick at a time.
pub open spec fn ticked_down_spec(a: i32) -> i32 {
    if a > 0 {
        (a - 1) as i32
    } else {
        0
    }
}

impl GameLogic {
    pub open spec fn score_of_spec(self, side: PlayerSide) -> i32 {
        if side == PlayerSide::LeftPlayer {
            self.score_left
        } else {
            self.score_right
        }
    }

    pub open spec fn touches_of_spec(self, side: PlayerSide) -> i32 {
        if side == PlayerSide::LeftPlayer {
            self.touches_left
        } else {
            self.touches_right
        }
    }

    pub open spec fn squish_of_spec(self, side: PlayerSide) -> i32 {
        if side == PlayerSide::LeftPlayer {
            self.squish_left
        } else {
            self.squish_right
        }
    }

    /// Validity of the rule state: scores stay within the winning score,
    /// counters within their ranges, a real side serves, and the winner is
    /// exactly a side that has reached the winning score.
    pub open spec fn wf_spec(self) -> bool {
        &&& 0 <= self.score_left <= WIN_THRESHOLD
        &&& 0 <= self.score_right <= WIN_THRESHOLD
        &&& self.serving.is_player()
        &&& 0 <= self.touches_left <= MAX_TOUCHES
        &&& 0 <= self.touches_right <= MAX_TOUCHES
        &&& 0 <= self.squish_left <= SQUISH_TICKS
        &&& 0 <= self.squish_right <= SQUISH_TICKS
        &&& (self.winner == PlayerSide::LeftPlayer ==> self.score_left == WIN_THRESHOLD)
        &&& (self.winner == PlayerSide::RightPlayer ==> self.score_right == WIN_THRESHOLD)
        &&& (self.winner == PlayerSide::NoPlayer ==> self.score_left < WIN_THRESHOLD
            && self.score_right < WIN_THRESHOLD)
    }

    pub open spec fn initial_spec() -> GameLogic {
        GameLogic {
            score_left: 0,
            score_right: 0,
            serving: PlayerSide::LeftPlayer,
            last_error: PlayerSide::NoPlayer,
            winner: PlayerSide::NoPlayer,
            touches_left: 0,
            touches_right: 0,
            squish_left: 0,
            squish_right: 0,
        }
    }

    /// One fixed tick of the rule engine: only its squish timers move.
    pub open spec fn stepped_spec(self) -> GameLogic {
        GameLogic {
            squish_left: ticked_down_spec(self.squish_left),
            squish_right: ticked_down_spec(self.squish_right),
            ..self
        }
    }

    /// A fault by `side` (a real player): the rally is over, the opponent
    /// scores and takes the serve, and the opponent wins the match on
    /// reaching the winning score. Once the match is won, later faults no
    /// longer move score or serve.
    pub open spec fn fault_spec(self, side: PlayerSide) -> GameLogic {
        let opp = side.opponent_spec();
        if self.winner == PlayerSide::NoPlayer {
            let new_left: i32 = if opp == PlayerSide::LeftPlayer {
                (self.score_left + 1) as i32
            } else {
                self.score_left
            };
            let new_right: i32 = if opp == PlayerSide::RightPlayer {
                (self.score_right + 1) as i32
            } else {
                self.score_right
            };
            GameLogic {
                score_left: new_left,
                score_right: new_right,
                serving: opp,
                last_error: side,
                winner: if (opp == PlayerSide::LeftPlayer && new_left >= WIN_THRESHOLD) || (opp
                    == PlayerSide::RightPlayer && new_right >= WIN_THRESHOLD) {
                    opp
                } else {
                    PlayerSide::NoPlayer
                },
                touches_left: 0,
                touches_right: 0,
                squish_left: 0,
                squish_right: 0,
            }
        } else {
            GameLogic {
                last_error: side,
                touches_left: 0,
                touches_right: 0,
                squish_left: 0,
                squish_right: 0,
                ..self
            }
        }
    }

    /// Whether a fresh contact with `side`'s blob counts as a legal touch:
    /// it must not be a squashed continuation of the previous contact, and
    /// the side must still have touches left.
    pub open spec fn hit_valid_spec(self, side: PlayerSide) -> bool {
        self.squish_of_spec(side) == 0 && self.touches_of_spec(side) < MAX_TOUCHES
    }

    /// The rule engine's reaction to a reported player contact: a squashed
    /// contact is dropped without any state change; a legal touch is
    /// counted and resets the opponent's touches; a touch past the limit
    /// registers a fault by that side.
    pub open spec fn player_hit_spec(self, side: PlayerSide) -> GameLogic {
        if self.squish_of_spec(side) > 0 {
            self
        } else if self.touches_of_spec(side) < MAX_TOUCHES {
            GameLogic {
                touches_left: if side == PlayerSide::LeftPlayer {
                    (self.touches_left + 1) as i32
                } else {
                    0
                },
                touches_right: if side == PlayerSide::RightPlayer {
                    (self.touches_right + 1) as i32
                } else {
                    0
                },
                squish_left: if side == PlayerSide::LeftPlayer {
                    SQUISH_TICKS
                } else {
                    self.squish_left
                },
                squish_right: if side == PlayerSide::RightPlayer {
                    SQUISH_TICKS
                } else {
                    self.squish_right
                },
                ..self
            }
        } else {
            self.fault_spec(side)
        }
    }

    /// A ground contact on `side`'s half is a fault by that side.
    pub open spec fn ground_hit_spec(self, side: PlayerSide) -> GameLogic {
        self.fault_spec(side)
    }

    /// The pending fault after it has been read out.
    pub open spec fn error_cleared_spec(self) -> GameLogic {
        GameLogic { last_error: PlayerSide::NoPlayer, ..self }
    }

    pub fn new() -> (r: GameLogic)
        ensures
            r == GameLogic::initial_spec(),
            r.wf_spec(),
    {
        GameLogic {
            score_left: 0,
            score_right: 0,
            serving: PlayerSide::LeftPlayer,
            last_error: PlayerSide::NoPlayer,
            winner: PlayerSide::NoPlayer,
            touches_left: 0,
            touches_right: 0,
            squish_left: 0,
            squish_right: 0,
        }
    }

    pub fn step(&mut self)
        ensures
            *final(self) == old(self).stepped_spec(),
    {
        if self.squish_left > 0 {
            self.squish_left = self.squish_left - 1;
        } else {
            self.squish_left = 0;
        }
        if self.squish_right > 0 {
            self.squish_right = self.squish_right - 1;
        } else {
            self.squish_right = 0;
        }
    }

    /// Reports a player contact and answers whether it counted as a legal
    /// touch; an illegal touch past the limit registers a fault by that
    /// side.
    pub fn on_ball_hits_player(&mut self, side: PlayerSide) -> (valid: bool)
        requires
            old(self).wf_spec(),
            side.is_player(),
        ensures
            valid == old(self).hit_valid_spec(side),
            *final(self) == old(self).player_hit_spec(side),
            final(self).wf_spec(),
    {
        let squish = if matches!(side, PlayerSide::LeftPlayer) {
            self.squish_left
        } else {
            self.squish_right
        };
        let touches = if matches!(side, PlayerSide::LeftPlayer) {
            self.touches_left
        } else {
            self.touches_right
        };
        if squish > 0 {
            false
        } else if touches < MAX_TOUCHES {
            match side {
                PlayerSide::LeftPlayer => {
                    self.touches_left = self.touches_left + 1;
                    self.touches_right = 0;
                    self.squish_left = SQUISH_TICKS;
                },
                _ => {
                    self.touches_right = self.touches_right + 1;
                    self.touches_left = 0;
                    self.squish_right = SQUISH_TICKS;
                },
            }
            true
        } else {
            self.register_fault(side);
            false
        }
    }

    /// Reports a ground contact on `side`'s half, a fault by that side.
    pub fn on_ball_hits_ground(&mut self, side: PlayerSide)
        requires
            old(self).wf_spec(),
            side.is_player(),
        ensures
            *final(self) == old(self).ground_hit_spec(side),
            final(self).wf_spec(),
    {
        self.register_fault(side);
    }

    fn register_fault(&mut self, side: PlayerSide)
        requires
            old(self).wf_spec(),
            side.is_player(),
        ensures
            *final(self) == old(self).fault_spec(side),
            final(self).wf_spec(),
    {
        self.last_error = side;
        self.touches_left = 0;
        self.touches_right = 0;
        self.squish_left = 0;
        self.squish_right = 0;
        if matches!(self.winner, PlayerSide::NoPlayer) {
            let opp = side.opponent();
            match opp {
                PlayerSide::LeftPlayer => {
                    self.score_left = self.score_left + 1;
                    if self.score_left >= WIN_THRESHOLD {
                        self.winner = PlayerSide::LeftPlayer;
                    }
                },
                _ => {
                    self.score_right = self.score_right + 1;
                    if self.score_right >= WIN_THRESHOLD {
                        self.winner = PlayerSide::RightPlayer;
                    }
                },
            }
            self.serving = opp;
        }
    }

    /// Reads the pending fault and clears it, so a fault is reported for
    /// exactly one tick.
    pub fn get_last_error_side(&mut self) -> (r: PlayerSide)
        ensures
            r == old(self).last_error,
            *final(self) == old(self).error_cleared_spec(),
    {
        let err = self.last_error;
        self.last_error = PlayerSide::NoPlayer;
        err
    }

    pub fn get_winning_player(&self) -> (r: PlayerSide)
        ensures
            r == self.winner,
    {
        self.winner
    }

    pub fn get_serving_player(&self) -> (r: PlayerSide)
        ensures
            r == self.serving,
    {
        self.serving
    }

    pub fn get_scores(&self) -> (r: (i32, i32))
        ensures
            r == (self.score_left, self.score_right),
    {
        (self.score_left, self.score_right)
    }
}

} // verus!
