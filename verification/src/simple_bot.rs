use vstd::prelude::*;
use crate::global::PlayerSide;
use crate::player_input::PlayerInput;
use crate::vector::Vector2f;

verus! {

/// The ephemeral, read-only view of the world assembled fresh every tick
/// for a bot, passed by value and discarded after use.
#[derive(Clone, Copy, Debug)]
pub struct CurrentGameState {
    pub blob_positions: (Vector2f, Vector2f),
    pub blob_velocities: (Vector2f, Vector2f),
    pub is_game_running: bool,
    pub is_ball_valid: bool,
    pub serving_player: PlayerSide,
}

/// The bot's decision rule: chase the ball horizontally from the own
/// blob's position, and jump while a valid ball is coming down.
pub open spec fn bot_decision_spec(
    side: PlayerSide,
    data: CurrentGameState,
    ball_position: Vector2f,
    ball_velocity: Vector2f,
) -> PlayerInput {
    let my_x = if side == PlayerSide::RightPlayer {
        data.blob_positions.1.x
    } else {
        data.blob_positions.0.x
    };
    PlayerInput {
        left: ball_position.x < my_x,
        right: ball_position.x > my_x,
        up: data.is_ball_valid && ball_velocity.y > 0,
    }
}

/// A bot for one side. At the controller's observation boundary it is a
/// pure function of the snapshot: `step` plans the input for the coming
/// tick, `compute_input` reads it, and `reset_input` clears the per-tick
/// scratch so nothing of one tick's decision leaks into the next.
#[derive(Clone, Copy, Debug, PartialEq, Eq, Structural)]
pub struct SimpleBot {
    pub side: PlayerSide,
    pub difficulty: i32,
    pub planned_input: PlayerInput,
}

impl SimpleBot {
    pub fn new(side: PlayerSide, difficulty: i32) -> (r: SimpleBot)
        ensures
            r == (SimpleBot { side, difficulty, planned_input: PlayerInput::neutral_spec() }),
    {
        SimpleBot { side, difficulty, planned_input: PlayerInput::new() }
    }

    /// Plans the input for the coming tick from the given snapshot and
    /// ball kinematics.
    pub fn step(
        &mut self,
        data: CurrentGameState,
        ball_position: Vector2f,
        ball_velocity: Vector2f,
    )
        ensures
            *final(self) == (SimpleBot {
                planned_input: bot_decision_spec(
                    old(self).side,
                    data,
                    ball_position,
                    ball_velocity,
                ),
                ..*old(self)
            }),
    {
        let my_x = if self.side == PlayerSide::RightPlayer {
            data.blob_positions.1.x
        } else {
            data.blob_positions.0.x
        };
        self.planned_input = PlayerInput {
            left: ball_position.x < my_x,
            right: ball_position.x > my_x,
            up: data.is_ball_valid && ball_velocity.y > 0,
        };
    }

    pub fn compute_input(&self) -> (r: PlayerInput)
        ensures
            r == self.planned_input,
    {
        self.planned_input
    }

    /// Clears the per-tick scratch after the planned input has been read.
    pub fn reset_input(&mut self)
        ensures
            *final(self) == (SimpleBot { planned_input: PlayerInput::neutral_spec(), ..*old(self) }),
    {
        self.planned_input = PlayerInput::new();
    }
}

} // verus!
