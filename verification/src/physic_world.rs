use vstd::prelude::*;
use crate::global::PlayerSide;
use crate::player_input::PlayerInput;
use crate::vector::Vector2f;
use crate::vector::sat_add;
use crate::vector::sat_add_spec;

verus! {

/// Horizontal rest position of the left blob, and of a ball served on the
/// left side.
pub const LEFT_SERVE_X: i64 = 200;

/// Horizontal rest position of the right blob, and of a ball served on the
/// right side.
pub const RIGHT_SERVE_X: i64 = 600;

/// Vertical rest position of a blob standing on the ground plane.
pub const BLOB_GROUND_Y: i64 = 500;

/// Height at which a served ball is placed above the serving blob.
pub const SERVE_HEIGHT_Y: i64 = 150;

/// Horizontal distance a blob covers in one tick while a direction intent
/// is held.
pub const BLOB_SPEED: i64 = 5;

/// Upward velocity reported for a blob whose jump intent is held.
pub const JUMP_SPEED: i64 = 10;

/// Number of animation frames a blob cycles through while moving.
pub const ANIMATION_FRAMES: i64 = 1000;

/// Motion state of one blob: where it stands, how it moves, and which
/// animation frame it shows.
#[derive(Clone, Copy, Debug, PartialEq, Eq, Structural)]
pub struct BlobState {
    pub position: Vector2f,
    pub velocity: Vector2f,
    pub animation: i64,
}

/// The contacts the collision detection found for one tick.
#[derive(Clone, Copy, Debug, PartialEq, Eq, Structural)]
pub struct ContactSet {
    pub left_player: bool,
    pub right_player: bool,
    pub left_ground: bool,
    pub right_ground: bool,
}

impl ContactSet {
    pub open spec fn none_spec() -> ContactSet {
        ContactSet { left_player: false, right_player: false, left_ground: false, right_ground: false }
    }

    pub fn none() -> (r: ContactSet)
        ensures
            r == ContactSet::none_spec(),
    {
        ContactSet { left_player: false, right_player: false, left_ground: false, right_ground: false }
    }

    pub open spec fn any_player(self) -> bool {
        self.left_player || self.right_player
    }

    pub open spec fn any_ground(self) -> bool {
        self.left_ground || self.right_ground
    }
}

/// The physics collaborator as this core observes it: continuous state is
/// carried as plain integer kinematics, and the collision detection of the
/// integrator reports its findings by recording pending contacts, which one
/// `step` latches into the contacts of the tick.
///
/// The motion equations of the real integrator (collision response, gravity,
/// restitution) are outside this core; this model keeps exactly the state
/// the match controller reads, writes and resets.
#[derive(Clone, Copy, Debug, PartialEq, Eq, Structural)]
pub struct PhysicWorld {
    pub ball_position: Vector2f,
    pub ball_velocity: Vector2f,
    pub ball_rotation: i64,
    pub blob_left: BlobState,
    pub blob_right: BlobState,
    pub input_left: PlayerInput,
    pub input_right: PlayerInput,
    /// False once the rally has been decided: further contacts of the dead
    /// ball are no longer reported.
    pub ball_valid: bool,
    /// True once the ball has been touched by a player since the last serve.
    pub game_running: bool,
    /// True once a dead ball has come down to the ground, the settling half
    /// of the round-finished condition.
    pub ball_down: bool,
    /// Contacts recorded since the last tick, consumed by the next `step`.
    pub pending: ContactSet,
    /// Contacts reported for the tick most recently stepped.
    pub current: ContactSet,
}

/// One tick of blob motion: held direction intents move the blob, the jump
/// intent shows as upward velocity, and motion advances the animation.
pub open spec fn blob_stepped_spec(blob: BlobState, input: PlayerInput) -> BlobState {
    let dx: i64 = if input.right && !input.left {
        BLOB_SPEED
    } else if input.left && !input.right {
        (-BLOB_SPEED) as i64
    } else {
        0
    };
    let vy: i64 = if input.up {
        (-JUMP_SPEED) as i64
    } else {
        0
    };
    let moving = dx != 0 || input.up;
    BlobState {
        position: Vector2f { x: sat_add_spec(blob.position.x, dx), y: blob.position.y },
        velocity: Vector2f { x: dx, y: vy },
        animation: if moving {
            if blob.animation >= ANIMATION_FRAMES - 1 {
                0
            } else {
                (blob.animation + 1) as i64
            }
        } else {
            blob.animation
        },
    }
}

fn step_blob(blob: BlobState, input: PlayerInput) -> (r: BlobState)
    ensures
        r == blob_stepped_spec(blob, input),
{
    let dx: i64 = if input.right && !input.left {
        BLOB_SPEED
    } else if input.left && !input.right {
        -BLOB_SPEED
    } else {
        0
    };
    let vy: i64 = if input.up {
        -JUMP_SPEED
    } else {
        0
    };
    let moving = dx != 0 || input.up;
    let animation: i64 = if moving {
        if blob.animation >= ANIMATION_FRAMES - 1 {
            0
        } else {
            blob.animation + 1
        }
    } else {
        blob.animation
    };
    BlobState {
        position: Vector2f { x: sat_add(blob.position.x, dx), y: blob.position.y },
        velocity: Vector2f { x: dx, y: vy },
        animation,
    }
}

impl PhysicWorld {
    /// Blobs standing at their rest positions.
    pub open spec fn centered_blob_spec(x: i64) -> BlobState {
        BlobState {
            position: Vector2f { x: x, y: BLOB_GROUND_Y },
            velocity: Vector2f { x: 0, y: 0 },
            animation: 0,
        }
    }

    /// The serve position of the ball for the given serving side.
    pub open spec fn serve_position_spec(side: PlayerSide) -> Vector2f {
        Vector2f {
            x: if side == PlayerSide::RightPlayer {
                RIGHT_SERVE_X
            } else {
                LEFT_SERVE_X
            },
            y: SERVE_HEIGHT_Y,
        }
    }

    /// The state after a reset for a new rally: everything centered, ball
    /// placed for the given serving side, validity restored, contact and
    /// settling flags cleared. Held inputs persist across rallies.
    pub open spec fn reset_spec(self, side: PlayerSide) -> PhysicWorld {
        PhysicWorld {
            ball_position: PhysicWorld::serve_position_spec(side),
            ball_velocity: Vector2f { x: 0, y: 0 },
            ball_rotation: 0,
            blob_left: PhysicWorld::centered_blob_spec(LEFT_SERVE_X),
            blob_right: PhysicWorld::centered_blob_spec(RIGHT_SERVE_X),
            input_left: self.input_left,
            input_right: self.input_right,
            ball_valid: true,
            game_running: false,
            ball_down: false,
            pending: ContactSet::none_spec(),
            current: ContactSet::none_spec(),
        }
    }

    /// The initial world: a left-side serve with neutral inputs.
    pub open spec fn initial_spec() -> PhysicWorld {
        PhysicWorld {
            ball_position: PhysicWorld::serve_position_spec(PlayerSide::LeftPlayer),
            ball_velocity: Vector2f { x: 0, y: 0 },
            ball_rotation: 0,
            blob_left: PhysicWorld::centered_blob_spec(LEFT_SERVE_X),
            blob_right: PhysicWorld::centered_blob_spec(RIGHT_SERVE_X),
            input_left: PlayerInput::neutral_spec(),
            input_right: PlayerInput::neutral_spec(),
            ball_valid: true,
            game_running: false,
            ball_down: false,
            pending: ContactSet::none_spec(),
            current: ContactSet::none_spec(),
        }
    }

    /// One fixed tick: the ball integrates its velocity, blobs follow their
    /// held inputs, and the pending contacts are latched — but only while
    /// the ball is valid; contacts of a dead ball are not reported, they
    /// only settle the ball for the round-finished condition.
    pub open spec fn stepped_spec(self) -> PhysicWorld {
        PhysicWorld {
            ball_position: self.ball_position.plus_spec(self.ball_velocity),
            ball_velocity: self.ball_velocity,
            ball_rotation: sat_add_spec(self.ball_rotation, self.ball_velocity.x),
            blob_left: blob_stepped_spec(self.blob_left, self.input_left),
            blob_right: blob_stepped_spec(self.blob_right, self.input_right),
            input_left: self.input_left,
            input_right: self.input_right,
            ball_valid: self.ball_valid,
            game_running: self.game_running || (self.ball_valid && self.pending.any_player()),
            ball_down: self.ball_down || (!self.ball_valid && self.pending.any_ground()),
            pending: ContactSet::none_spec(),
            current: if self.ball_valid {
                self.pending
            } else {
                ContactSet::none_spec()
            },
        }
    }

    /// A valid ball has not settled yet.
    pub open spec fn wf_spec(self) -> bool {
        self.ball_valid ==> !self.ball_down
    }

    /// The round is over once the rally has been decided and the dead ball
    /// has come down.
    pub open spec fn round_finished_spec(self) -> bool {
        !self.ball_valid && self.ball_down
    }

    pub fn new() -> (r: PhysicWorld)
        ensures
            r == PhysicWorld::initial_spec(),
    {
        PhysicWorld {
            ball_position: Vector2f { x: LEFT_SERVE_X, y: SERVE_HEIGHT_Y },
            ball_velocity: Vector2f { x: 0, y: 0 },
            ball_rotation: 0,
            blob_left: BlobState {
                position: Vector2f { x: LEFT_SERVE_X, y: BLOB_GROUND_Y },
                velocity: Vector2f { x: 0, y: 0 },
                animation: 0,
            },
            blob_right: BlobState {
                position: Vector2f { x: RIGHT_SERVE_X, y: BLOB_GROUND_Y },
                velocity: Vector2f { x: 0, y: 0 },
                animation: 0,
            },
            input_left: PlayerInput::new(),
            input_right: PlayerInput::new(),
            ball_valid: true,
            game_running: false,
            ball_down: false,
            pending: ContactSet::none(),
            current: ContactSet::none(),
        }
    }

    pub fn step(&mut self)
        ensures
            *final(self) == old(self).stepped_spec(),
    {
        self.ball_position = self.ball_position.plus(self.ball_velocity);
        self.ball_rotation = sat_add(self.ball_rotation, self.ball_velocity.x);
        self.blob_left = step_blob(self.blob_left, self.input_left);
        self.blob_right = step_blob(self.blob_right, self.input_right);
        self.game_running = self.game_running || (self.ball_valid && (self.pending.left_player
            || self.pending.right_player));
        self.ball_down = self.ball_down || (!self.ball_valid && (self.pending.left_ground
            || self.pending.right_ground));
        self.current = if self.ball_valid {
            self.pending
        } else {
            ContactSet::none()
        };
        self.pending = ContactSet::none();
    }

    /// The collision detection of the integrator records that the ball
    /// touched the given player's blob; the next tick reports it.
    pub fn record_player_contact(&mut self, side: PlayerSide)
        ensures
            *final(self) == (PhysicWorld {
                pending: ContactSet {
                    left_player: old(self).pending.left_player || side == PlayerSide::LeftPlayer,
                    right_player: old(self).pending.right_player || side
                        == PlayerSide::RightPlayer,
                    ..old(self).pending
                },
                ..*old(self)
            }),
    {
        match side {
            PlayerSide::LeftPlayer => {
                self.pending.left_player = true;
            },
            PlayerSide::RightPlayer => {
                self.pending.right_player = true;
            },
            PlayerSide::NoPlayer => {},
        }
    }

    /// The collision detection of the integrator records that the ball
    /// touched the ground on the given player's half; the next tick
    /// reports it.
    pub fn record_ground_contact(&mut self, side: PlayerSide)
        ensures
            *final(self) == (PhysicWorld {
                pending: ContactSet {
                    left_ground: old(self).pending.left_ground || side == PlayerSide::LeftPlayer,
                    right_ground: old(self).pending.right_ground || side
                        == PlayerSide::RightPlayer,
                    ..old(self).pending
                },
                ..*old(self)
            }),
    {
        match side {
            PlayerSide::LeftPlayer => {
                self.pending.left_ground = true;
            },
            PlayerSide::RightPlayer => {
                self.pending.right_ground = true;
            },
            PlayerSide::NoPlayer => {},
        }
    }

    pub fn ball_hit_left_player(&self) -> (r: bool)
        ensures
            r == self.current.left_player,
    {
        self.current.left_player
    }

    pub fn ball_hit_right_player(&self) -> (r: bool)
        ensures
            r == self.current.right_player,
    {
        self.current.right_player
    }

    pub fn ball_hit_left_ground(&self) -> (r: bool)
        ensures
            r == self.current.left_ground,
    {
        self.current.left_ground
    }

    pub fn ball_hit_right_ground(&self) -> (r: bool)
        ensures
            r == self.current.right_ground,
    {
        self.current.right_ground
    }

    pub fn is_round_finished(&self) -> (r: bool)
        ensures
            r == self.round_finished_spec(),
    {
        !self.ball_valid && self.ball_down
    }

    /// Damping correction on a dead ball: its velocity is halved so no
    /// runaway energy carries over into the dead-ball state.
    pub fn damp_ball(&mut self)
        ensures
            *final(self) == (PhysicWorld {
                ball_velocity: old(self).ball_velocity.halved_spec(),
                ..*old(self)
            }),
    {
        self.ball_velocity = self.ball_velocity.halved();
    }

    pub fn set_ball_validity(&mut self, valid: bool)
        ensures
            *final(self) == (PhysicWorld { ball_valid: valid, ..*old(self) }),
    {
        self.ball_valid = valid;
    }

    pub fn reset(&mut self, side: PlayerSide)
        ensures
            *final(self) == old(self).reset_spec(side),
    {
        self.ball_position = Vector2f {
            x: if side == PlayerSide::RightPlayer {
                RIGHT_SERVE_X
            } else {
                LEFT_SERVE_X
            },
            y: SERVE_HEIGHT_Y,
        };
        self.ball_velocity = Vector2f { x: 0, y: 0 };
        self.ball_rotation = 0;
        self.blob_left = BlobState {
            position: Vector2f { x: LEFT_SERVE_X, y: BLOB_GROUND_Y },
            velocity: Vector2f { x: 0, y: 0 },
            animation: 0,
        };
        self.blob_right = BlobState {
            position: Vector2f { x: RIGHT_SERVE_X, y: BLOB_GROUND_Y },
            velocity: Vector2f { x: 0, y: 0 },
            animation: 0,
        };
        self.ball_valid = true;
        self.game_running = false;
        self.ball_down = false;
        self.pending = ContactSet::none();
        self.current = ContactSet::none();
    }

    /// Puts both blobs back on their rest positions, leaving the rest of
    /// the world as it is.
    pub fn reset_player(&mut self)
        ensures
            *final(self) == (PhysicWorld {
                blob_left: PhysicWorld::centered_blob_spec(LEFT_SERVE_X),
                blob_right: PhysicWorld::centered_blob_spec(RIGHT_SERVE_X),
                ..*old(self)
            }),
    {
        self.blob_left = BlobState {
            position: Vector2f { x: LEFT_SERVE_X, y: BLOB_GROUND_Y },
            velocity: Vector2f { x: 0, y: 0 },
            animation: 0,
        };
        self.blob_right = BlobState {
            position: Vector2f { x: RIGHT_SERVE_X, y: BLOB_GROUND_Y },
            velocity: Vector2f { x: 0, y: 0 },
            animation: 0,
        };
    }

    pub fn set_player_input(&mut self, side: PlayerSide, input: PlayerInput)
        ensures
            *final(self) == (PhysicWorld {
                input_left: if side == PlayerSide::LeftPlayer {
                    input
                } else {
                    old(self).input_left
                },
                input_right: if side == PlayerSide::RightPlayer {
                    input
                } else {
                    old(self).input_right
                },
                ..*old(self)
            }),
    {
        match side {
            PlayerSide::LeftPlayer => {
                self.input_left = input;
            },
            PlayerSide::RightPlayer => {
                self.input_right = input;
            },
            PlayerSide::NoPlayer => {},
        }
    }

    pub fn get_player_input(&self, side: PlayerSide) -> (r: PlayerInput)
        ensures
            r == (if side == PlayerSide::LeftPlayer {
                self.input_left
            } else if side == PlayerSide::RightPlayer {
                self.input_right
            } else {
                PlayerInput::neutral_spec()
            }),
    {
        match side {
            PlayerSide::LeftPlayer => self.input_left,
            PlayerSide::RightPlayer => self.input_right,
            PlayerSide::NoPlayer => PlayerInput::new(),
        }
    }

    pub fn get_ball_position(&self) -> (r: Vector2f)
        ensures
            r == self.ball_position,
    {
        self.ball_position
    }

    pub fn get_ball_velocity(&self) -> (r: Vector2f)
        ensures
            r == self.ball_velocity,
    {
        self.ball_velocity
    }

    pub fn get_ball_rotation(&self) -> (r: i64)
        ensures
            r == self.ball_rotation,
    {
        self.ball_rotation
    }

    /// Position of the given player's blob; the sentinel has no blob and
    /// reads as the origin.
    pub fn get_blob(&self, side: PlayerSide) -> (r: Vector2f)
        ensures
            r == (if side == PlayerSide::LeftPlayer {
                self.blob_left.position
            } else if side == PlayerSide::RightPlayer {
                self.blob_right.position
            } else {
                Vector2f::new_spec(0, 0)
            }),
    {
        match side {
            PlayerSide::LeftPlayer => self.blob_left.position,
            PlayerSide::RightPlayer => self.blob_right.position,
            PlayerSide::NoPlayer => Vector2f::new(0, 0),
        }
    }

    /// Animation frame of the given player's blob; the sentinel reads as
    /// frame zero.
    pub fn get_blob_state(&self, side: PlayerSide) -> (r: i64)
        ensures
            r == (if side == PlayerSide::LeftPlayer {
                self.blob_left.animation
            } else if side == PlayerSide::RightPlayer {
                self.blob_right.animation
            } else {
                0
            }),
    {
        match side {
            PlayerSide::LeftPlayer => self.blob_left.animation,
            PlayerSide::RightPlayer => self.blob_right.animation,
            PlayerSide::NoPlayer => 0,
        }
    }

    pub fn get_blob_positions(&self) -> (r: (Vector2f, Vector2f))
        ensures
            r == (self.blob_left.position, self.blob_right.position),
    {
        (self.blob_left.position, self.blob_right.position)
    }

    pub fn get_blob_velocities(&self) -> (r: (Vector2f, Vector2f))
        ensures
            r == (self.blob_left.velocity, self.blob_right.velocity),
    {
        (self.blob_left.velocity, self.blob_right.velocity)
    }

    pub fn is_game_running(&self) -> (r: bool)
        ensures
            r == self.game_running,
    {
        self.game_running
    }

    pub fn is_ball_valid(&self) -> (r: bool)
        ensures
            r == self.ball_valid,
    {
        self.ball_valid
    }
}

} // verus!
