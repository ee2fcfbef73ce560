use vstd::prelude::*;
use crate::duel_match::DuelMatch;
use crate::duel_match::FrameEvent;
use crate::duel_match::tick_events_spec;
use crate::duel_match::tick_post_spec;
use crate::global::PlayerSide;
use crate::physic_world::PhysicWorld;
use crate::player_input::PlayerInput;
use crate::simple_bot::CurrentGameState;
use crate::simple_bot::SimpleBot;
use crate::simple_bot::bot_decision_spec;

verus! {

/// What the session asks of the surrounding state machine after a tick:
/// keep running, or leave for the win screen of a side.
#[derive(Clone, Copy, Debug, PartialEq, Eq, Structural)]
pub enum StateTransition {
    NoTransition,
    WinStateTransition(PlayerSide),
}

/// Who controls a side.
#[derive(Clone, Copy, Debug, PartialEq, Eq, Structural)]
pub enum PlayerKind {
    Human,
    Computer,
}

/// The choice made on the new-game menu: who controls each side.
#[derive(Clone, Copy, Debug, PartialEq, Eq, Structural)]
pub struct GameConfiguration {
    pub player1_configuration: PlayerKind,
    pub player2_configuration: PlayerKind,
}

/// The keys the session maps onto player intents.
#[derive(Clone, Copy, Debug, PartialEq, Eq, Structural)]
pub enum GameKey {
    W,
    A,
    D,
    ArrowUp,
    ArrowLeft,
    ArrowRight,
    Other,
}

/// The state of a key in the event being handled.
#[derive(Clone, Copy, Debug, PartialEq, Eq, Structural)]
pub enum KeyState {
    Pressed,
    Held,
    Released,
    NotPressed,
}

/// The score cache of the rendering layer: the last-rendered score values
/// and whether their rendered artifacts exist. It starts out impossible
/// (-1) so the first frame always renders.
#[derive(Clone, Copy, Debug, PartialEq, Eq, Structural)]
pub struct Scoring {
    pub score1: i32,
    pub score2: i32,
    pub score1_texture_ready: bool,
    pub score2_texture_ready: bool,
}

impl Scoring {
    pub open spec fn initial_spec() -> Scoring {
        Scoring {
            score1: -1i32,
            score2: -1i32,
            score1_texture_ready: false,
            score2_texture_ready: false,
        }
    }

    pub fn new() -> (r: Scoring)
        ensures
            r == Scoring::initial_spec(),
    {
        Scoring { score1: -1, score2: -1, score1_texture_ready: false, score2_texture_ready: false }
    }

    /// The cache is invalid whenever either score changed from the values
    /// last rendered, or an artifact is missing.
    pub fn should_recreate_textures(&self, score1: i32, score2: i32) -> (r: bool)
        ensures
            r == (self.score1 != score1 || self.score2 != score2 || !self.score1_texture_ready
                || !self.score2_texture_ready),
    {
        self.score1 != score1 || self.score2 != score2 || !self.score1_texture_ready
            || !self.score2_texture_ready
    }

    /// Records that both scores have been rendered anew.
    pub fn on_textures_rendered(&mut self, score1: i32, score2: i32)
        ensures
            *final(self) == (Scoring {
                score1,
                score2,
                score1_texture_ready: true,
                score2_texture_ready: true,
            }),
    {
        self.score1 = score1;
        self.score2 = score2;
        self.score1_texture_ready = true;
        self.score2_texture_ready = true;
    }
}

/// A key either forces an intent on, forces it off, or leaves it alone.
pub open spec fn key_toggled_spec(current: bool, state: KeyState) -> bool {
    match state {
        KeyState::Pressed => true,
        KeyState::Released => false,
        _ => current,
    }
}

/// The two inputs after one key event: W/A/D drive the left player's
/// jump/left/right intents, the arrow keys the right player's.
pub open spec fn inputs_after_key_spec(
    input_left: PlayerInput,
    input_right: PlayerInput,
    key: GameKey,
    state: KeyState,
) -> (PlayerInput, PlayerInput) {
    match key {
        GameKey::W => (
            PlayerInput { up: key_toggled_spec(input_left.up, state), ..input_left },
            input_right,
        ),
        GameKey::A => (
            PlayerInput { left: key_toggled_spec(input_left.left, state), ..input_left },
            input_right,
        ),
        GameKey::D => (
            PlayerInput { right: key_toggled_spec(input_left.right, state), ..input_left },
            input_right,
        ),
        GameKey::ArrowUp => (
            input_left,
            PlayerInput { up: key_toggled_spec(input_right.up, state), ..input_right },
        ),
        GameKey::ArrowLeft => (
            input_left,
            PlayerInput { left: key_toggled_spec(input_right.left, state), ..input_right },
        ),
        GameKey::ArrowRight => (
            input_left,
            PlayerInput { right: key_toggled_spec(input_right.right, state), ..input_right },
        ),
        GameKey::Other => (input_left, input_right),
    }
}

/// Applies one key event to the held inputs of both players.
pub fn apply_key_event(
    input_left: PlayerInput,
    input_right: PlayerInput,
    key: GameKey,
    state: KeyState,
) -> (r: (PlayerInput, PlayerInput))
    ensures
        r == inputs_after_key_spec(input_left, input_right, key, state),
{
    let mut player_left_input = input_left;
    let mut player_right_input = input_right;
    match key {
        GameKey::W => {
            match state {
                KeyState::Pressed => player_left_input.up = true,
                KeyState::Released => player_left_input.up = false,
                _ => (),
            }
        },
        GameKey::A => {
            match state {
                KeyState::Pressed => player_left_input.left = true,
                KeyState::Released => player_left_input.left = false,
                _ => (),
            }
        },
        GameKey::D => {
            match state {
                KeyState::Pressed => player_left_input.right = true,
                KeyState::Released => player_left_input.right = false,
                _ => (),
            }
        },
        GameKey::ArrowUp => {
            match state {
                KeyState::Pressed => player_right_input.up = true,
                KeyState::Released => player_right_input.up = false,
                _ => (),
            }
        },
        GameKey::ArrowLeft => {
            match state {
                KeyState::Pressed => player_right_input.left = true,
                KeyState::Released => player_right_input.left = false,
                _ => (),
            }
        },
        GameKey::ArrowRight => {
            match state {
                KeyState::Pressed => player_right_input.right = true,
                KeyState::Released => player_right_input.right = false,
                _ => (),
            }
        },
        GameKey::Other => (),
    }
    (player_left_input, player_right_input)
}

/// The snapshot a bot receives: assembled fresh from the current match
/// state, before the tick advances.
pub open spec fn snapshot_spec(m: DuelMatch) -> CurrentGameState {
    CurrentGameState {
        blob_positions: (m.physic_world.blob_left.position, m.physic_world.blob_right.position),
        blob_velocities: (m.physic_world.blob_left.velocity, m.physic_world.blob_right.velocity),
        is_game_running: m.physic_world.game_running,
        is_ball_valid: m.physic_world.ball_valid,
        serving_player: m.game_logic.serving,
    }
}

/// A frame counter that stops at its ceiling rather than wrap.
pub open spec fn bumped_spec(n: usize) -> usize {
    if n < usize::MAX {
        (n + 1) as usize
    } else {
        n
    }
}

/// Which transition a tick's events ask for: the first winning side found,
/// left before right, else none.
pub open spec fn transition_spec(events: Seq<FrameEvent>) -> StateTransition {
    if events.contains(FrameEvent::EventWin(PlayerSide::LeftPlayer)) {
        StateTransition::WinStateTransition(PlayerSide::LeftPlayer)
    } else if events.contains(FrameEvent::EventWin(PlayerSide::RightPlayer)) {
        StateTransition::WinStateTransition(PlayerSide::RightPlayer)
    } else {
        StateTransition::NoTransition
    }
}

/// Whether `events` holds `target`.
pub fn contains_event(events: &Vec<FrameEvent>, target: FrameEvent) -> (r: bool)
    ensures
        r == events@.contains(target),
{
    let mut i: usize = 0;
    while i < events.len()
        invariant
            i <= events@.len(),
            forall|k: int| 0 <= k < i ==> events@[k] != target,
        decreases events@.len() - i,
    {
        if events[i] == target {
            assert(events@[i as int] == target);
            return true;
        }
        i = i + 1;
    }
    false
}

/// The match as it stands when the controller steps: any bot-controlled
/// side has had its freshly-computed input written into the physics world,
/// right side first as the session does it. Writing an input changes
/// nothing a snapshot carries, so both bots see the same snapshot.
pub open spec fn match_with_bot_inputs_spec(s: LocalGameState) -> DuelMatch {
    let snap = snapshot_spec(s.duel_match);
    let ball_position = s.duel_match.physic_world.ball_position;
    let ball_velocity = s.duel_match.physic_world.ball_velocity;
    let w0 = s.duel_match.physic_world;
    let w1 = if s.use_bot_right {
        PhysicWorld {
            input_right: bot_decision_spec(s.bot_right.side, snap, ball_position, ball_velocity),
            ..w0
        }
    } else {
        w0
    };
    let w2 = if s.use_bot_left {
        PhysicWorld {
            input_left: bot_decision_spec(s.bot_left.side, snap, ball_position, ball_velocity),
            ..w1
        }
    } else {
        w1
    };
    DuelMatch { physic_world: w2, ..s.duel_match }
}

/// The session around one local match: it owns the match, hands snapshots
/// to the bots of computer-controlled sides, collects the events of each
/// tick, and answers which sounds and transitions the tick asks for.
pub struct LocalGameState {
    pub duel_match: DuelMatch,
    pub frame_events: Vec<FrameEvent>,
    pub frame_number: usize,
    pub scoring: Scoring,
    pub bot_left: SimpleBot,
    pub bot_right: SimpleBot,
    pub use_bot_left: bool,
    pub use_bot_right: bool,
}

impl LocalGameState {
    /// Validity of the session: the match is valid and each bot is wired
    /// to the side it plays.
    pub open spec fn wf_spec(self) -> bool {
        &&& self.duel_match.wf_spec()
        &&& self.bot_left.side == PlayerSide::LeftPlayer
        &&& self.bot_right.side == PlayerSide::RightPlayer
    }

    pub fn new() -> (r: LocalGameState)
        ensures
            r.duel_match == DuelMatch::new_spec(),
            r.frame_events@ == Seq::<FrameEvent>::empty(),
            r.frame_number == 0,
            r.scoring == Scoring::initial_spec(),
            r.bot_left == (SimpleBot {
                side: PlayerSide::LeftPlayer,
                difficulty: 0,
                planned_input: PlayerInput::neutral_spec(),
            }),
            r.bot_right == (SimpleBot {
                side: PlayerSide::RightPlayer,
                difficulty: 0,
                planned_input: PlayerInput::neutral_spec(),
            }),
            !r.use_bot_left,
            !r.use_bot_right,
            r.wf_spec(),
    {
        LocalGameState {
            duel_match: DuelMatch::new(),
            frame_events: Vec::new(),
            frame_number: 0,
            scoring: Scoring::new(),
            bot_left: SimpleBot::new(PlayerSide::LeftPlayer, 0),
            bot_right: SimpleBot::new(PlayerSide::RightPlayer, 0),
            use_bot_right: false,
            use_bot_left: false,
        }
    }

    /// A wholesale restart: a fresh match, an empty event buffer, frame
    /// zero and a cold score cache. Bot wiring survives a reset.
    pub fn reset(&mut self)
        ensures
            final(self).duel_match == DuelMatch::new_spec(),
            final(self).frame_events@ == Seq::<FrameEvent>::empty(),
            final(self).frame_number == 0,
            final(self).scoring == Scoring::initial_spec(),
            final(self).bot_left == old(self).bot_left,
            final(self).bot_right == old(self).bot_right,
            final(self).use_bot_left == old(self).use_bot_left,
            final(self).use_bot_right == old(self).use_bot_right,
            old(self).wf_spec() ==> final(self).wf_spec(),
    {
        self.duel_match = DuelMatch::new();
        self.frame_events = Vec::new();
        self.frame_number = 0;
        self.scoring = Scoring::new();
    }

    /// Wires each side to a bot exactly when the menu put a computer on it.
    pub fn set_config(&mut self, config: GameConfiguration)
        ensures
            *final(self) == (LocalGameState {
                use_bot_left: config.player1_configuration == PlayerKind::Computer,
                use_bot_right: config.player2_configuration == PlayerKind::Computer,
                ..*old(self)
            }),
    {
        self.use_bot_left = matches!(config.player1_configuration, PlayerKind::Computer);
        self.use_bot_right = matches!(config.player2_configuration, PlayerKind::Computer);
    }

    /// One session tick: bot-controlled sides get a fresh snapshot and
    /// their computed inputs are written into the physics world before the
    /// match steps; the tick's events replace the event buffer; and the
    /// tick answers with the transition its events ask for.
    pub fn step(&mut self) -> (t: StateTransition)
        requires
            old(self).wf_spec(),
        ensures
            final(self).duel_match == tick_post_spec(match_with_bot_inputs_spec(*old(self))),
            final(self).frame_events@ == tick_events_spec(match_with_bot_inputs_spec(*old(self))),
            final(self).frame_number == bumped_spec(old(self).frame_number),
            final(self).scoring == old(self).scoring,
            final(self).use_bot_left == old(self).use_bot_left,
            final(self).use_bot_right == old(self).use_bot_right,
            final(self).bot_left == (if old(self).use_bot_left {
                SimpleBot { planned_input: PlayerInput::neutral_spec(), ..old(self).bot_left }
            } else {
                old(self).bot_left
            }),
            final(self).bot_right == (if old(self).use_bot_right {
                SimpleBot { planned_input: PlayerInput::neutral_spec(), ..old(self).bot_right }
            } else {
                old(self).bot_right
            }),
            final(self).wf_spec(),
            t == transition_spec(final(self).frame_events@),
    {
        let ghost s0 = *old(self);
        self.frame_events.clear();

        if self.use_bot_right {
            let bot_data = CurrentGameState {
                blob_positions: self.duel_match.physic_world.get_blob_positions(),
                blob_velocities: self.duel_match.physic_world.get_blob_velocities(),
                is_game_running: self.duel_match.physic_world.is_game_running(),
                is_ball_valid: self.duel_match.physic_world.is_ball_valid(),
                serving_player: self.duel_match.get_serving_player(),
            };

            self.bot_right.step(
                bot_data,
                self.duel_match.physic_world.get_ball_position(),
                self.duel_match.physic_world.get_ball_velocity(),
            );

            let planned = self.bot_right.compute_input();
            self.duel_match.physic_world.set_player_input(PlayerSide::RightPlayer, planned);

            self.bot_right.reset_input();
        }

        if self.use_bot_left {
            let bot_data = CurrentGameState {
                blob_positions: self.duel_match.physic_world.get_blob_positions(),
                blob_velocities: self.duel_match.physic_world.get_blob_velocities(),
                is_game_running: self.duel_match.physic_world.is_game_running(),
                is_ball_valid: self.duel_match.physic_world.is_ball_valid(),
                serving_player: self.duel_match.get_serving_player(),
            };

            self.bot_left.step(
                bot_data,
                self.duel_match.physic_world.get_ball_position(),
                self.duel_match.physic_world.get_ball_velocity(),
            );

            let planned = self.bot_left.compute_input();
            self.duel_match.physic_world.set_player_input(PlayerSide::LeftPlayer, planned);

            self.bot_left.reset_input();
        }

        assert(self.duel_match == match_with_bot_inputs_spec(s0));
        assert(self.duel_match.wf_spec());

        self.duel_match.step(&mut self.frame_events);

        if self.frame_number < usize::MAX {
            self.frame_number = self.frame_number + 1;
        }

        if contains_event(&self.frame_events, FrameEvent::EventWin(PlayerSide::LeftPlayer)) {
            StateTransition::WinStateTransition(PlayerSide::LeftPlayer)
        } else if contains_event(&self.frame_events, FrameEvent::EventWin(PlayerSide::RightPlayer)) {
            StateTransition::WinStateTransition(PlayerSide::RightPlayer)
        } else {
            StateTransition::NoTransition
        }
    }

    /// Whether this tick's events ask for the contact sound: some blobby
    /// hit of either side happened.
    pub fn blobby_hit_occurred(&self) -> (r: bool)
        ensures
            r == (self.frame_events@.contains(FrameEvent::EventBlobbyHit(PlayerSide::LeftPlayer))
                || self.frame_events@.contains(
                FrameEvent::EventBlobbyHit(PlayerSide::RightPlayer),
            )),
    {
        contains_event(&self.frame_events, FrameEvent::EventBlobbyHit(PlayerSide::LeftPlayer))
            || contains_event(
            &self.frame_events,
            FrameEvent::EventBlobbyHit(PlayerSide::RightPlayer),
        )
    }

    /// Whether this tick's events ask for the whistle: some side faulted.
    pub fn error_occurred(&self) -> (r: bool)
        ensures
            r == (self.frame_events@.contains(FrameEvent::EventError(PlayerSide::LeftPlayer))
                || self.frame_events@.contains(FrameEvent::EventError(PlayerSide::RightPlayer))),
    {
        contains_event(&self.frame_events, FrameEvent::EventError(PlayerSide::LeftPlayer))
            || contains_event(&self.frame_events, FrameEvent::EventError(PlayerSide::RightPlayer))
    }

    pub fn get_frame_number(&self) -> (r: usize)
        ensures
            r == self.frame_number,
    {
        self.frame_number
    }

    /// Applies one key event to the held inputs of both players and hands
    /// them to the physics world; a key event never asks for a transition.
    pub fn handle_event(&mut self, key: GameKey, state: KeyState) -> (t: StateTransition)
        ensures
            final(self).duel_match.physic_world == (PhysicWorld {
                input_left: inputs_after_key_spec(
                    old(self).duel_match.physic_world.input_left,
                    old(self).duel_match.physic_world.input_right,
                    key,
                    state,
                ).0,
                input_right: inputs_after_key_spec(
                    old(self).duel_match.physic_world.input_left,
                    old(self).duel_match.physic_world.input_right,
                    key,
                    state,
                ).1,
                ..old(self).duel_match.physic_world
            }),
            final(self).duel_match.game_logic == old(self).duel_match.game_logic,
            final(self).frame_events@ == old(self).frame_events@,
            final(self).frame_number == old(self).frame_number,
            final(self).scoring == old(self).scoring,
            final(self).bot_left == old(self).bot_left,
            final(self).bot_right == old(self).bot_right,
            final(self).use_bot_left == old(self).use_bot_left,
            final(self).use_bot_right == old(self).use_bot_right,
            old(self).wf_spec() ==> final(self).wf_spec(),
            t == StateTransition::NoTransition,
    {
        let player_left_input = self.duel_match.physic_world.get_player_input(
            PlayerSide::LeftPlayer,
        );
        let player_right_input = self.duel_match.physic_world.get_player_input(
            PlayerSide::RightPlayer,
        );

        let (player_left_input, player_right_input) = apply_key_event(
            player_left_input,
            player_right_input,
            key,
            state,
        );
        self.duel_match.physic_world.set_player_input(PlayerSide::LeftPlayer, player_left_input);
        self.duel_match.physic_world.set_player_input(PlayerSide::RightPlayer, player_right_input);

        StateTransition::NoTransition
    }
}

} // verus!
