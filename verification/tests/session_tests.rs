use rusty_volley::duel_match::FrameEvent;
use rusty_volley::game_logic::WIN_THRESHOLD;
use rusty_volley::global::PlayerSide;
use rusty_volley::local_game_state::GameConfiguration;
use rusty_volley::local_game_state::GameKey;
use rusty_volley::local_game_state::KeyState;
use rusty_volley::local_game_state::LocalGameState;
use rusty_volley::local_game_state::PlayerKind;
use rusty_volley::local_game_state::Scoring;
use rusty_volley::local_game_state::StateTransition;
use rusty_volley::player_input::PlayerInput;
use rusty_volley::vector::Vector2f;

#[test]
fn session_first_tick_is_quiet() {
    let mut s = LocalGameState::new();
    assert_eq!(s.get_frame_number(), 0);
    let t = s.step();
    assert_eq!(t, StateTransition::NoTransition);
    assert!(s.frame_events.is_empty());
    assert!(!s.blobby_hit_occurred());
    assert!(!s.error_occurred());
    assert_eq!(s.get_frame_number(), 1);
}

#[test]
fn set_config_wires_bots() {
    let mut s = LocalGameState::new();
    s.set_config(GameConfiguration {
        player1_configuration: PlayerKind::Human,
        player2_configuration: PlayerKind::Computer,
    });
    assert!(!s.use_bot_left);
    assert!(s.use_bot_right);
    s.set_config(GameConfiguration {
        player1_configuration: PlayerKind::Computer,
        player2_configuration: PlayerKind::Human,
    });
    assert!(s.use_bot_left);
    assert!(!s.use_bot_right);
}

#[test]
fn bot_input_reaches_physics_unchanged() {
    let mut s = LocalGameState::new();
    s.set_config(GameConfiguration {
        player1_configuration: PlayerKind::Human,
        player2_configuration: PlayerKind::Computer,
    });
    // the ball sits left of the right blob and does not fall, so the
    // bot's decision for this snapshot is: move left, no jump
    let expected = PlayerInput { left: true, right: false, up: false };
    let t = s.step();
    assert_eq!(t, StateTransition::NoTransition);
    let used = s.duel_match.get_world().get_player_input(PlayerSide::RightPlayer);
    assert_eq!(used, expected);
    // the physics tick consumed exactly that input
    let blob_x = s.duel_match.get_blob_position(PlayerSide::RightPlayer).x;
    assert_eq!(blob_x, 600 - 5);
    // the bot's per-tick scratch is cleared after the input was read
    assert_eq!(s.bot_right.planned_input, PlayerInput::new());
}

#[test]
fn stale_bot_input_is_overwritten() {
    let mut s = LocalGameState::new();
    s.set_config(GameConfiguration {
        player1_configuration: PlayerKind::Human,
        player2_configuration: PlayerKind::Computer,
    });
    // a stale intent held in the physics world before the tick
    s.duel_match.get_world().set_player_input(
        PlayerSide::RightPlayer,
        PlayerInput { left: false, right: true, up: true },
    );
    s.step();
    let used = s.duel_match.get_world().get_player_input(PlayerSide::RightPlayer);
    assert_eq!(used, PlayerInput { left: true, right: false, up: false });
}

#[test]
fn win_transition_on_deciding_tick() {
    let mut s = LocalGameState::new();
    s.duel_match.game_logic.score_right = WIN_THRESHOLD - 1;
    s.duel_match.get_world().record_ground_contact(PlayerSide::LeftPlayer);
    let t = s.step();
    assert_eq!(t, StateTransition::WinStateTransition(PlayerSide::RightPlayer));
    assert!(s.frame_events.contains(&FrameEvent::EventWin(PlayerSide::RightPlayer)));
    assert!(s.error_occurred());
    assert!(!s.blobby_hit_occurred());
}

#[test]
fn hit_sound_flag_follows_events() {
    let mut s = LocalGameState::new();
    s.duel_match.get_world().record_player_contact(PlayerSide::LeftPlayer);
    let t = s.step();
    assert_eq!(t, StateTransition::NoTransition);
    assert!(s.blobby_hit_occurred());
    assert!(!s.error_occurred());
}

#[test]
fn key_events_drive_held_inputs() {
    let mut s = LocalGameState::new();
    let t = s.handle_event(GameKey::W, KeyState::Pressed);
    assert_eq!(t, StateTransition::NoTransition);
    s.handle_event(GameKey::D, KeyState::Pressed);
    s.handle_event(GameKey::ArrowLeft, KeyState::Pressed);
    let left = s.duel_match.get_world().get_player_input(PlayerSide::LeftPlayer);
    let right = s.duel_match.get_world().get_player_input(PlayerSide::RightPlayer);
    assert_eq!(left, PlayerInput { left: false, right: true, up: true });
    assert_eq!(right, PlayerInput { left: true, right: false, up: false });
    s.handle_event(GameKey::W, KeyState::Released);
    let left = s.duel_match.get_world().get_player_input(PlayerSide::LeftPlayer);
    assert_eq!(left, PlayerInput { left: false, right: true, up: false });
    // held states and unknown keys leave the intents alone
    s.handle_event(GameKey::W, KeyState::Held);
    s.handle_event(GameKey::Other, KeyState::Pressed);
    let left = s.duel_match.get_world().get_player_input(PlayerSide::LeftPlayer);
    assert_eq!(left, PlayerInput { left: false, right: true, up: false });
}

#[test]
fn reset_restores_fresh_session() {
    let mut s = LocalGameState::new();
    s.set_config(GameConfiguration {
        player1_configuration: PlayerKind::Computer,
        player2_configuration: PlayerKind::Computer,
    });
    for _ in 0..4 {
        s.step();
    }
    s.duel_match.get_world().record_ground_contact(PlayerSide::LeftPlayer);
    s.step();
    assert_ne!(s.get_frame_number(), 0);
    s.reset();
    assert_eq!(s.get_frame_number(), 0);
    assert!(s.frame_events.is_empty());
    assert_eq!(s.duel_match.get_scores(), (0, 0));
    assert_eq!(s.scoring, Scoring::new());
    // bot wiring survives a reset
    assert!(s.use_bot_left);
    assert!(s.use_bot_right);
}

#[test]
fn score_cache_invalidates_on_change() {
    let mut scoring = Scoring::new();
    // a cold cache always renders
    assert!(scoring.should_recreate_textures(0, 0));
    scoring.on_textures_rendered(0, 0);
    assert!(!scoring.should_recreate_textures(0, 0));
    // either score changing invalidates it
    assert!(scoring.should_recreate_textures(1, 0));
    assert!(scoring.should_recreate_textures(0, 2));
    scoring.on_textures_rendered(1, 0);
    assert!(!scoring.should_recreate_textures(1, 0));
}

#[test]
fn snapshot_sees_current_world() {
    let mut s = LocalGameState::new();
    s.set_config(GameConfiguration {
        player1_configuration: PlayerKind::Human,
        player2_configuration: PlayerKind::Computer,
    });
    // move the ball right of the right blob: the bot must chase rightward
    s.duel_match.get_world().ball_position = Vector2f::new(700, 150);
    s.step();
    let used = s.duel_match.get_world().get_player_input(PlayerSide::RightPlayer);
    assert_eq!(used, PlayerInput { left: false, right: true, up: false });
}
