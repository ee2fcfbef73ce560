use rusty_volley::duel_match::DuelMatch;
use rusty_volley::duel_match::FrameEvent;
use rusty_volley::game_logic::WIN_THRESHOLD;
use rusty_volley::global::PlayerSide;
use rusty_volley::physic_world::BLOB_GROUND_Y;
use rusty_volley::physic_world::BLOB_SPEED;
use rusty_volley::physic_world::LEFT_SERVE_X;
use rusty_volley::physic_world::RIGHT_SERVE_X;
use rusty_volley::physic_world::SERVE_HEIGHT_Y;
use rusty_volley::player_input::PlayerInput;
use rusty_volley::vector::Vector2f;
use rusty_volley::vector::half_toward_zero;
use rusty_volley::vector::sat_add;

fn step_quiet(m: &mut DuelMatch, ticks: usize) {
    for _ in 0..ticks {
        let mut events: Vec<FrameEvent> = Vec::new();
        m.step(&mut events);
        assert!(events.is_empty());
    }
}

#[test]
fn fresh_match_first_tick_is_quiet() {
    let mut m = DuelMatch::new();
    let mut events: Vec<FrameEvent> = Vec::new();
    m.step(&mut events);
    assert!(events.is_empty());
    assert_eq!(m.get_scores(), (0, 0));
    assert_eq!(m.get_serving_player(), PlayerSide::LeftPlayer);
}

#[test]
fn quiet_ticks_change_no_discrete_state() {
    let mut m = DuelMatch::new();
    let serving_before = m.get_serving_player();
    step_quiet(&mut m, 10);
    assert_eq!(m.get_scores(), (0, 0));
    assert_eq!(m.get_serving_player(), serving_before);
    assert!(m.get_world().is_ball_valid());
}

#[test]
fn left_ground_contact_scores_for_right() {
    let mut m = DuelMatch::new();
    m.get_world().ball_velocity = Vector2f::new(8, 6);
    m.get_world().record_ground_contact(PlayerSide::LeftPlayer);
    let mut events: Vec<FrameEvent> = Vec::new();
    m.step(&mut events);
    assert_eq!(
        events,
        vec![
            FrameEvent::EventBallHitGround(PlayerSide::LeftPlayer),
            FrameEvent::EventError(PlayerSide::LeftPlayer),
        ]
    );
    assert_eq!(m.get_scores(), (0, 1));
    assert_eq!(m.get_serving_player(), PlayerSide::RightPlayer);
    // a terminating ground contact suppresses the damping correction
    assert_eq!(m.get_world().ball_velocity, Vector2f::new(8, 6));
    assert!(!m.get_world().is_ball_valid());
}

#[test]
fn airborne_fault_damps_and_invalidates() {
    let mut m = DuelMatch::new();
    // three legal touches by the left blob, spaced past the squish window
    for _ in 0..3 {
        m.get_world().record_player_contact(PlayerSide::LeftPlayer);
        let mut events: Vec<FrameEvent> = Vec::new();
        m.step(&mut events);
        assert_eq!(events, vec![FrameEvent::EventBlobbyHit(PlayerSide::LeftPlayer)]);
        step_quiet(&mut m, 5);
    }
    // the fourth touch is a fault with the ball still airborne
    m.get_world().ball_velocity = Vector2f::new(8, 6);
    m.get_world().record_player_contact(PlayerSide::LeftPlayer);
    let mut events: Vec<FrameEvent> = Vec::new();
    m.step(&mut events);
    assert_eq!(events, vec![FrameEvent::EventError(PlayerSide::LeftPlayer)]);
    assert_eq!(m.get_world().ball_velocity, Vector2f::new(4, 3));
    assert!(!m.get_world().is_ball_valid());
    assert_eq!(m.get_scores(), (0, 1));
}

#[test]
fn squashed_contact_is_silently_dropped() {
    let mut m = DuelMatch::new();
    m.get_world().record_player_contact(PlayerSide::LeftPlayer);
    let mut events: Vec<FrameEvent> = Vec::new();
    m.step(&mut events);
    assert_eq!(events, vec![FrameEvent::EventBlobbyHit(PlayerSide::LeftPlayer)]);
    // an immediately renewed contact falls into the squish window
    let scores_before = m.get_scores();
    m.get_world().record_player_contact(PlayerSide::LeftPlayer);
    let mut events: Vec<FrameEvent> = Vec::new();
    m.step(&mut events);
    assert!(events.is_empty());
    assert_eq!(m.get_scores(), scores_before);
    assert!(m.get_world().is_ball_valid());
}

#[test]
fn dead_ball_settling_resets_round() {
    let mut m = DuelMatch::new();
    m.get_world().record_ground_contact(PlayerSide::LeftPlayer);
    let mut events: Vec<FrameEvent> = Vec::new();
    m.step(&mut events);
    assert!(!m.get_world().is_ball_valid());
    // the dead ball rests on the ground: the round finishes and resets
    m.get_world().record_ground_contact(PlayerSide::LeftPlayer);
    let mut events: Vec<FrameEvent> = Vec::new();
    m.step(&mut events);
    assert_eq!(events, vec![FrameEvent::EventReset]);
    assert!(m.get_world().is_ball_valid());
    // the new serve belongs to the scoring side
    assert_eq!(m.get_serving_player(), PlayerSide::RightPlayer);
    assert_eq!(m.get_ball_position(), Vector2f::new(RIGHT_SERVE_X, SERVE_HEIGHT_Y));
    assert_eq!(
        m.get_blob_position(PlayerSide::LeftPlayer),
        Vector2f::new(LEFT_SERVE_X, BLOB_GROUND_Y)
    );
    assert_eq!(
        m.get_blob_position(PlayerSide::RightPlayer),
        Vector2f::new(RIGHT_SERVE_X, BLOB_GROUND_Y)
    );
}

#[test]
fn win_exactly_at_threshold() {
    let mut m = DuelMatch::new();
    let rounds = WIN_THRESHOLD as usize;
    for round in 1..=rounds {
        m.get_world().record_ground_contact(PlayerSide::LeftPlayer);
        let mut events: Vec<FrameEvent> = Vec::new();
        m.step(&mut events);
        let expect_win = round == rounds;
        assert_eq!(
            events.contains(&FrameEvent::EventWin(PlayerSide::RightPlayer)),
            expect_win,
            "win event on round {round}"
        );
        assert!(!events.contains(&FrameEvent::EventWin(PlayerSide::LeftPlayer)));
        assert!(!events.contains(&FrameEvent::EventWin(PlayerSide::NoPlayer)));
        // let the dead ball settle so the next round starts cleanly
        m.get_world().record_ground_contact(PlayerSide::LeftPlayer);
        let mut events: Vec<FrameEvent> = Vec::new();
        m.step(&mut events);
        assert!(events.contains(&FrameEvent::EventReset));
        if expect_win {
            // a win may coincide with the reset of the final round
            assert_eq!(
                events,
                vec![FrameEvent::EventReset, FrameEvent::EventWin(PlayerSide::RightPlayer)]
            );
        }
    }
    assert_eq!(m.get_scores(), (0, WIN_THRESHOLD));
}

#[test]
fn scores_stop_moving_once_match_is_won() {
    let mut m = DuelMatch::new();
    for _ in 0..WIN_THRESHOLD {
        m.get_world().record_ground_contact(PlayerSide::LeftPlayer);
        let mut events: Vec<FrameEvent> = Vec::new();
        m.step(&mut events);
        m.get_world().record_ground_contact(PlayerSide::LeftPlayer);
        let mut events: Vec<FrameEvent> = Vec::new();
        m.step(&mut events);
    }
    assert_eq!(m.get_scores(), (0, WIN_THRESHOLD));
    // one more fault after the match is decided
    m.get_world().record_ground_contact(PlayerSide::LeftPlayer);
    let mut events: Vec<FrameEvent> = Vec::new();
    m.step(&mut events);
    assert_eq!(m.get_scores(), (0, WIN_THRESHOLD));
    assert!(events.contains(&FrameEvent::EventWin(PlayerSide::RightPlayer)));
}

#[test]
fn blob_follows_held_input() {
    let mut m = DuelMatch::new();
    m.get_world().set_player_input(
        PlayerSide::LeftPlayer,
        PlayerInput { left: false, right: true, up: false },
    );
    let mut events: Vec<FrameEvent> = Vec::new();
    m.step(&mut events);
    assert_eq!(
        m.get_blob_position(PlayerSide::LeftPlayer),
        Vector2f::new(LEFT_SERVE_X + BLOB_SPEED, BLOB_GROUND_Y)
    );
    assert_eq!(m.get_world().blob_left.velocity.x, BLOB_SPEED);
}

#[test]
fn both_player_contacts_fire_independently() {
    let mut m = DuelMatch::new();
    m.get_world().record_player_contact(PlayerSide::LeftPlayer);
    m.get_world().record_player_contact(PlayerSide::RightPlayer);
    let mut events: Vec<FrameEvent> = Vec::new();
    m.step(&mut events);
    assert_eq!(
        events,
        vec![
            FrameEvent::EventBlobbyHit(PlayerSide::LeftPlayer),
            FrameEvent::EventBlobbyHit(PlayerSide::RightPlayer),
        ]
    );
    assert_eq!(m.get_scores(), (0, 0));
}

#[test]
fn both_ground_contacts_fire_independently() {
    let mut m = DuelMatch::new();
    m.get_world().record_ground_contact(PlayerSide::LeftPlayer);
    m.get_world().record_ground_contact(PlayerSide::RightPlayer);
    let mut events: Vec<FrameEvent> = Vec::new();
    m.step(&mut events);
    // both ground events are emitted, left before right; the fault read at
    // the end of the tick is the one registered last
    assert_eq!(
        events,
        vec![
            FrameEvent::EventBallHitGround(PlayerSide::LeftPlayer),
            FrameEvent::EventBallHitGround(PlayerSide::RightPlayer),
            FrameEvent::EventError(PlayerSide::RightPlayer),
        ]
    );
    assert_eq!(m.get_scores(), (1, 1));
}

#[test]
fn blob_position_of_no_player_is_origin() {
    let m = DuelMatch::new();
    assert_eq!(m.get_blob_position(PlayerSide::NoPlayer), Vector2f::new(0, 0));
}

#[test]
fn opponent_of_each_side() {
    assert_eq!(PlayerSide::LeftPlayer.opponent(), PlayerSide::RightPlayer);
    assert_eq!(PlayerSide::RightPlayer.opponent(), PlayerSide::LeftPlayer);
    assert_eq!(PlayerSide::NoPlayer.opponent(), PlayerSide::NoPlayer);
}

#[test]
fn saturating_addition_clamps() {
    assert_eq!(sat_add(i64::MAX, 5), i64::MAX);
    assert_eq!(sat_add(i64::MIN, -5), i64::MIN);
    assert_eq!(sat_add(40, 2), 42);
    assert_eq!(sat_add(-40, 2), -38);
}

#[test]
fn halving_rounds_toward_zero() {
    assert_eq!(half_toward_zero(9), 4);
    assert_eq!(half_toward_zero(-7), -3);
    assert_eq!(half_toward_zero(0), 0);
    assert_eq!(half_toward_zero(1), 0);
    assert_eq!(half_toward_zero(-1), 0);
}
