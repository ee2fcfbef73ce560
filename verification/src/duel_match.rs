use vstd::prelude::*;
use crate::game_logic::GameLogic;
use crate::global::PlayerSide;
use crate::physic_world::ContactSet;
use crate::physic_world::PhysicWorld;
use crate::vector::Vector2f;

verus! {

/// One semantic game event, produced at most once per qualifying condition
/// per tick and consumed by the session layer in emission order.
#[derive(Clone, Copy, Debug, PartialEq, Eq, Structural)]
pub enum FrameEvent {
    EventBlobbyHit(PlayerSide),
    EventBallHitGround(PlayerSide),
    EventError(PlayerSide),
    EventWin(PlayerSide),
    EventReset,
}

/// The match controller: exclusive owner of one physics world and one rule
/// engine, which it advances in lockstep one fixed tick at a time, emitting
/// the events of the tick in a fixed order.
#[derive(Clone, Copy, Debug, PartialEq, Eq, Structural)]
pub struct DuelMatch {
    pub game_logic: GameLogic,
    pub physic_world: PhysicWorld,
}

/// How often `target` occurs in `s`.
pub open spec fn count_events_spec(s: Seq<FrameEvent>, target: FrameEvent) -> int
    decreases s.len(),
{
    if s.len() == 0 {
        0
    } else {
        count_events_spec(s.drop_last(), target) + if s.last() == target {
            1int
        } else {
            0int
        }
    }
}

pub proof fn lemma_count_events_add(a: Seq<FrameEvent>, b: Seq<FrameEvent>, target: FrameEvent)
    ensures
        count_events_spec(a + b, target) == count_events_spec(a, target) + count_events_spec(
            b,
            target,
        ),
    decreases b.len(),
{
    if b.len() == 0 {
        assert(a + b =~= a);
    } else {
        lemma_count_events_add(a, b.drop_last(), target);
        assert((a + b).drop_last() =~= a + b.drop_last());
        assert((a + b).last() == b.last());
    }
}

pub proof fn lemma_count_events_singleton(ev: FrameEvent, target: FrameEvent)
    ensures
        count_events_spec(seq![ev], target) == if ev == target {
            1int
        } else {
            0int
        },
{
    let s = seq![ev];
    assert(s.len() == 1);
    assert(s.last() == ev);
    assert(s.drop_last() =~= Seq::<FrameEvent>::empty());
    assert(count_events_spec(Seq::<FrameEvent>::empty(), target) == 0);
}

// The stages of one tick, in the exact order the controller performs them.
// Each stage is named so the contracts and the laws below can speak of the
// state of the match in the middle of a tick.
/// Stage one: the physics world after its fixed tick.
pub open spec fn world_after_physics_spec(m: DuelMatch) -> PhysicWorld {
    m.physic_world.stepped_spec()
}

/// Stage two: the rule engine after its fixed tick.
pub open spec fn logic_after_rules_step_spec(m: DuelMatch) -> GameLogic {
    m.game_logic.stepped_spec()
}

/// Stage three, left half: the rule engine after a reported left-player
/// contact, if there was one.
pub open spec fn logic_after_left_hit_spec(m: DuelMatch) -> GameLogic {
    if world_after_physics_spec(m).current.left_player {
        logic_after_rules_step_spec(m).player_hit_spec(PlayerSide::LeftPlayer)
    } else {
        logic_after_rules_step_spec(m)
    }
}

/// The event of a legal left-player touch.
pub open spec fn left_hit_event_spec(m: DuelMatch) -> Seq<FrameEvent> {
    if world_after_physics_spec(m).current.left_player && logic_after_rules_step_spec(
        m,
    ).hit_valid_spec(PlayerSide::LeftPlayer) {
        seq![FrameEvent::EventBlobbyHit(PlayerSide::LeftPlayer)]
    } else {
        Seq::empty()
    }
}

/// Stage three, right half: the rule engine after a reported right-player
/// contact, if there was one.
pub open spec fn logic_after_right_hit_spec(m: DuelMatch) -> GameLogic {
    if world_after_physics_spec(m).current.right_player {
        logic_after_left_hit_spec(m).player_hit_spec(PlayerSide::RightPlayer)
    } else {
        logic_after_left_hit_spec(m)
    }
}

/// The event of a legal right-player touch.
pub open spec fn right_hit_event_spec(m: DuelMatch) -> Seq<FrameEvent> {
    if world_after_physics_spec(m).current.right_player && logic_after_left_hit_spec(
        m,
    ).hit_valid_spec(PlayerSide::RightPlayer) {
        seq![FrameEvent::EventBlobbyHit(PlayerSide::RightPlayer)]
    } else {
        Seq::empty()
    }
}

/// Stage four, left half: the rule engine after a left-ground contact.
pub open spec fn logic_after_left_ground_spec(m: DuelMatch) -> GameLogic {
    if world_after_physics_spec(m).current.left_ground {
        logic_after_right_hit_spec(m).ground_hit_spec(PlayerSide::LeftPlayer)
    } else {
        logic_after_right_hit_spec(m)
    }
}

pub open spec fn left_ground_event_spec(m: DuelMatch) -> Seq<FrameEvent> {
    if world_after_physics_spec(m).current.left_ground {
        seq![FrameEvent::EventBallHitGround(PlayerSide::LeftPlayer)]
    } else {
        Seq::empty()
    }
}

/// Stage four, right half: the rule engine after all contacts of the tick.
pub open spec fn logic_after_contacts_spec(m: DuelMatch) -> GameLogic {
    if world_after_physics_spec(m).current.right_ground {
        logic_after_left_ground_spec(m).ground_hit_spec(PlayerSide::RightPlayer)
    } else {
        logic_after_left_ground_spec(m)
    }
}

pub open spec fn right_ground_event_spec(m: DuelMatch) -> Seq<FrameEvent> {
    if world_after_physics_spec(m).current.right_ground {
        seq![FrameEvent::EventBallHitGround(PlayerSide::RightPlayer)]
    } else {
        Seq::empty()
    }
}

/// Whether the ball touched either ground half this tick; a ground contact
/// suppresses the damping correction of a fault.
pub open spec fn ground_hit_this_tick_spec(m: DuelMatch) -> bool {
    world_after_physics_spec(m).current.left_ground || world_after_physics_spec(
        m,
    ).current.right_ground
}

/// The fault side of the tick, as the controller reads it at stage five.
pub open spec fn error_side_spec(m: DuelMatch) -> PlayerSide {
    logic_after_contacts_spec(m).last_error
}

/// The rule engine at the end of the tick: the pending fault has been read
/// and cleared.
pub open spec fn logic_final_spec(m: DuelMatch) -> GameLogic {
    logic_after_contacts_spec(m).error_cleared_spec()
}

pub open spec fn error_event_spec(m: DuelMatch) -> Seq<FrameEvent> {
    if error_side_spec(m).is_player() {
        seq![FrameEvent::EventError(error_side_spec(m))]
    } else {
        Seq::empty()
    }
}

/// Stage five: on a fault the ball is marked invalid, and its velocity is
/// damped first unless a ground contact already terminated the rally.
pub open spec fn world_after_fault_spec(m: DuelMatch) -> PhysicWorld {
    let w = world_after_physics_spec(m);
    if error_side_spec(m).is_player() {
        let damped = if !ground_hit_this_tick_spec(m) {
            PhysicWorld { ball_velocity: w.ball_velocity.halved_spec(), ..w }
        } else {
            w
        };
        PhysicWorld { ball_valid: false, ..damped }
    } else {
        w
    }
}

/// Whether the round-finished predicate holds at stage six of this tick.
pub open spec fn round_finished_this_tick_spec(m: DuelMatch) -> bool {
    world_after_fault_spec(m).round_finished_spec()
}

pub open spec fn reset_event_spec(m: DuelMatch) -> Seq<FrameEvent> {
    if round_finished_this_tick_spec(m) {
        seq![FrameEvent::EventReset]
    } else {
        Seq::empty()
    }
}

/// Stage six: a finished round resets the physics world for the side that
/// now serves; the rule engine rotated the serve when the fault was
/// registered.
pub open spec fn world_final_spec(m: DuelMatch) -> PhysicWorld {
    if round_finished_this_tick_spec(m) {
        world_after_fault_spec(m).reset_spec(logic_final_spec(m).serving)
    } else {
        world_after_fault_spec(m)
    }
}

/// Stage seven: a decided match announces its winner, every tick, whether
/// or not the round was reset this tick.
pub open spec fn win_event_spec(m: DuelMatch) -> Seq<FrameEvent> {
    if logic_final_spec(m).winner.is_player() {
        seq![FrameEvent::EventWin(logic_final_spec(m).winner)]
    } else {
        Seq::empty()
    }
}

/// The events of the contact stages, in emission order.
pub open spec fn contact_events_spec(m: DuelMatch) -> Seq<FrameEvent> {
    left_hit_event_spec(m) + right_hit_event_spec(m) + left_ground_event_spec(m)
        + right_ground_event_spec(m)
}

/// The events of the verdict stages, in emission order.
pub open spec fn verdict_events_spec(m: DuelMatch) -> Seq<FrameEvent> {
    error_event_spec(m) + reset_event_spec(m) + win_event_spec(m)
}

/// The complete ordered event list of one tick.
pub open spec fn tick_events_spec(m: DuelMatch) -> Seq<FrameEvent> {
    contact_events_spec(m) + verdict_events_spec(m)
}

/// The match at the end of one tick.
pub open spec fn tick_post_spec(m: DuelMatch) -> DuelMatch {
    DuelMatch { game_logic: logic_final_spec(m), physic_world: world_final_spec(m) }
}

/// One tick of a valid match yields a valid match.
pub proof fn lemma_tick_preserves_wf(m: DuelMatch)
    requires
        m.wf_spec(),
    ensures
        tick_post_spec(m).wf_spec(),
{
}

/// How often `target` occurs in a tick's event list, segment by segment:
/// each stage contributes its event exactly when its condition held.
pub proof fn lemma_count_tick_events(m: DuelMatch, target: FrameEvent)
    ensures
        count_events_spec(left_hit_event_spec(m), target) == if world_after_physics_spec(
            m,
        ).current.left_player && logic_after_rules_step_spec(m).hit_valid_spec(
            PlayerSide::LeftPlayer,
        ) && target == FrameEvent::EventBlobbyHit(PlayerSide::LeftPlayer) {
            1int
        } else {
            0int
        },
        count_events_spec(right_hit_event_spec(m), target) == if world_after_physics_spec(
            m,
        ).current.right_player && logic_after_left_hit_spec(m).hit_valid_spec(
            PlayerSide::RightPlayer,
        ) && target == FrameEvent::EventBlobbyHit(PlayerSide::RightPlayer) {
            1int
        } else {
            0int
        },
        count_events_spec(left_ground_event_spec(m), target) == if world_after_physics_spec(
            m,
        ).current.left_ground && target == FrameEvent::EventBallHitGround(PlayerSide::LeftPlayer) {
            1int
        } else {
            0int
        },
        count_events_spec(right_ground_event_spec(m), target) == if world_after_physics_spec(
            m,
        ).current.right_ground && target == FrameEvent::EventBallHitGround(
            PlayerSide::RightPlayer,
        ) {
            1int
        } else {
            0int
        },
        count_events_spec(error_event_spec(m), target) == if error_side_spec(m).is_player()
            && target == FrameEvent::EventError(error_side_spec(m)) {
            1int
        } else {
            0int
        },
        count_events_spec(reset_event_spec(m), target) == if round_finished_this_tick_spec(m)
            && target == FrameEvent::EventReset {
            1int
        } else {
            0int
        },
        count_events_spec(win_event_spec(m), target) == if logic_final_spec(m).winner.is_player()
            && target == FrameEvent::EventWin(logic_final_spec(m).winner) {
            1int
        } else {
            0int
        },
        count_events_spec(tick_events_spec(m), target) == count_events_spec(
            left_hit_event_spec(m),
            target,
        ) + count_events_spec(right_hit_event_spec(m), target) + count_events_spec(
            left_ground_event_spec(m),
            target,
        ) + count_events_spec(right_ground_event_spec(m), target) + count_events_spec(
            error_event_spec(m),
            target,
        ) + count_events_spec(reset_event_spec(m), target) + count_events_spec(
            win_event_spec(m),
            target,
        ),
{
    lemma_count_events_singleton(FrameEvent::EventBlobbyHit(PlayerSide::LeftPlayer), target);
    lemma_count_events_singleton(FrameEvent::EventBlobbyHit(PlayerSide::RightPlayer), target);
    lemma_count_events_singleton(FrameEvent::EventBallHitGround(PlayerSide::LeftPlayer), target);
    lemma_count_events_singleton(FrameEvent::EventBallHitGround(PlayerSide::RightPlayer), target);
    lemma_count_events_singleton(FrameEvent::EventError(error_side_spec(m)), target);
    lemma_count_events_singleton(FrameEvent::EventReset, target);
    lemma_count_events_singleton(FrameEvent::EventWin(logic_final_spec(m).winner), target);
    lemma_count_events_add(left_hit_event_spec(m), right_hit_event_spec(m), target);
    lemma_count_events_add(
        left_hit_event_spec(m) + right_hit_event_spec(m),
        left_ground_event_spec(m),
        target,
    );
    lemma_count_events_add(
        left_hit_event_spec(m) + right_hit_event_spec(m) + left_ground_event_spec(m),
        right_ground_event_spec(m),
        target,
    );
    lemma_count_events_add(error_event_spec(m), reset_event_spec(m), target);
    lemma_count_events_add(
        error_event_spec(m) + reset_event_spec(m),
        win_event_spec(m),
        target,
    );
    lemma_count_events_add(contact_events_spec(m), verdict_events_spec(m), target);
}

/// Exactly one `EventReset` is emitted in a tick iff the round-finished
/// predicate held at stage six of that tick; a reset is followed, in the
/// same tick, by a physics reset to the side that now serves, and without
/// one the physics state of the tick stands.
pub proof fn lemma_reset_iff_round_finished(m: DuelMatch)
    ensures
        count_events_spec(tick_events_spec(m), FrameEvent::EventReset)
            == if round_finished_this_tick_spec(m) {
            1int
        } else {
            0int
        },
        round_finished_this_tick_spec(m) ==> tick_post_spec(m).physic_world
            == world_after_fault_spec(m).reset_spec(tick_post_spec(m).game_logic.serving),
        !round_finished_this_tick_spec(m) ==> tick_post_spec(m).physic_world
            == world_after_fault_spec(m),
{
    lemma_count_tick_events(m, FrameEvent::EventReset);
}

/// A win is announced for a real side only, exactly once per tick once the
/// match is decided — also in a tick that emits a reset.
pub proof fn lemma_win_only_for_real_player(m: DuelMatch)
    ensures
        count_events_spec(tick_events_spec(m), FrameEvent::EventWin(PlayerSide::NoPlayer)) == 0,
        count_events_spec(tick_events_spec(m), FrameEvent::EventWin(PlayerSide::LeftPlayer))
            == if logic_final_spec(m).winner == PlayerSide::LeftPlayer {
            1int
        } else {
            0int
        },
        count_events_spec(tick_events_spec(m), FrameEvent::EventWin(PlayerSide::RightPlayer))
            == if logic_final_spec(m).winner == PlayerSide::RightPlayer {
            1int
        } else {
            0int
        },
{
    lemma_count_tick_events(m, FrameEvent::EventWin(PlayerSide::NoPlayer));
    lemma_count_tick_events(m, FrameEvent::EventWin(PlayerSide::LeftPlayer));
    lemma_count_tick_events(m, FrameEvent::EventWin(PlayerSide::RightPlayer));
}

/// `EventError(side)` is emitted exactly for the fault side of the tick,
/// and it coincides with the ball being marked invalid by the end of the
/// tick: a fault never meets the round-finished predicate in its own tick,
/// so no reset restores validity the same tick. If ground was not touched
/// this tick, the velocity the ball keeps is the damped one.
pub proof fn lemma_error_invalidates_ball(m: DuelMatch)
    requires
        m.wf_spec(),
    ensures
        count_events_spec(tick_events_spec(m), FrameEvent::EventError(PlayerSide::LeftPlayer))
            == if error_side_spec(m) == PlayerSide::LeftPlayer {
            1int
        } else {
            0int
        },
        count_events_spec(tick_events_spec(m), FrameEvent::EventError(PlayerSide::RightPlayer))
            == if error_side_spec(m) == PlayerSide::RightPlayer {
            1int
        } else {
            0int
        },
        error_side_spec(m).is_player() ==> !round_finished_this_tick_spec(m),
        error_side_spec(m).is_player() ==> !tick_post_spec(m).physic_world.ball_valid,
        error_side_spec(m).is_player() && !ground_hit_this_tick_spec(m) ==> tick_post_spec(
            m,
        ).physic_world.ball_velocity == world_after_physics_spec(m).ball_velocity.halved_spec(),
{
    lemma_count_tick_events(m, FrameEvent::EventError(PlayerSide::LeftPlayer));
    lemma_count_tick_events(m, FrameEvent::EventError(PlayerSide::RightPlayer));
    if error_side_spec(m).is_player() {
        if !m.physic_world.ball_valid {
            // a dead ball reports no contacts, so the only possible fault
            // would be a stale one, which validity of the match excludes
            assert(world_after_physics_spec(m).current == ContactSet::none_spec());
            assert(logic_after_contacts_spec(m).last_error == m.game_logic.last_error);
            assert(false);
        }
        assert(!world_after_physics_spec(m).ball_down);
    }
}

/// `EventBlobbyHit(side)` is emitted exactly when the ball touched that
/// blob this tick and the rule engine's validity check accepted the touch,
/// judged in the rule state at which that contact arrived.
pub proof fn lemma_hit_events_require_validity(m: DuelMatch)
    ensures
        count_events_spec(tick_events_spec(m), FrameEvent::EventBlobbyHit(PlayerSide::LeftPlayer))
            == if world_after_physics_spec(m).current.left_player && logic_after_rules_step_spec(
            m,
        ).hit_valid_spec(PlayerSide::LeftPlayer) {
            1int
        } else {
            0int
        },
        count_events_spec(tick_events_spec(m), FrameEvent::EventBlobbyHit(PlayerSide::RightPlayer))
            == if world_after_physics_spec(m).current.right_player && logic_after_left_hit_spec(
            m,
        ).hit_valid_spec(PlayerSide::RightPlayer) {
            1int
        } else {
            0int
        },
        count_events_spec(tick_events_spec(m), FrameEvent::EventBlobbyHit(PlayerSide::NoPlayer))
            == 0,
{
    lemma_count_tick_events(m, FrameEvent::EventBlobbyHit(PlayerSide::LeftPlayer));
    lemma_count_tick_events(m, FrameEvent::EventBlobbyHit(PlayerSide::RightPlayer));
    lemma_count_tick_events(m, FrameEvent::EventBlobbyHit(PlayerSide::NoPlayer));
}

/// A squashed contact — one that arrives while the squish timer of that
/// blob still runs — is silently dropped: no event is emitted and the rule
/// state does not change at all. (A touch past the touch limit also yields
/// no hit event, but it registers a fault, which does move score and
/// serve.)
pub proof fn lemma_squashed_contact_changes_nothing(m: DuelMatch)
    ensures
        world_after_physics_spec(m).current.left_player && logic_after_rules_step_spec(
            m,
        ).squish_of_spec(PlayerSide::LeftPlayer) > 0 ==> logic_after_left_hit_spec(m)
            == logic_after_rules_step_spec(m) && left_hit_event_spec(m)
            == Seq::<FrameEvent>::empty(),
        world_after_physics_spec(m).current.right_player && logic_after_left_hit_spec(
            m,
        ).squish_of_spec(PlayerSide::RightPlayer) > 0 ==> logic_after_right_hit_spec(m)
            == logic_after_left_hit_spec(m) && right_hit_event_spec(m)
            == Seq::<FrameEvent>::empty(),
{
}

/// A tick with no reported contacts, no pending fault, no pending round
/// end and no decided winner emits no events and leaves every discrete
/// score, serve, touch and winner value unchanged; only the continuous
/// motion and the squish timers advance.
pub proof fn lemma_quiet_tick(m: DuelMatch)
    requires
        m.wf_spec(),
        m.physic_world.pending == ContactSet::none_spec(),
        m.game_logic.last_error == PlayerSide::NoPlayer,
        m.game_logic.winner == PlayerSide::NoPlayer,
        !m.physic_world.round_finished_spec(),
    ensures
        tick_events_spec(m) == Seq::<FrameEvent>::empty(),
        tick_post_spec(m).physic_world == m.physic_world.stepped_spec(),
        tick_post_spec(m).game_logic == m.game_logic.stepped_spec(),
        tick_post_spec(m).game_logic.score_left == m.game_logic.score_left,
        tick_post_spec(m).game_logic.score_right == m.game_logic.score_right,
        tick_post_spec(m).game_logic.serving == m.game_logic.serving,
        tick_post_spec(m).game_logic.winner == m.game_logic.winner,
        tick_post_spec(m).game_logic.touches_left == m.game_logic.touches_left,
        tick_post_spec(m).game_logic.touches_right == m.game_logic.touches_right,
        tick_post_spec(m).game_logic.last_error == PlayerSide::NoPlayer,
{
    assert(tick_events_spec(m) =~= Seq::<FrameEvent>::empty());
}

impl DuelMatch {
    /// Validity of a match: both collaborators are valid, and a dead ball
    /// never coexists with an unread fault (the controller reads the fault
    /// in the same tick in which it invalidates the ball).
    pub open spec fn wf_spec(self) -> bool {
        &&& self.physic_world.wf_spec()
        &&& self.game_logic.wf_spec()
        &&& (!self.physic_world.ball_valid ==> self.game_logic.last_error == PlayerSide::NoPlayer)
    }

    /// A fresh match: rule engine in its initial state, physics already
    /// advanced one tick from centered rest positions, so the first real
    /// `step` does not operate on an uninitialized world.
    pub open spec fn new_spec() -> DuelMatch {
        DuelMatch {
            game_logic: GameLogic::initial_spec(),
            physic_world: PhysicWorld::initial_spec().stepped_spec(),
        }
    }

    pub fn new() -> (r: DuelMatch)
        ensures
            r == DuelMatch::new_spec(),
            r.wf_spec(),
    {
        let mut physic_world = PhysicWorld::new();

        physic_world.reset_player();
        physic_world.step();

        DuelMatch { physic_world, game_logic: GameLogic::new() }
    }

    /// Advances the match by exactly one fixed tick and appends the
    /// complete, ordered list of the tick's events.
    pub fn step(&mut self, events: &mut Vec<FrameEvent>)
        requires
            old(self).wf_spec(),
        ensures
            *final(self) == tick_post_spec(*old(self)),
            final(self).wf_spec(),
            final(events)@ == old(events)@ + tick_events_spec(*old(self)),
    {
        let ghost m0 = *old(self);
        self.physic_world.step();
        self.game_logic.step();

        let has_ball_hit_ground = self.step_contacts(events, Ghost(m0));
        self.step_verdicts(events, has_ball_hit_ground, Ghost(m0));

        proof {
            lemma_tick_preserves_wf(m0);
            assert(events@ =~= old(events)@ + tick_events_spec(m0));
        }
    }

    /// Stages three and four: reported player and ground contacts go to the
    /// rule engine and their events are emitted, left before right.
    fn step_contacts(
        &mut self,
        events: &mut Vec<FrameEvent>,
        Ghost(m0): Ghost<DuelMatch>,
    ) -> (has_ball_hit_ground: bool)
        requires
            m0.wf_spec(),
            old(self).physic_world == world_after_physics_spec(m0),
            old(self).game_logic == logic_after_rules_step_spec(m0),
        ensures
            final(self).physic_world == old(self).physic_world,
            final(self).game_logic == logic_after_contacts_spec(m0),
            has_ball_hit_ground == ground_hit_this_tick_spec(m0),
            final(events)@ == old(events)@ + contact_events_spec(m0),
    {
        let mut has_ball_hit_ground = false;

        if self.physic_world.ball_hit_left_player() {
            let valid_hit = self.game_logic.on_ball_hits_player(PlayerSide::LeftPlayer);
            if valid_hit {
                events.push(FrameEvent::EventBlobbyHit(PlayerSide::LeftPlayer));
            }
        }
        assert(self.game_logic == logic_after_left_hit_spec(m0));
        assert(events@ =~= old(events)@ + left_hit_event_spec(m0));

        if self.physic_world.ball_hit_right_player() {
            let valid_hit = self.game_logic.on_ball_hits_player(PlayerSide::RightPlayer);
            if valid_hit {
                events.push(FrameEvent::EventBlobbyHit(PlayerSide::RightPlayer));
            }
        }
        assert(self.game_logic == logic_after_right_hit_spec(m0));
        assert(events@ =~= old(events)@ + left_hit_event_spec(m0) + right_hit_event_spec(m0));

        if self.physic_world.ball_hit_left_ground() {
            has_ball_hit_ground = true;
            self.game_logic.on_ball_hits_ground(PlayerSide::LeftPlayer);
            events.push(FrameEvent::EventBallHitGround(PlayerSide::LeftPlayer));
        }

        if self.physic_world.ball_hit_right_ground() {
            has_ball_hit_ground = true;
            events.push(FrameEvent::EventBallHitGround(PlayerSide::RightPlayer));
            self.game_logic.on_ball_hits_ground(PlayerSide::RightPlayer);
        }
        assert(self.game_logic == logic_after_contacts_spec(m0));
        assert(events@ =~= old(events)@ + contact_events_spec(m0));

        has_ball_hit_ground
    }

    /// Stages five to seven: the fault verdict invalidates the ball (with a
    /// damping correction unless ground was hit), a finished round resets
    /// the physics, and a decided match announces its winner.
    fn step_verdicts(
        &mut self,
        events: &mut Vec<FrameEvent>,
        has_ball_hit_ground: bool,
        Ghost(m0): Ghost<DuelMatch>,
    )
        requires
            old(self).physic_world == world_after_physics_spec(m0),
            old(self).game_logic == logic_after_contacts_spec(m0),
            has_ball_hit_ground == ground_hit_this_tick_spec(m0),
        ensures
            final(self).game_logic == logic_final_spec(m0),
            final(self).physic_world == world_final_spec(m0),
            final(events)@ == old(events)@ + verdict_events_spec(m0),
    {
        let last_error = self.game_logic.get_last_error_side();

        match last_error {
            PlayerSide::NoPlayer => (),
            _ => {
                if !has_ball_hit_ground {
                    self.physic_world.damp_ball();
                }
                events.push(FrameEvent::EventError(last_error));
                self.physic_world.set_ball_validity(false);
            },
        }
        assert(self.game_logic == logic_final_spec(m0));
        assert(self.physic_world == world_after_fault_spec(m0));
        assert(events@ =~= old(events)@ + error_event_spec(m0));

        if self.physic_world.is_round_finished() {
            events.push(FrameEvent::EventReset);
            let serving = self.game_logic.get_serving_player();
            self.physic_world.reset(serving);
        }
        assert(self.physic_world == world_final_spec(m0));

        let winning_player = self.game_logic.get_winning_player();

        match winning_player {
            PlayerSide::NoPlayer => (),
            _ => {
                events.push(FrameEvent::EventWin(winning_player));
            },
        }
        assert(events@ =~= old(events)@ + verdict_events_spec(m0));
    }

    /// The physics world, for the session layer to feed inputs and for the
    /// collision detection of the integrator to record contacts.
    pub fn get_world(&mut self) -> (r: &mut PhysicWorld)
        ensures
            *r == old(self).physic_world,
            *final(self) == (DuelMatch { physic_world: *final(r), ..*old(self) }),
    {
        &mut self.physic_world
    }

    pub fn get_serving_player(&self) -> (r: PlayerSide)
        ensures
            r == self.game_logic.serving,
    {
        self.game_logic.get_serving_player()
    }

    pub fn get_ball_position(&self) -> (r: Vector2f)
        ensures
            r == self.physic_world.ball_position,
    {
        self.physic_world.get_ball_position()
    }

    /// Position of the given player's blob; the sentinel has no blob and
    /// reads as the origin.
    pub fn get_blob_position(&self, player: PlayerSide) -> (r: Vector2f)
        ensures
            r == (if player == PlayerSide::LeftPlayer {
                self.physic_world.blob_left.position
            } else if player == PlayerSide::RightPlayer {
                self.physic_world.blob_right.position
            } else {
                Vector2f::new_spec(0, 0)
            }),
    {
        if player == PlayerSide::LeftPlayer {
            return self.physic_world.get_blob(PlayerSide::LeftPlayer);
        } else if player == PlayerSide::RightPlayer {
            return self.physic_world.get_blob(PlayerSide::RightPlayer);
        } else {
            return Vector2f::new(0, 0);
        }
    }

    pub fn get_scores(&self) -> (r: (i32, i32))
        ensures
            r == (self.game_logic.score_left, self.game_logic.score_right),
    {
        self.game_logic.get_scores()
    }
}

} // verus!
