//! Decision logic of the creature AI state machines.
//!
//! A hostile creature patrols around its home, grows alert when it sees a
//! target, chases it, attacks it in reach, and returns home when it strays
//! too far or loses the target. A passive creature idles, wanders and flees.
//! Positions and timers are measured by the caller; what it observes is
//! handed in as plain facts, and the decision says which state comes next,
//! how to move, and which of the creature's memories to update.

use vstd::prelude::*;
use crate::creatures::{HostileState, PassiveState};

verus! {

/// What a hostile creature observes in one tick.
#[derive(Clone, Copy, Debug, PartialEq, Eq, Structural)]
pub struct HostileSenses {
    /// A potential target exists this tick.
    pub target_present: bool,
    /// The target is in line of sight.
    pub target_visible: bool,
    /// The target is within detection range.
    pub target_detectable: bool,
    /// The target is within attack range.
    pub target_in_reach: bool,
    /// The creature has strayed beyond the chase distance from home.
    pub too_far_from_home: bool,
    /// The target has been out of sight for longer than the alert duration.
    pub lost_too_long: bool,
    /// The attack cooldown has run out.
    pub cooldown_ready: bool,
    /// The state timer has run out.
    pub timer_expired: bool,
    /// A last known target position was remembered before this tick.
    pub had_last_known: bool,
    /// The last known target position is more than two blocks away (in the
    /// horizontal plane). When the target is visible this is measured to the
    /// target itself, which becomes the last known position.
    pub last_known_far: bool,
    /// The creature has a patrol point.
    pub has_patrol_point: bool,
    /// The current patrol point is within one block (horizontally).
    pub patrol_point_reached: bool,
    /// A freshly picked patrol point would be within one block (horizontally).
    pub fresh_patrol_point_reached: bool,
    /// Home is within two blocks (horizontally).
    pub near_home: bool,
}

/// Movement and facing that a hostile creature produces in one tick.
#[derive(Clone, Copy, Debug, PartialEq, Eq, Structural)]
pub enum HostileMotion {
    /// Stand still, face nowhere.
    Still,
    /// Stand still, face the target (horizontally).
    FaceTarget,
    /// Stand still, face the target directly, to strike it.
    Strike,
    /// Walk toward the target.
    ToTarget,
    /// Walk toward home.
    ToHome,
    /// Walk toward the last known target position.
    ToLastKnown,
    /// Creep at half speed toward the last known position, facing it.
    CreepToLastKnown,
    /// Walk toward the patrol point.
    ToPatrolPoint,
}

/// What happens to the remembered last known target position.
#[derive(Clone, Copy, Debug, PartialEq, Eq, Structural)]
pub enum Memory {
    /// Leave it as it is.
    Keep,
    /// Replace it with the target's current position.
    Remember,
    /// Forget it.
    Forget,
}

/// What happens to the patrol point.
#[derive(Clone, Copy, Debug, PartialEq, Eq, Structural)]
pub enum PatrolPoint {
    /// Leave it as it is.
    Keep,
    /// Pick a fresh one around home.
    Pick,
    /// Drop it.
    Clear,
}

/// What happens to the state timer of a hostile creature.
#[derive(Clone, Copy, Debug, PartialEq, Eq, Structural)]
pub enum HostileTimer {
    /// Leave it as it is.
    Keep,
    /// Set it to the alert duration.
    Alert,
    /// Set it to the length of one patrol leg.
    PatrolLeg,
    /// Set it to a pause at a reached patrol point (two to five seconds).
    PatrolPause,
    /// Set it to a pause on arriving home (up to three seconds).
    HomePause,
}

/// The outcome of one tick of the hostile state machine.
#[derive(Clone, Copy, Debug, PartialEq, Eq, Structural)]
pub struct HostileDecision {
    /// The state after this tick.
    pub next_state: HostileState,
    /// How to move and face.
    pub motion: HostileMotion,
    /// Whether to strike this tick.
    pub should_attack: bool,
    /// Whether the attack cooldown starts over.
    pub start_cooldown: bool,
    /// The last known target position.
    pub memory: Memory,
    /// The patrol point.
    pub patrol_point: PatrolPoint,
    /// The state timer.
    pub timer: HostileTimer,
}

/// Facts that cannot occur together: seeing a target requires one, and a
/// target in sight has not been lost.
pub open spec fn senses_consistent(s: HostileSenses) -> bool {
    &&& s.target_visible ==> s.target_present
    &&& s.target_visible ==> !s.lost_too_long
}

/// A decision that only changes state and motion.
pub open spec fn plain(next_state: HostileState, motion: HostileMotion) -> HostileDecision {
    HostileDecision {
        next_state,
        motion,
        should_attack: false,
        start_cooldown: false,
        memory: Memory::Keep,
        patrol_point: PatrolPoint::Keep,
        timer: HostileTimer::Keep,
    }
}

/// In reach of a target: strike if the cooldown allows.
pub open spec fn strike(s: HostileSenses) -> HostileDecision {
    HostileDecision {
        next_state: HostileState::Attack,
        motion: HostileMotion::Strike,
        should_attack: s.cooldown_ready,
        start_cooldown: s.cooldown_ready,
        memory: Memory::Keep,
        patrol_point: PatrolPoint::Keep,
        timer: HostileTimer::Keep,
    }
}

/// Patrol: grow alert on sight of a target, otherwise walk between patrol
/// points around home, pausing at each.
pub open spec fn patrol_step(s: HostileSenses) -> HostileDecision {
    if s.target_visible {
        HostileDecision { timer: HostileTimer::Alert, ..plain(HostileState::Alert, HostileMotion::FaceTarget) }
    } else if !s.has_patrol_point || s.timer_expired {
        if s.fresh_patrol_point_reached {
            HostileDecision {
                patrol_point: PatrolPoint::Clear,
                timer: HostileTimer::PatrolPause,
                ..plain(HostileState::Patrol, HostileMotion::Still)
            }
        } else {
            HostileDecision {
                patrol_point: PatrolPoint::Pick,
                timer: HostileTimer::PatrolLeg,
                ..plain(HostileState::Patrol, HostileMotion::ToPatrolPoint)
            }
        }
    } else if s.patrol_point_reached {
        HostileDecision {
            patrol_point: PatrolPoint::Clear,
            timer: HostileTimer::PatrolPause,
            ..plain(HostileState::Patrol, HostileMotion::Still)
        }
    } else {
        plain(HostileState::Patrol, HostileMotion::ToPatrolPoint)
    }
}

/// Alert: chase a visible target in detection range; otherwise creep toward
/// the last known position, and give up once the target is lost too long.
pub open spec fn alert_step(s: HostileSenses) -> HostileDecision {
    let has_last_known = s.target_visible || s.had_last_known;
    if s.target_visible && s.target_present && s.target_detectable {
        plain(HostileState::Chase, HostileMotion::ToTarget)
    } else if has_last_known && s.last_known_far {
        plain(HostileState::Alert, HostileMotion::CreepToLastKnown)
    } else if s.lost_too_long {
        HostileDecision { memory: Memory::Forget, ..plain(HostileState::Patrol, HostileMotion::Still) }
    } else {
        plain(HostileState::Alert, HostileMotion::Still)
    }
}

/// Chase: head home when too far from it or when the target is lost too
/// long; follow the target (or its last known position); strike in reach.
pub open spec fn chase_step(s: HostileSenses) -> HostileDecision {
    let has_last_known = s.target_visible || s.had_last_known;
    if s.too_far_from_home {
        plain(HostileState::Returning, HostileMotion::ToHome)
    } else if !s.target_visible && s.lost_too_long {
        plain(HostileState::Returning, HostileMotion::ToHome)
    } else if !s.target_visible && has_last_known {
        plain(HostileState::Chase, HostileMotion::ToLastKnown)
    } else if s.target_present {
        if s.target_in_reach {
            strike(s)
        } else {
            plain(HostileState::Chase, HostileMotion::ToTarget)
        }
    } else {
        plain(HostileState::Chase, HostileMotion::Still)
    }
}

/// Attack: strike while the target stays in reach, chase it when it leaves
/// reach, grow alert when it is gone.
pub open spec fn attack_step(s: HostileSenses) -> HostileDecision {
    if s.target_present {
        if !s.target_in_reach {
            plain(HostileState::Chase, HostileMotion::ToTarget)
        } else {
            strike(s)
        }
    } else if !s.target_visible {
        HostileDecision { timer: HostileTimer::Alert, ..plain(HostileState::Alert, HostileMotion::Still) }
    } else {
        plain(HostileState::Attack, HostileMotion::Still)
    }
}

/// Returning: re-engage a visible target unless too far from home; resume
/// the patrol on arrival; otherwise keep walking home.
pub open spec fn returning_step(s: HostileSenses) -> HostileDecision {
    if s.target_visible && s.target_present && !s.too_far_from_home {
        plain(HostileState::Chase, HostileMotion::ToTarget)
    } else if s.near_home {
        HostileDecision {
            patrol_point: PatrolPoint::Clear,
            timer: HostileTimer::HomePause,
            ..plain(HostileState::Patrol, HostileMotion::Still)
        }
    } else {
        plain(HostileState::Returning, HostileMotion::ToHome)
    }
}

/// One tick of the hostile state machine. A visible target always becomes
/// the last known position, unless the tick forgets it.
pub open spec fn spec_hostile_step(state: HostileState, s: HostileSenses) -> HostileDecision {
    let d = match state {
        HostileState::Patrol => patrol_step(s),
        HostileState::Alert => alert_step(s),
        HostileState::Chase => chase_step(s),
        HostileState::Attack => attack_step(s),
        HostileState::Returning => returning_step(s),
    };
    if d.memory == Memory::Keep && s.target_visible {
        HostileDecision { memory: Memory::Remember, ..d }
    } else {
        d
    }
}

fn decision(next_state: HostileState, motion: HostileMotion) -> (d: HostileDecision)
    ensures
        d == plain(next_state, motion),
{
    HostileDecision {
        next_state,
        motion,
        should_attack: false,
        start_cooldown: false,
        memory: Memory::Keep,
        patrol_point: PatrolPoint::Keep,
        timer: HostileTimer::Keep,
    }
}

fn strike_decision(s: HostileSenses) -> (d: HostileDecision)
    ensures
        d == strike(s),
{
    HostileDecision {
        next_state: HostileState::Attack,
        motion: HostileMotion::Strike,
        should_attack: s.cooldown_ready,
        start_cooldown: s.cooldown_ready,
        memory: Memory::Keep,
        patrol_point: PatrolPoint::Keep,
        timer: HostileTimer::Keep,
    }
}

fn update_patrol(s: HostileSenses) -> (d: HostileDecision)
    ensures
        d == patrol_step(s),
{
    if s.target_visible {
        let mut d = decision(HostileState::Alert, HostileMotion::FaceTarget);
        d.timer = HostileTimer::Alert;
        return d;
    }
    let mut d = decision(HostileState::Patrol, HostileMotion::ToPatrolPoint);
    let mut reached = s.patrol_point_reached;
    if !s.has_patrol_point || s.timer_expired {
        d.patrol_point = PatrolPoint::Pick;
        d.timer = HostileTimer::PatrolLeg;
        reached = s.fresh_patrol_point_reached;
    }
    if reached {
        d.motion = HostileMotion::Still;
        d.patrol_point = PatrolPoint::Clear;
        d.timer = HostileTimer::PatrolPause;
    }
    d
}

fn update_alert(s: HostileSenses) -> (d: HostileDecision)
    ensures
        d == alert_step(s),
{
    if s.target_visible && s.target_present && s.target_detectable {
        return decision(HostileState::Chase, HostileMotion::ToTarget);
    }
    let has_last_known = s.target_visible || s.had_last_known;
    if has_last_known && s.last_known_far {
        return decision(HostileState::Alert, HostileMotion::CreepToLastKnown);
    }
    if s.lost_too_long {
        let mut d = decision(HostileState::Patrol, HostileMotion::Still);
        d.memory = Memory::Forget;
        return d;
    }
    decision(HostileState::Alert, HostileMotion::Still)
}

fn update_chase(s: HostileSenses) -> (d: HostileDecision)
    ensures
        d == chase_step(s),
{
    if s.too_far_from_home {
        return decision(HostileState::Returning, HostileMotion::ToHome);
    }
    if !s.target_visible {
        if s.lost_too_long {
            return decision(HostileState::Returning, HostileMotion::ToHome);
        }
        if s.had_last_known {
            return decision(HostileState::Chase, HostileMotion::ToLastKnown);
        }
    }
    if s.target_present {
        if s.target_in_reach {
            return strike_decision(s);
        }
        return decision(HostileState::Chase, HostileMotion::ToTarget);
    }
    decision(HostileState::Chase, HostileMotion::Still)
}

fn update_attack(s: HostileSenses) -> (d: HostileDecision)
    ensures
        d == attack_step(s),
{
    if s.target_present {
        if !s.target_in_reach {
            return decision(HostileState::Chase, HostileMotion::ToTarget);
        }
        return strike_decision(s);
    }
    if !s.target_visible {
        let mut d = decision(HostileState::Alert, HostileMotion::Still);
        d.timer = HostileTimer::Alert;
        return d;
    }
    decision(HostileState::Attack, HostileMotion::Still)
}

fn update_returning(s: HostileSenses) -> (d: HostileDecision)
    ensures
        d == returning_step(s),
{
    if s.target_visible && s.target_present && !s.too_far_from_home {
        return decision(HostileState::Chase, HostileMotion::ToTarget);
    }
    if s.near_home {
        let mut d = decision(HostileState::Patrol, HostileMotion::Still);
        d.patrol_point = PatrolPoint::Clear;
        d.timer = HostileTimer::HomePause;
        return d;
    }
    decision(HostileState::Returning, HostileMotion::ToHome)
}

/// Run one tick of the hostile state machine from `state` on what the
/// creature observes.
pub fn hostile_step(state: HostileState, senses: HostileSenses) -> (d: HostileDecision)
    ensures
        d == spec_hostile_step(state, senses),
{
    let mut d = match state {
        HostileState::Patrol => update_patrol(senses),
        HostileState::Alert => update_alert(senses),
        HostileState::Chase => update_chase(senses),
        HostileState::Attack => update_attack(senses),
        HostileState::Returning => update_returning(senses),
    };
    if d.memory == Memory::Keep && senses.target_visible {
        d.memory = Memory::Remember;
    }
    d
}

/// A creature strikes only from the attack state, only at a target in
/// reach, and only when its cooldown has run out; every strike restarts the
/// cooldown.
pub proof fn lemma_strike_only_in_reach(state: HostileState, s: HostileSenses)
    ensures
        spec_hostile_step(state, s).should_attack ==> {
            &&& spec_hostile_step(state, s).next_state == HostileState::Attack
            &&& s.target_present
            &&& s.target_in_reach
            &&& s.cooldown_ready
            &&& spec_hostile_step(state, s).start_cooldown
        },
        spec_hostile_step(state, s).start_cooldown ==> spec_hostile_step(state, s).should_attack,
{
}

/// The attack state is entered or kept only with a target in reach, and a
/// creature never moves while striking.
pub proof fn lemma_attack_needs_reach(state: HostileState, s: HostileSenses)
    requires
        senses_consistent(s),
    ensures
        spec_hostile_step(state, s).next_state == HostileState::Attack ==> s.target_present && s.target_in_reach,
        spec_hostile_step(state, s).next_state == HostileState::Attack
            ==> spec_hostile_step(state, s).motion == HostileMotion::Strike,
{
}

/// A patrolling creature stays on patrol unless it sees a target, and then
/// it only grows alert: it never jumps straight to a chase or an attack.
pub proof fn lemma_patrol_escalates_gradually(s: HostileSenses)
    ensures
        spec_hostile_step(HostileState::Patrol, s).next_state == (if s.target_visible {
            HostileState::Alert
        } else {
            HostileState::Patrol
        }),
{
}

/// A chasing creature that has strayed too far from home always turns back,
/// and a returning creature re-engages only while close enough to home.
pub proof fn lemma_leash(state: HostileState, s: HostileSenses)
    requires
        s.too_far_from_home,
    ensures
        state == HostileState::Chase ==> spec_hostile_step(state, s).next_state == HostileState::Returning
            && spec_hostile_step(state, s).motion == HostileMotion::ToHome,
        state == HostileState::Returning ==> spec_hostile_step(state, s).next_state != HostileState::Chase,
{
}

/// A creature that is chasing or attacking a target in sight, without having
/// strayed too far from home, keeps after it: while the target is out of
/// reach it runs toward it (and an attacking creature goes back to the
/// chase), and once the target is in reach it strikes from the attack state.
pub proof fn lemma_pursuit_closes_in(state: HostileState, s: HostileSenses)
    requires
        state == HostileState::Chase || state == HostileState::Attack,
        s.target_present,
        s.target_visible,
        !s.too_far_from_home,
    ensures
        !s.target_in_reach ==> spec_hostile_step(state, s).next_state == HostileState::Chase
            && spec_hostile_step(state, s).motion == HostileMotion::ToTarget,
        s.target_in_reach ==> spec_hostile_step(state, s).next_state == HostileState::Attack
            && spec_hostile_step(state, s).motion == HostileMotion::Strike,
{
}

/// Movement or facing toward the target happens only when there is one.
pub proof fn lemma_target_motion_needs_target(state: HostileState, s: HostileSenses)
    requires
        senses_consistent(s),
    ensures
        ({
            let m = spec_hostile_step(state, s).motion;
            m == HostileMotion::ToTarget || m == HostileMotion::FaceTarget || m == HostileMotion::Strike
        }) ==> s.target_present,
{
}

/// A visible target is always remembered as the last known position.
pub proof fn lemma_visible_target_remembered(state: HostileState, s: HostileSenses)
    requires
        senses_consistent(s),
        s.target_visible,
    ensures
        spec_hostile_step(state, s).memory == Memory::Remember,
{
}

/// What a passive creature observes in one tick.
#[derive(Clone, Copy, Debug, PartialEq, Eq, Structural)]
pub struct PassiveSenses {
    /// The state timer has run out.
    pub timer_expired: bool,
    /// The creature has a target position.
    pub has_target: bool,
    /// The target position is within reach threshold.
    pub target_reached: bool,
}

/// What happens to the target position of a passive creature.
#[derive(Clone, Copy, Debug, PartialEq, Eq, Structural)]
pub enum PassiveTarget {
    /// Leave it as it is.
    Keep,
    /// Pick a random wander target near the current position.
    PickWander,
    /// Drop it.
    Clear,
}

/// What happens to the state timer of a passive creature.
#[derive(Clone, Copy, Debug, PartialEq, Eq, Structural)]
pub enum PassiveTimer {
    /// Leave it as it is.
    Keep,
    /// Set it to the maximum wander time.
    Wander,
    /// Set it to an idle time drawn from the random value.
    Idle,
}

/// The outcome of one tick of the passive state machine.
#[derive(Clone, Copy, Debug, PartialEq, Eq, Structural)]
pub struct PassiveDecision {
    /// The state after this tick.
    pub next_state: PassiveState,
    /// Whether to move toward the target (in the horizontal plane).
    pub move_to_target: bool,
    /// The target position.
    pub target: PassiveTarget,
    /// The state timer.
    pub timer: PassiveTimer,
    /// Whether the remembered threat is forgotten.
    pub forget_threat: bool,
}

/// One tick of the passive state machine.
pub open spec fn spec_passive_step(state: PassiveState, s: PassiveSenses) -> PassiveDecision {
    let stay = PassiveDecision {
        next_state: state,
        move_to_target: false,
        target: PassiveTarget::Keep,
        timer: PassiveTimer::Keep,
        forget_threat: false,
    };
    match state {
        PassiveState::Idle => if s.timer_expired {
            PassiveDecision {
                next_state: PassiveState::Wandering,
                target: PassiveTarget::PickWander,
                timer: PassiveTimer::Wander,
                ..stay
            }
        } else {
            stay
        },
        _ => if !s.has_target {
            PassiveDecision { next_state: PassiveState::Idle, timer: PassiveTimer::Idle, ..stay }
        } else if s.target_reached || s.timer_expired {
            PassiveDecision {
                next_state: PassiveState::Idle,
                target: PassiveTarget::Clear,
                timer: PassiveTimer::Idle,
                forget_threat: state == PassiveState::Fleeing,
                ..stay
            }
        } else {
            PassiveDecision { move_to_target: true, ..stay }
        },
    }
}

/// Run one tick of the passive state machine from `state` on what the
/// creature observes.
pub fn passive_step(state: PassiveState, senses: PassiveSenses) -> (d: PassiveDecision)
    ensures
        d == spec_passive_step(state, senses),
{
    let mut d = PassiveDecision {
        next_state: state,
        move_to_target: false,
        target: PassiveTarget::Keep,
        timer: PassiveTimer::Keep,
        forget_threat: false,
    };
    match state {
        PassiveState::Idle => {
            if senses.timer_expired {
                d.next_state = PassiveState::Wandering;
                d.target = PassiveTarget::PickWander;
                d.timer = PassiveTimer::Wander;
            }
        },
        PassiveState::Wandering | PassiveState::Fleeing => {
            if senses.has_target {
                if senses.target_reached || senses.timer_expired {
                    d.next_state = PassiveState::Idle;
                    d.target = PassiveTarget::Clear;
                    d.timer = PassiveTimer::Idle;
                    d.forget_threat = state == PassiveState::Fleeing;
                } else {
                    d.move_to_target = true;
                }
            } else {
                d.next_state = PassiveState::Idle;
                d.timer = PassiveTimer::Idle;
            }
        },
    }
    d
}

/// A passive creature moves only toward a target it has, only while
/// wandering or fleeing, and keeps its state while it moves; an idle creature
/// never moves and only ever starts to wander.
pub proof fn lemma_passive_motion(state: PassiveState, s: PassiveSenses)
    ensures
        spec_passive_step(state, s).move_to_target ==> s.has_target && state != PassiveState::Idle
            && spec_passive_step(state, s).next_state == state,
        state == PassiveState::Idle ==> !spec_passive_step(state, s).move_to_target
            && spec_passive_step(state, s).next_state != PassiveState::Fleeing,
{
}

/// A wandering or fleeing creature that has a target it has not reached,
/// and time left, moves toward that target and keeps its state; in every
/// other case it does not move.
pub proof fn lemma_moves_while_on_a_trip(state: PassiveState, s: PassiveSenses)
    ensures
        spec_passive_step(state, s).move_to_target <==> (state != PassiveState::Idle && s.has_target
            && !s.target_reached && !s.timer_expired),
        (state != PassiveState::Idle && s.has_target && !s.target_reached && !s.timer_expired)
            ==> spec_passive_step(state, s).next_state == state,
{
}

/// Every trip ends in idleness: a wandering or fleeing creature whose timer
/// ran out or that reached its target goes idle and drops its target, and a
/// creature never starts fleeing on its own.
pub proof fn lemma_trips_end_idle(state: PassiveState, s: PassiveSenses)
    ensures
        state != PassiveState::Idle && (s.timer_expired || s.target_reached || !s.has_target)
            ==> spec_passive_step(state, s).next_state == PassiveState::Idle,
        state != PassiveState::Fleeing ==> spec_passive_step(state, s).next_state != PassiveState::Fleeing,
{
}

} // verus!
