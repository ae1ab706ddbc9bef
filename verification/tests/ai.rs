use hollow_earth::ai::{
    hostile_step, passive_step, HostileMotion, HostileSenses, HostileTimer, Memory,
    PassiveSenses, PassiveTarget, PassiveTimer, PatrolPoint,
};
use hollow_earth::creatures::{HostileState, PassiveState};

fn quiet() -> HostileSenses {
    HostileSenses {
        target_present: false,
        target_visible: false,
        target_detectable: false,
        target_in_reach: false,
        too_far_from_home: false,
        lost_too_long: false,
        cooldown_ready: true,
        timer_expired: false,
        had_last_known: false,
        last_known_far: false,
        has_patrol_point: true,
        patrol_point_reached: false,
        fresh_patrol_point_reached: false,
        near_home: false,
    }
}

/// A target ten blocks away on open ground: visible and detectable, out of reach.
fn target_at_ten() -> HostileSenses {
    HostileSenses {
        target_present: true,
        target_visible: true,
        target_detectable: true,
        last_known_far: true,
        ..quiet()
    }
}

/// A target one block away.
fn target_in_reach() -> HostileSenses {
    HostileSenses { target_in_reach: true, last_known_far: false, ..target_at_ten() }
}

#[test]
fn patrol_grows_alert_on_sight() {
    let d = hostile_step(HostileState::Patrol, target_at_ten());
    assert_eq!(d.next_state, HostileState::Alert);
    assert_eq!(d.motion, HostileMotion::FaceTarget);
    assert_eq!(d.timer, HostileTimer::Alert);
    assert_eq!(d.memory, Memory::Remember);
    assert!(!d.should_attack);
}

#[test]
fn alert_turns_into_chase() {
    let d = hostile_step(HostileState::Alert, target_at_ten());
    assert_eq!(d.next_state, HostileState::Chase);
    assert_eq!(d.motion, HostileMotion::ToTarget);
}

#[test]
fn chase_turns_into_attack_in_reach() {
    let d = hostile_step(HostileState::Chase, target_in_reach());
    assert_eq!(d.next_state, HostileState::Attack);
    assert_eq!(d.motion, HostileMotion::Strike);
    assert!(d.should_attack);
    assert!(d.start_cooldown);
}

#[test]
fn attack_waits_for_cooldown() {
    let d = hostile_step(HostileState::Attack, target_in_reach());
    assert!(d.should_attack && d.start_cooldown);
    let cooling = HostileSenses { cooldown_ready: false, ..target_in_reach() };
    let d2 = hostile_step(HostileState::Attack, cooling);
    assert_eq!(d2.next_state, HostileState::Attack);
    assert!(!d2.should_attack && !d2.start_cooldown);
}

#[test]
fn chase_gives_up_far_from_home() {
    let s = HostileSenses { too_far_from_home: true, ..target_at_ten() };
    let d = hostile_step(HostileState::Chase, s);
    assert_eq!(d.next_state, HostileState::Returning);
    assert_eq!(d.motion, HostileMotion::ToHome);
}

#[test]
fn returning_resumes_patrol_at_home() {
    let s = HostileSenses { near_home: true, ..quiet() };
    let d = hostile_step(HostileState::Returning, s);
    assert_eq!(d.next_state, HostileState::Patrol);
    assert_eq!(d.patrol_point, PatrolPoint::Clear);
    assert_eq!(d.timer, HostileTimer::HomePause);
    assert_eq!(d.motion, HostileMotion::Still);
}

#[test]
fn returning_reengages_only_near_home() {
    let d = hostile_step(HostileState::Returning, target_at_ten());
    assert_eq!(d.next_state, HostileState::Chase);
    let s = HostileSenses { too_far_from_home: true, ..target_at_ten() };
    let d2 = hostile_step(HostileState::Returning, s);
    assert_eq!(d2.next_state, HostileState::Returning);
    assert_eq!(d2.motion, HostileMotion::ToHome);
}

#[test]
fn attack_loses_target_and_grows_alert() {
    let d = hostile_step(HostileState::Attack, quiet());
    assert_eq!(d.next_state, HostileState::Alert);
    assert_eq!(d.timer, HostileTimer::Alert);
    let fled = HostileSenses { target_in_reach: false, ..target_at_ten() };
    let d2 = hostile_step(HostileState::Attack, fled);
    assert_eq!(d2.next_state, HostileState::Chase);
    assert_eq!(d2.motion, HostileMotion::ToTarget);
}

#[test]
fn alert_creeps_then_forgets() {
    let s = HostileSenses { had_last_known: true, last_known_far: true, ..quiet() };
    let d = hostile_step(HostileState::Alert, s);
    assert_eq!(d.next_state, HostileState::Alert);
    assert_eq!(d.motion, HostileMotion::CreepToLastKnown);
    let lost = HostileSenses { had_last_known: true, lost_too_long: true, ..quiet() };
    let d2 = hostile_step(HostileState::Alert, lost);
    assert_eq!(d2.next_state, HostileState::Patrol);
    assert_eq!(d2.memory, Memory::Forget);
}

#[test]
fn chase_follows_last_known_position_out_of_sight() {
    let s = HostileSenses { had_last_known: true, ..quiet() };
    let d = hostile_step(HostileState::Chase, s);
    assert_eq!(d.next_state, HostileState::Chase);
    assert_eq!(d.motion, HostileMotion::ToLastKnown);
    let lost = HostileSenses { lost_too_long: true, had_last_known: true, ..quiet() };
    assert_eq!(hostile_step(HostileState::Chase, lost).next_state, HostileState::Returning);
}

#[test]
fn patrol_picks_points_and_pauses() {
    let start = HostileSenses { has_patrol_point: false, ..quiet() };
    let d = hostile_step(HostileState::Patrol, start);
    assert_eq!(d.patrol_point, PatrolPoint::Pick);
    assert_eq!(d.timer, HostileTimer::PatrolLeg);
    assert_eq!(d.motion, HostileMotion::ToPatrolPoint);
    let arrived = HostileSenses { patrol_point_reached: true, ..quiet() };
    let d2 = hostile_step(HostileState::Patrol, arrived);
    assert_eq!(d2.patrol_point, PatrolPoint::Clear);
    assert_eq!(d2.timer, HostileTimer::PatrolPause);
    assert_eq!(d2.motion, HostileMotion::Still);
    let walking = hostile_step(HostileState::Patrol, quiet());
    assert_eq!(walking.motion, HostileMotion::ToPatrolPoint);
    assert_eq!(walking.patrol_point, PatrolPoint::Keep);
    let expired_close = HostileSenses { timer_expired: true, fresh_patrol_point_reached: true, ..quiet() };
    let d3 = hostile_step(HostileState::Patrol, expired_close);
    assert_eq!(d3.patrol_point, PatrolPoint::Clear);
    assert_eq!(d3.timer, HostileTimer::PatrolPause);
}

#[test]
fn passive_idle_starts_wandering_when_timer_runs_out() {
    let s = PassiveSenses { timer_expired: true, has_target: false, target_reached: false };
    let d = passive_step(PassiveState::Idle, s);
    assert_eq!(d.next_state, PassiveState::Wandering);
    assert_eq!(d.target, PassiveTarget::PickWander);
    assert_eq!(d.timer, PassiveTimer::Wander);
    assert!(!d.move_to_target);
    let waiting = passive_step(PassiveState::Idle, PassiveSenses { timer_expired: false, ..s });
    assert_eq!(waiting.next_state, PassiveState::Idle);
    assert!(!waiting.move_to_target);
}

#[test]
fn passive_wanders_until_target_reached() {
    let s = PassiveSenses { timer_expired: false, has_target: true, target_reached: false };
    let d = passive_step(PassiveState::Wandering, s);
    assert_eq!(d.next_state, PassiveState::Wandering);
    assert!(d.move_to_target);
    let reached = passive_step(PassiveState::Wandering, PassiveSenses { target_reached: true, ..s });
    assert_eq!(reached.next_state, PassiveState::Idle);
    assert_eq!(reached.target, PassiveTarget::Clear);
    assert_eq!(reached.timer, PassiveTimer::Idle);
    assert!(!reached.forget_threat);
}

#[test]
fn passive_flight_ends_after_timer() {
    let s = PassiveSenses { timer_expired: true, has_target: true, target_reached: false };
    let d = passive_step(PassiveState::Fleeing, s);
    assert_eq!(d.next_state, PassiveState::Idle);
    assert!(d.forget_threat);
    let no_target = passive_step(PassiveState::Fleeing, PassiveSenses { has_target: false, ..s });
    assert_eq!(no_target.next_state, PassiveState::Idle);
    assert_eq!(no_target.target, PassiveTarget::Keep);
    assert!(!no_target.forget_threat);
}
