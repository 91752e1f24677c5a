use game_logic::animation::{AnimationSheet, Facing, PlayerAnimationState};
use game_logic::enemy::{EnemyState, PlayerProximity};
use game_logic::input::{MovementIntention, PadDirection};
use game_logic::movement::PlayerMoveState;
use game_logic::input::MovementIntention as I;
use game_logic::movement::PlayerMoveState as S;

#[test]
fn intention_from_input() {
    assert_eq!(MovementIntention::evaluate(false, true, true), MovementIntention::Idle);
    assert_eq!(MovementIntention::evaluate(true, true, true), MovementIntention::Dashing);
    assert_eq!(MovementIntention::evaluate(true, false, true), MovementIntention::Walking);
    assert_eq!(MovementIntention::evaluate(true, false, false), MovementIntention::Running);
}

#[test]
fn pad_direction_from_buttons() {
    assert_eq!(PadDirection::from_buttons(true, false, false, true), PadDirection { x: 1, y: 1 });
    assert_eq!(PadDirection::from_buttons(true, true, true, false), PadDirection { x: -1, y: 0 });
    assert!(!PadDirection::from_buttons(true, true, true, true).is_moving());
    assert!(PadDirection::from_buttons(false, true, false, false).is_moving());
}

#[test]
fn player_follows_intention_outside_a_dash() {
    for from in [S::Idle, S::Running, S::Walking] {
        assert_eq!(from.next(I::Idle, false), S::Idle);
        assert_eq!(from.next(I::Running, false), S::Running);
        assert_eq!(from.next(I::Walking, true), S::Walking);
        assert_eq!(from.next(I::Dashing, false), S::Dashing);
    }
}

#[test]
fn dash_lasts_until_its_timer_ends() {
    assert_eq!(S::Dashing.next(I::Idle, true), S::Dashing);
    assert_eq!(S::Dashing.next(I::Running, true), S::Dashing);
    assert_eq!(S::Dashing.next(I::Idle, false), S::Idle);
    assert_eq!(S::Dashing.next(I::Walking, false), S::Walking);
    assert_eq!(S::Dashing.next(I::Dashing, false), S::Dashing);
}

#[test]
fn player_transition_triggers() {
    assert!(S::Idle.transitions_to(S::Running, I::Running, false));
    assert!(!S::Idle.transitions_to(S::Walking, I::Running, false));
    assert!(!S::Running.transitions_to(S::Running, I::Running, false));
    assert!(!S::Dashing.transitions_to(S::Idle, I::Idle, true));
    assert!(S::Dashing.transitions_to(S::Idle, I::Idle, false));
}

#[test]
fn enemy_chases_a_player_in_range() {
    assert_eq!(EnemyState::Idle.next(PlayerProximity::InRange, false), EnemyState::Chase);
    assert_eq!(EnemyState::Idle.next(PlayerProximity::InRange, true), EnemyState::Chase);
    assert_eq!(EnemyState::Patrol.next(PlayerProximity::InRange, true), EnemyState::Chase);
    assert_eq!(EnemyState::Chase.next(PlayerProximity::InRange, true), EnemyState::Chase);
}

#[test]
fn enemy_patrols_after_idling() {
    assert_eq!(EnemyState::Idle.next(PlayerProximity::OutOfRange, false), EnemyState::Idle);
    assert_eq!(EnemyState::Idle.next(PlayerProximity::OutOfRange, true), EnemyState::Patrol);
    assert_eq!(EnemyState::Idle.next(PlayerProximity::Absent, true), EnemyState::Patrol);
    assert_eq!(EnemyState::Patrol.next(PlayerProximity::OutOfRange, true), EnemyState::Patrol);
}

#[test]
fn enemy_gives_up_when_player_leaves_range() {
    assert_eq!(EnemyState::Chase.next(PlayerProximity::OutOfRange, false), EnemyState::Idle);
    // Without a player there is nothing to measure: the chase goes on.
    assert_eq!(EnemyState::Chase.next(PlayerProximity::Absent, false), EnemyState::Chase);
    assert!(EnemyState::Chase.transitions_to(EnemyState::Idle, PlayerProximity::OutOfRange, false));
    assert!(!EnemyState::Patrol.transitions_to(EnemyState::Idle, PlayerProximity::OutOfRange, true));
}

#[test]
fn animation_rows() {
    assert_eq!(PlayerAnimationState::IdleDown.indices(), (0, 3));
    assert_eq!(PlayerAnimationState::WalkLeft.indices(), (4, 7));
    assert_eq!(PlayerAnimationState::IdleUp.indices(), (8, 11));
    assert_eq!(PlayerAnimationState::WalkRight.indices(), (12, 15));
    assert!(PlayerAnimationState::WalkUp.is_walk());
    assert!(!PlayerAnimationState::IdleRight.is_walk());
    assert_eq!(PlayerAnimationState::WalkDown.sheet(), AnimationSheet::Walk);
    assert_eq!(PlayerAnimationState::IdleDown.sheet(), AnimationSheet::Idle);
}

#[test]
fn frames_cycle_within_the_row() {
    let s = PlayerAnimationState::WalkLeft;
    assert_eq!(s.next_frame(4), 5);
    assert_eq!(s.next_frame(6), 7);
    assert_eq!(s.next_frame(7), 4);
    assert_eq!(s.next_frame(0), 4);
    assert_eq!(s.next_frame(15), 4);
    let mut frame = 9;
    for _ in 0..20 {
        frame = s.next_frame(frame);
        assert!((4..=7).contains(&frame));
    }
}

#[test]
fn standing_still_keeps_the_facing() {
    assert_eq!(PlayerAnimationState::WalkUp.after_movement(None), PlayerAnimationState::IdleUp);
    assert_eq!(PlayerAnimationState::IdleLeft.after_movement(None), PlayerAnimationState::IdleLeft);
    assert_eq!(
        PlayerAnimationState::IdleLeft.after_movement(Some(Facing::Right)),
        PlayerAnimationState::WalkRight
    );
    assert_eq!(PlayerAnimationState::of(Facing::Down, true), PlayerAnimationState::WalkDown);
    assert_eq!(PlayerAnimationState::WalkRight.facing(), Facing::Right);
}
