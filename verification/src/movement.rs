//! The player's movement state machine: idle, running, walking, dashing.
use vstd::prelude::*;

use crate::input::MovementIntention;

verus! {

/// The movement state the player is in.
#[derive(Clone, Copy, PartialEq, Eq, Structural, Debug)]
pub enum PlayerMoveState {
    Idle,
    Running,
    Walking,
    Dashing,
}

/// The state that matches an intention.
pub open spec fn state_for(intention: MovementIntention) -> PlayerMoveState {
    match intention {
        MovementIntention::Idle => PlayerMoveState::Idle,
        MovementIntention::Running => PlayerMoveState::Running,
        MovementIntention::Walking => PlayerMoveState::Walking,
        MovementIntention::Dashing => PlayerMoveState::Dashing,
    }
}

/// The state the player's state machine moves to in one frame.
pub open spec fn spec_next_move_state(
    current: PlayerMoveState,
    intention: MovementIntention,
    dash_timer_active: bool,
) -> PlayerMoveState {
    if current == PlayerMoveState::Dashing && dash_timer_active {
        PlayerMoveState::Dashing
    } else {
        state_for(intention)
    }
}

impl PlayerMoveState {
    /// The state after this frame's transitions.
    ///
    /// From idle, running and walking the machine follows the intention (idle,
    /// running, walking or dashing). A dash lasts while its timer runs; once the
    /// timer is gone the machine follows the intention again, and a fresh dash
    /// press keeps the player dashing.
    pub fn next(self, intention: MovementIntention, dash_timer_active: bool) -> (next: Self)
        ensures
            next == spec_next_move_state(self, intention, dash_timer_active),
            (self == PlayerMoveState::Dashing && dash_timer_active) ==> next
                == PlayerMoveState::Dashing,
            !(self == PlayerMoveState::Dashing && dash_timer_active) ==> next == state_for(
                intention,
            ),
    {
        if self == PlayerMoveState::Dashing && dash_timer_active {
            return PlayerMoveState::Dashing;
        }
        match intention {
            MovementIntention::Idle => PlayerMoveState::Idle,
            MovementIntention::Running => PlayerMoveState::Running,
            MovementIntention::Walking => PlayerMoveState::Walking,
            MovementIntention::Dashing => PlayerMoveState::Dashing,
        }
    }

    /// Whether the machine takes the transition from `self` to `target` this frame.
    pub fn transitions_to(
        self,
        target: PlayerMoveState,
        intention: MovementIntention,
        dash_timer_active: bool,
    ) -> (taken: bool)
        ensures
            taken == (self != target && spec_next_move_state(self, intention, dash_timer_active)
                == target),
    {
        let next = self.next(intention, dash_timer_active);
        self != target && next == target
    }
}

/// Once no dash timer runs, a steady intention settles the machine in one
/// frame: the next frame takes no further transition.
pub proof fn lemma_steady_input_settles(
    current: PlayerMoveState,
    intention: MovementIntention,
    dash_timer_active: bool,
)
    requires
        !dash_timer_active || current != PlayerMoveState::Dashing,
    ensures
        spec_next_move_state(
            spec_next_move_state(current, intention, dash_timer_active),
            intention,
            false,
        ) == spec_next_move_state(current, intention, dash_timer_active),
{
}

/// Outside a running dash, the player's state is the one named like the
/// intention: idle, running, walking or dashing; during a dash it stays dashing.
pub proof fn lemma_state_follows_intention(
    current: PlayerMoveState,
    intention: MovementIntention,
    dash_timer_active: bool,
)
    ensures
        (current == PlayerMoveState::Dashing && dash_timer_active) ==> spec_next_move_state(
            current,
            intention,
            dash_timer_active,
        ) == PlayerMoveState::Dashing,
        !(current == PlayerMoveState::Dashing && dash_timer_active) ==> {
            let next = spec_next_move_state(current, intention, dash_timer_active);
            &&& (next == PlayerMoveState::Idle <==> intention == MovementIntention::Idle)
            &&& (next == PlayerMoveState::Running <==> intention == MovementIntention::Running)
            &&& (next == PlayerMoveState::Walking <==> intention == MovementIntention::Walking)
            &&& (next == PlayerMoveState::Dashing <==> intention == MovementIntention::Dashing)
        },
{
}

} // verus!
