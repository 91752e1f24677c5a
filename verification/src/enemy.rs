//! The enemy's state machine: idle, patrolling, chasing the player.
use vstd::prelude::*;

verus! {

/// The state an enemy is in.
#[derive(Clone, Copy, PartialEq, Eq, Structural, Debug)]
pub enum EnemyState {
    Idle,
    Patrol,
    Chase,
}

/// Where the player is, seen from an enemy: there may be no player at all, or
/// it is within the enemy's aggro radius (distance at most the radius), or
/// farther away.
#[derive(Clone, Copy, PartialEq, Eq, Structural, Debug)]
pub enum PlayerProximity {
    Absent,
    InRange,
    OutOfRange,
}

/// The state an enemy's state machine moves to in one frame.
pub open spec fn spec_next_enemy_state(
    current: EnemyState,
    proximity: PlayerProximity,
    idle_timer_finished: bool,
) -> EnemyState {
    match current {
        EnemyState::Idle => if proximity == PlayerProximity::InRange {
            EnemyState::Chase
        } else if idle_timer_finished {
            EnemyState::Patrol
        } else {
            EnemyState::Idle
        },
        EnemyState::Patrol => if proximity == PlayerProximity::InRange {
            EnemyState::Chase
        } else {
            EnemyState::Patrol
        },
        EnemyState::Chase => if proximity == PlayerProximity::OutOfRange {
            EnemyState::Idle
        } else {
            EnemyState::Chase
        },
    }
}

impl EnemyState {
    /// The state after this frame's transitions: an idle or patrolling enemy
    /// starts chasing a player in range (an idle one starts patrolling instead
    /// once its idle timer has finished and no player is in range); a chasing
    /// enemy turns idle when the player is out of range.
    pub fn next(self, proximity: PlayerProximity, idle_timer_finished: bool) -> (next: Self)
        ensures
            next == spec_next_enemy_state(self, proximity, idle_timer_finished),
            (self != EnemyState::Chase && proximity == PlayerProximity::InRange) ==> next
                == EnemyState::Chase,
            (self == EnemyState::Chase) ==> (next == EnemyState::Idle <==> proximity
                == PlayerProximity::OutOfRange),
            (proximity == PlayerProximity::Absent) ==> (next == EnemyState::Chase <==> self
                == EnemyState::Chase),
            (next == EnemyState::Patrol) ==> (self == EnemyState::Patrol || (self
                == EnemyState::Idle && idle_timer_finished)),
    {
        match self {
            EnemyState::Idle => {
                if proximity == PlayerProximity::InRange {
                    EnemyState::Chase
                } else if idle_timer_finished {
                    EnemyState::Patrol
                } else {
                    EnemyState::Idle
                }
            },
            EnemyState::Patrol => {
                if proximity == PlayerProximity::InRange {
                    EnemyState::Chase
                } else {
                    EnemyState::Patrol
                }
            },
            EnemyState::Chase => {
                if proximity == PlayerProximity::OutOfRange {
                    EnemyState::Idle
                } else {
                    EnemyState::Chase
                }
            },
        }
    }

    /// Whether the machine takes the transition from `self` to `target` this frame.
    pub fn transitions_to(
        self,
        target: EnemyState,
        proximity: PlayerProximity,
        idle_timer_finished: bool,
    ) -> (taken: bool)
        ensures
            taken == (self != target && spec_next_enemy_state(self, proximity, idle_timer_finished)
                == target),
    {
        let next = self.next(proximity, idle_timer_finished);
        self != target && next == target
    }
}

/// The enemy's transitions: a player in range is chased from idle and patrol;
/// an idle enemy without a player in range patrols once its idle timer has
/// finished; a chase ends, back to idle, only when the player is out of range;
/// nothing else changes the state.
pub proof fn lemma_enemy_transitions(
    current: EnemyState,
    proximity: PlayerProximity,
    idle_timer_finished: bool,
)
    ensures
        ({
            let next = spec_next_enemy_state(current, proximity, idle_timer_finished);
            &&& current == EnemyState::Idle ==> (next == EnemyState::Chase <==> proximity
                == PlayerProximity::InRange)
            &&& current == EnemyState::Idle ==> (next == EnemyState::Patrol <==> (proximity
                != PlayerProximity::InRange && idle_timer_finished))
            &&& current == EnemyState::Patrol ==> (next == EnemyState::Chase <==> proximity
                == PlayerProximity::InRange)
            &&& current == EnemyState::Patrol ==> next != EnemyState::Idle
            &&& current == EnemyState::Chase ==> (next == EnemyState::Idle <==> proximity
                == PlayerProximity::OutOfRange)
            &&& current == EnemyState::Chase ==> next != EnemyState::Patrol
        }),
{
}

} // verus!
