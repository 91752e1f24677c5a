//! The player's sprite animation: which way the sprite faces, whether it
//! walks, and which frame of the 4x4 sprite sheet it shows.
use vstd::prelude::*;

verus! {

/// The four directions the sprite can face; each is one row of the sprite sheet.
#[derive(Clone, Copy, PartialEq, Eq, Structural, Debug)]
pub enum Facing {
    Down,
    Left,
    Up,
    Right,
}

/// The animation the player's sprite plays.
#[derive(Clone, Copy, PartialEq, Eq, Structural, Debug)]
pub enum PlayerAnimationState {
    IdleDown,
    IdleLeft,
    IdleUp,
    IdleRight,
    WalkDown,
    WalkLeft,
    WalkUp,
    WalkRight,
}

/// The sprite sheet an animation is drawn from.
#[derive(Clone, Copy, PartialEq, Eq, Structural, Debug)]
pub enum AnimationSheet {
    Idle,
    Walk,
}

/// Row of the sprite sheet for a facing.
pub open spec fn facing_row(facing: Facing) -> nat {
    match facing {
        Facing::Down => 0,
        Facing::Left => 1,
        Facing::Up => 2,
        Facing::Right => 3,
    }
}

impl PlayerAnimationState {
    pub open spec fn spec_facing(self) -> Facing {
        match self {
            PlayerAnimationState::IdleDown | PlayerAnimationState::WalkDown => Facing::Down,
            PlayerAnimationState::IdleLeft | PlayerAnimationState::WalkLeft => Facing::Left,
            PlayerAnimationState::IdleUp | PlayerAnimationState::WalkUp => Facing::Up,
            PlayerAnimationState::IdleRight | PlayerAnimationState::WalkRight => Facing::Right,
        }
    }

    pub open spec fn spec_is_walk(self) -> bool {
        match self {
            PlayerAnimationState::WalkDown | PlayerAnimationState::WalkLeft
            | PlayerAnimationState::WalkUp | PlayerAnimationState::WalkRight => true,
            _ => false,
        }
    }

    /// The animation that faces `facing`, walking or standing.
    pub open spec fn spec_of(facing: Facing, walking: bool) -> PlayerAnimationState {
        match facing {
            Facing::Down => if walking {
                PlayerAnimationState::WalkDown
            } else {
                PlayerAnimationState::IdleDown
            },
            Facing::Left => if walking {
                PlayerAnimationState::WalkLeft
            } else {
                PlayerAnimationState::IdleLeft
            },
            Facing::Up => if walking {
                PlayerAnimationState::WalkUp
            } else {
                PlayerAnimationState::IdleUp
            },
            Facing::Right => if walking {
                PlayerAnimationState::WalkRight
            } else {
                PlayerAnimationState::IdleRight
            },
        }
    }

    /// First frame of the animation: the first cell of its facing's row.
    pub open spec fn spec_first_frame(self) -> nat {
        4 * facing_row(self.spec_facing())
    }

    /// Last frame of the animation: the last cell of its facing's row.
    pub open spec fn spec_last_frame(self) -> nat {
        4 * facing_row(self.spec_facing()) + 3
    }

    /// The direction the sprite faces.
    pub fn facing(self) -> (facing: Facing)
        ensures
            facing == self.spec_facing(),
    {
        match self {
            PlayerAnimationState::IdleDown | PlayerAnimationState::WalkDown => Facing::Down,
            PlayerAnimationState::IdleLeft | PlayerAnimationState::WalkLeft => Facing::Left,
            PlayerAnimationState::IdleUp | PlayerAnimationState::WalkUp => Facing::Up,
            PlayerAnimationState::IdleRight | PlayerAnimationState::WalkRight => Facing::Right,
        }
    }

    /// Whether this is one of the walking animations.
    pub fn is_walk(self) -> (walk: bool)
        ensures
            walk == self.spec_is_walk(),
    {
        match self {
            PlayerAnimationState::WalkDown | PlayerAnimationState::WalkLeft
            | PlayerAnimationState::WalkUp | PlayerAnimationState::WalkRight => true,
            _ => false,
        }
    }

    /// The animation facing `facing`, walking or standing.
    pub fn of(facing: Facing, walking: bool) -> (state: PlayerAnimationState)
        ensures
            state == Self::spec_of(facing, walking),
            state.spec_facing() == facing,
            state.spec_is_walk() == walking,
    {
        match facing {
            Facing::Down => if walking {
                PlayerAnimationState::WalkDown
            } else {
                PlayerAnimationState::IdleDown
            },
            Facing::Left => if walking {
                PlayerAnimationState::WalkLeft
            } else {
                PlayerAnimationState::IdleLeft
            },
            Facing::Up => if walking {
                PlayerAnimationState::WalkUp
            } else {
                PlayerAnimationState::IdleUp
            },
            Facing::Right => if walking {
                PlayerAnimationState::WalkRight
            } else {
                PlayerAnimationState::IdleRight
            },
        }
    }

    /// The first and last frame of the animation in the sprite sheet (both
    /// sheets share the layout: one row of four frames per facing).
    pub fn indices(self) -> (range: (usize, usize))
        ensures
            range.0 == self.spec_first_frame(),
            range.1 == self.spec_last_frame(),
    {
        match self.facing() {
            Facing::Down => (0, 3),
            Facing::Left => (4, 7),
            Facing::Up => (8, 11),
            Facing::Right => (12, 15),
        }
    }

    /// The sheet the animation is drawn from.
    pub fn sheet(self) -> (sheet: AnimationSheet)
        ensures
            sheet == (if self.spec_is_walk() {
                AnimationSheet::Walk
            } else {
                AnimationSheet::Idle
            }),
    {
        if self.is_walk() {
            AnimationSheet::Walk
        } else {
            AnimationSheet::Idle
        }
    }

    /// The animation after this frame's movement: `heading` is the direction of
    /// movement, if the player moves. A moving player walks towards the heading;
    /// a player that stands still keeps facing the same way, idle.
    pub fn after_movement(self, heading: Option<Facing>) -> (next: PlayerAnimationState)
        ensures
            heading is None ==> next == Self::spec_of(self.spec_facing(), false),
            heading matches Some(f) ==> next == Self::spec_of(f, true),
    {
        match heading {
            None => Self::of(self.facing(), false),
            Some(f) => Self::of(f, true),
        }
    }

    /// The frame shown after the animation timer fires: the next frame of the
    /// animation, back to its first frame after its last one, and the first
    /// frame whenever `index` lies outside the animation's row.
    pub fn next_frame(self, index: usize) -> (next: usize)
        ensures
            next == spec_next_frame(self, index as int),
            (index < self.spec_first_frame() || index >= self.spec_last_frame()) ==> next
                == self.spec_first_frame(),
            (self.spec_first_frame() <= index < self.spec_last_frame()) ==> next == index + 1,
            self.spec_first_frame() <= next <= self.spec_last_frame(),
    {
        let (start, end) = self.indices();
        if index < start || index >= end {
            start
        } else {
            index + 1
        }
    }
}

/// The frame after `index` in the animation `state`.
pub open spec fn spec_next_frame(state: PlayerAnimationState, index: int) -> int {
    if index < state.spec_first_frame() || index >= state.spec_last_frame() {
        state.spec_first_frame() as int
    } else {
        index + 1
    }
}

/// The frame shown after `ticks` firings of the animation timer, from `index`.
pub open spec fn frame_after(state: PlayerAnimationState, index: int, ticks: nat) -> int
    decreases ticks,
{
    if ticks == 0 {
        index
    } else {
        spec_next_frame(state, frame_after(state, index, (ticks - 1) as nat))
    }
}

/// An animation loops through the four frames of its row: from the first frame,
/// the timer shows the frames in order and is back at the first frame after
/// four firings; from any frame, every frame shown after a firing lies in the row.
pub proof fn lemma_animation_loops(state: PlayerAnimationState, index: int, ticks: nat)
    ensures
        frame_after(state, state.spec_first_frame() as int, 4) == state.spec_first_frame(),
        ticks < 4 ==> frame_after(state, state.spec_first_frame() as int, ticks)
            == state.spec_first_frame() + ticks,
        ticks > 0 ==> state.spec_first_frame() <= frame_after(state, index, ticks)
            <= state.spec_last_frame(),
    decreases ticks,
{
    reveal_with_fuel(frame_after, 5);
    if ticks > 1 {
        lemma_animation_loops(state, index, (ticks - 1) as nat);
    }
}

/// Each animation faces the direction in its name, walks exactly when its name
/// says so, and plays its facing's row of the sheet: down is the first row,
/// then left, up and right.
pub proof fn lemma_animation_names(s: PlayerAnimationState, f: Facing, walking: bool)
    ensures
        s.spec_is_walk() <==> (s == PlayerAnimationState::WalkDown || s
            == PlayerAnimationState::WalkLeft || s == PlayerAnimationState::WalkUp || s
            == PlayerAnimationState::WalkRight),
        (s.spec_facing() == Facing::Down) <==> (s == PlayerAnimationState::IdleDown || s
            == PlayerAnimationState::WalkDown),
        (s.spec_facing() == Facing::Left) <==> (s == PlayerAnimationState::IdleLeft || s
            == PlayerAnimationState::WalkLeft),
        (s.spec_facing() == Facing::Up) <==> (s == PlayerAnimationState::IdleUp || s
            == PlayerAnimationState::WalkUp),
        (s.spec_facing() == Facing::Right) <==> (s == PlayerAnimationState::IdleRight || s
            == PlayerAnimationState::WalkRight),
        s.spec_first_frame() == 4 * (if s.spec_facing() == Facing::Down {
            0int
        } else if s.spec_facing() == Facing::Left {
            1
        } else if s.spec_facing() == Facing::Up {
            2
        } else {
            3
        }),
        s.spec_last_frame() == s.spec_first_frame() + 3,
        PlayerAnimationState::spec_of(f, walking).spec_facing() == f,
        PlayerAnimationState::spec_of(f, walking).spec_is_walk() == walking,
{
}

} // verus!
