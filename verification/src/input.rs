//! What the player means to do, read from the input of one frame.
use vstd::prelude::*;

verus! {

/// How the player wants to move this frame.
#[derive(Clone, Copy, PartialEq, Eq, Structural, Debug)]
pub enum MovementIntention {
    Idle,
    Walking,
    Running,
    Dashing,
}

impl MovementIntention {
    /// The intention that the input of one frame expresses.
    pub open spec fn spec_evaluate(moving: bool, dash_just_pressed: bool, walk_pressed: bool) -> Self {
        if !moving {
            MovementIntention::Idle
        } else if dash_just_pressed {
            MovementIntention::Dashing
        } else if walk_pressed {
            MovementIntention::Walking
        } else {
            MovementIntention::Running
        }
    }

    /// Reads the intention from the frame's input: `moving` is whether the move
    /// axis is off centre, `dash_just_pressed` whether the dash button went down
    /// this frame, `walk_pressed` whether the walk button is held.
    /// Without movement the player is idle; a fresh dash press wins over walking,
    /// and holding walk wins over running.
    pub fn evaluate(moving: bool, dash_just_pressed: bool, walk_pressed: bool) -> (intention: Self)
        ensures
            intention == Self::spec_evaluate(moving, dash_just_pressed, walk_pressed),
            (intention == MovementIntention::Idle) <==> !moving,
            (intention == MovementIntention::Dashing) <==> (moving && dash_just_pressed),
            (intention == MovementIntention::Walking) <==> (moving && !dash_just_pressed
                && walk_pressed),
            (intention == MovementIntention::Running) <==> (moving && !dash_just_pressed
                && !walk_pressed),
    {
        if !moving {
            MovementIntention::Idle
        } else if dash_just_pressed {
            MovementIntention::Dashing
        } else if walk_pressed {
            MovementIntention::Walking
        } else {
            MovementIntention::Running
        }
    }
}

/// A direction on the grid of the four direction buttons: each component is
/// -1, 0 or 1.
#[derive(Clone, Copy, PartialEq, Eq, Structural, Debug)]
pub struct PadDirection {
    pub x: i8,
    pub y: i8,
}

impl PadDirection {
    /// The direction the held buttons point to: up and down cancel each other,
    /// and so do left and right.
    pub fn from_buttons(up: bool, down: bool, left: bool, right: bool) -> (dir: PadDirection)
        ensures
            dir.x == (if right { 1int } else { 0int }) - (if left { 1int } else { 0int }),
            dir.y == (if up { 1int } else { 0int }) - (if down { 1int } else { 0int }),
    {
        let mut x: i8 = 0;
        let mut y: i8 = 0;
        if up {
            y = y + 1;
        }
        if down {
            y = y - 1;
        }
        if left {
            x = x - 1;
        }
        if right {
            x = x + 1;
        }
        PadDirection { x, y }
    }

    /// Whether the direction asks for movement at all.
    pub fn is_moving(self) -> (moving: bool)
        ensures
            moving == (self.x != 0 || self.y != 0),
    {
        self.x != 0 || self.y != 0
    }
}

} // verus!
