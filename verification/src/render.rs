//! Depth layers for drawing, and the order they stack in.
use vstd::prelude::*;

verus! {

/// Depth layers: sprites of a later layer are drawn over those of an earlier one.
#[derive(Clone, Copy, PartialEq, Eq, Structural, Debug)]
pub enum ZLayer {
    Background,
    Shadows,
    Entities,
    Ui,
}

impl ZLayer {
    pub open spec fn spec_depth(self) -> u32 {
        match self {
            ZLayer::Background => 0,
            ZLayer::Shadows => 1,
            ZLayer::Entities => 2,
            ZLayer::Ui => 100,
        }
    }

    /// The base z of the layer, in whole units: 0, 1, 2 and 100.
    pub fn depth(self) -> (z: u32)
        ensures
            z == self.spec_depth(),
    {
        match self {
            ZLayer::Background => 0,
            ZLayer::Shadows => 1,
            ZLayer::Entities => 2,
            ZLayer::Ui => 100,
        }
    }
}

} // verus!
