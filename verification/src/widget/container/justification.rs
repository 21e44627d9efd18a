//! Main-axis distribution policy for a container's children as a whole.

use vstd::prelude::*;

verus! {

/// How leftover main-axis space is used to position the group of
/// children: packed at the start, centered, packed at the end, or spread
/// with uniform gaps between, around or evenly outside the children.
#[derive(Clone, Copy, Debug, PartialEq, Eq, Structural)]
pub enum Justification {
    Start,
    Center,
    End,
    SpaceBetween,
    SpaceAround,
    SpaceEvenly,
}

impl Default for Justification {
    fn default() -> (r: Self)
        ensures
            r == Justification::Start,
    {
        Justification::Start
    }
}

} // verus!
