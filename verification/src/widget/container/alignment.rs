//! Cross-axis placement policy for a container's children.

use vstd::prelude::*;

verus! {

/// Where a child sits on the cross axis. `Stretch` additionally changes
/// the default cross-axis size used when a child reports no intrinsic
/// cross dimension: such a child is stretched to the full cross extent of
/// the content area.
#[derive(Clone, Copy, Debug, PartialEq, Eq, Structural)]
pub enum Alignment {
    Stretch,
    Start,
    Center,
    End,
}

impl Default for Alignment {
    fn default() -> (r: Self)
        ensures
            r == Alignment::Stretch,
    {
        Alignment::Stretch
    }
}

} // verus!
