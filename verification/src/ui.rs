//! What the widgets share when they are drawn.

use vstd::prelude::*;

verus! {

/// Where a widget puts its text inside its area.
#[derive(Clone, Copy, Debug, PartialEq, Eq, Structural)]
pub enum Alignment {
    Left,
    Center,
    Right,
}

} // verus!
