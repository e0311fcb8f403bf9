//! Partnerships: a tie that runs beside the bond of a relationship.

use vstd::prelude::*;

verus! {

/// A romantic or marital partnership.
#[derive(Debug, Clone, Copy, PartialEq, Eq, Hash, Structural)]
pub enum Partnership {
    Spouse,
    Engaged,
    Lover,
    Separated,
}

} // verus!
