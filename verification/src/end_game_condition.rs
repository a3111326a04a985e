//! Win-condition classification of a living participant.

use vstd::prelude::*;

verus! {

/// The faction or solo win-condition a living participant currently belongs
/// to. `Unaligned` marks participants that count for no win condition.
#[derive(Clone, Copy, PartialEq, Eq, Structural, Debug)]
pub enum EndGameCondition {
    Town,
    Mafia,
    /// A lone win condition that cannot be shared.
    Solo,
    /// Counts for no remaining-team computation.
    Unaligned,
}

} // verus!
