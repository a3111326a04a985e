//! Visit records: a participant's resolved ability target for one night.

use vstd::prelude::*;

verus! {

/// Why a visit exists; lets cross-cutting systems find their own visits.
#[derive(Clone, Copy, PartialEq, Eq, Structural, Debug)]
pub enum VisitTag {
    /// Produced from the visitor's own role ability.
    Role,
    /// Produced by the syndicate gun item held by the visitor.
    SyndicateGunItem,
}

/// One tagged visit: `visitor` goes to `target` tonight.
#[derive(Clone, Copy, PartialEq, Eq, Structural, Debug)]
pub struct Visit {
    pub visitor: u8,
    pub target: u8,
    /// Whether the visit carries an attack.
    pub attack: bool,
    /// An astral visit is non-physical and cannot be observed at the target.
    pub astral: bool,
    pub tag: VisitTag,
}

} // verus!
