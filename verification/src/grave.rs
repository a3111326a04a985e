//! Immutable death records.

use vstd::prelude::*;

use crate::role::{Faction, Role};

verus! {

/// One contributing cause of a death.
#[derive(Clone, Copy, PartialEq, Eq, Structural, Debug)]
pub enum GraveKiller {
    /// Killed by a specific role's ability.
    Role(Role),
    /// Killed by a faction's shared ability (for example the syndicate gun).
    Faction(Faction),
    /// Executed after a guilty trial verdict.
    Trial,
}

/// The immutable record of one participant's death. Created exactly once per
/// participant, on the first fatal resolution; every simultaneous fatal cause
/// of that resolution is recorded on this one grave.
#[derive(Debug)]
pub struct Grave {
    /// The participant who died.
    pub player: u8,
    /// The role revealed by the death.
    pub role: Role,
    /// The day number the death was committed on.
    pub day_number: u8,
    /// Every contributing killer or cause, in resolution order.
    pub killers: Vec<GraveKiller>,
}

/// The mathematical value of a grave.
pub ghost struct GraveRecord {
    pub player: u8,
    pub role: Role,
    pub day_number: u8,
    pub killers: Seq<GraveKiller>,
}

impl View for Grave {
    type V = GraveRecord;

    open spec fn view(&self) -> GraveRecord {
        GraveRecord {
            player: self.player,
            role: self.role,
            day_number: self.day_number,
            killers: self.killers@,
        }
    }
}

impl Clone for Grave {
    /// A copy whose mathematical value is the same as the original's.
    fn clone(&self) -> (res: Grave)
        ensures
            res@ == self@,
    {
        let res = Grave {
            player: self.player,
            role: self.role,
            day_number: self.day_number,
            killers: copy_killers(&self.killers),
        };
        proof {
            assert(res@ =~= self@);
        }
        res
    }
}

/// An element-for-element copy of a list of grave causes.
fn copy_killers(killers: &Vec<GraveKiller>) -> (res: Vec<GraveKiller>)
    ensures
        res@ == killers@,
{
    let mut res: Vec<GraveKiller> = Vec::new();
    let mut i: usize = 0;
    while i < killers.len()
        invariant
            i <= killers@.len(),
            res@ == killers@.subrange(0, i as int),
        decreases killers@.len() - i,
    {
        res.push(killers[i]);
        proof {
            assert(res@ =~= killers@.subrange(0, i + 1 as int));
        }
        i = i + 1;
    }
    proof {
        assert(killers@.subrange(0, killers@.len() as int) =~= killers@);
    }
    res
}

} // verus!
