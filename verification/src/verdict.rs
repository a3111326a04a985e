//! A participant's stance during a trial's judgement phase.

use vstd::prelude::*;

verus! {

/// How a living participant votes on the player on trial.
#[derive(Clone, Copy, PartialEq, Eq, Structural, Debug)]
pub enum Verdict {
    Innocent,
    Abstain,
    Guilty,
}

} // verus!
