//! Game configuration: phase durations and the role list.

use vstd::prelude::*;

use crate::phase::PhaseType;
use crate::role::Role;

verus! {

/// Configured duration of every phase, in whole seconds.
#[derive(Clone, Copy, PartialEq, Eq, Structural, Debug)]
pub struct PhaseTimes {
    pub morning: u16,
    pub discussion: u16,
    pub nomination: u16,
    pub testimony: u16,
    pub judgement: u16,
    pub evening: u16,
    pub night: u16,
    pub obituary: u16,
}

impl PhaseTimes {
    /// The configured duration of the phase `phase`, in seconds.
    pub open spec fn spec_time_for(&self, phase: PhaseType) -> u16 {
        match phase {
            PhaseType::Morning => self.morning,
            PhaseType::Discussion => self.discussion,
            PhaseType::Nomination => self.nomination,
            PhaseType::Testimony => self.testimony,
            PhaseType::Judgement => self.judgement,
            PhaseType::Evening => self.evening,
            PhaseType::Night => self.night,
            PhaseType::Obituary => self.obituary,
        }
    }

    /// The configured duration of the phase `phase`, in seconds.
    #[verifier::when_used_as_spec(spec_time_for)]
    pub fn get_time_for(&self, phase: PhaseType) -> (t: u16)
        ensures
            t == self.spec_time_for(phase),
    {
        match phase {
            PhaseType::Morning => self.morning,
            PhaseType::Discussion => self.discussion,
            PhaseType::Nomination => self.nomination,
            PhaseType::Testimony => self.testimony,
            PhaseType::Judgement => self.judgement,
            PhaseType::Evening => self.evening,
            PhaseType::Night => self.night,
            PhaseType::Obituary => self.obituary,
        }
    }

    /// A game with every duration at zero could never leave its first phase;
    /// such a configuration is rejected at game creation.
    pub open spec fn spec_game_ends_instantly(&self) -> bool {
        self.morning == 0 && self.discussion == 0 && self.nomination == 0 && self.testimony == 0
            && self.judgement == 0 && self.evening == 0 && self.night == 0 && self.obituary == 0
    }

    /// Whether every configured phase duration is zero.
    #[verifier::when_used_as_spec(spec_game_ends_instantly)]
    pub fn game_ends_instantly(&self) -> (r: bool)
        ensures
            r == self.spec_game_ends_instantly(),
    {
        self.morning == 0 && self.discussion == 0 && self.nomination == 0 && self.testimony == 0
            && self.judgement == 0 && self.evening == 0 && self.night == 0 && self.obituary == 0
    }
}

/// Everything a game is created from.
#[derive(Debug)]
pub struct Settings {
    pub phase_times: PhaseTimes,
    /// The roles to hand out, one per seated participant, in no particular
    /// order.
    pub role_list: Vec<Role>,
    /// Roles that must not appear in this game.
    pub excluded_roles: Vec<Role>,
}

} // verus!
