//! Participants and their per-round transient state.

use vstd::prelude::*;

use crate::attack_power::DefensePower;
use crate::role::{spec_default_data, spec_role_defense, spec_suspicious, Role, RoleState};
use crate::verdict::Verdict;

verus! {

/// Round-scoped transient attributes of one participant. They are meaningful
/// only during the night they were set in and are reset to role-defined
/// defaults at the start of every night phase.
#[derive(Clone, Copy, PartialEq, Eq, Structural, Debug)]
pub struct NightVars {
    /// Whether a roleblock prevents this participant's ability tonight.
    pub roleblocked: bool,
    /// Whether this participant is detained (jailed) tonight.
    pub detained: bool,
    /// The participant's defense power at this moment of the night.
    pub defense: DefensePower,
    /// Whether a successful attack has reached this participant tonight.
    pub attacked: bool,
    /// What a sheriff's check reports tonight.
    pub suspicious: bool,
    /// Whether the participant's public speech is suppressed tonight.
    pub silenced: bool,
    /// Which participant an investigator observes in this one's place.
    pub disguised_as: u8,
}

/// The role-defined default transient state of a participant at night start.
pub open spec fn spec_default_night_vars(role: Role, index: u8) -> NightVars {
    NightVars {
        roleblocked: false,
        detained: false,
        defense: spec_role_defense(role),
        attacked: false,
        suspicious: spec_suspicious(role),
        silenced: false,
        disguised_as: index,
    }
}

/// The role-defined default transient state of a participant at night start.
pub fn default_night_vars(role: Role, index: u8) -> (v: NightVars)
    ensures
        v == spec_default_night_vars(role, index),
{
    NightVars {
        roleblocked: false,
        detained: false,
        defense: role.defense(),
        attacked: false,
        suspicious: role.suspicious(),
        silenced: false,
        disguised_as: index,
    }
}

/// One participant: a stable index into the game's roster, an assigned role
/// with its mutable fields, an alive flag and the round-scoped transient
/// attributes. Death is a flag; entries are never removed or reused.
#[derive(Debug)]
pub struct Player {
    pub name: String,
    pub index: u8,
    pub role_state: RoleState,
    pub alive: bool,
    pub night: NightVars,
    /// The targets currently chosen for tonight's ability, in selection
    /// order.
    pub chosen_targets: Vec<u8>,
    /// The nomination vote currently cast, if any.
    pub chosen_vote: Option<u8>,
    /// The stance on the player currently on trial.
    pub verdict: Verdict,
    /// The persistent note published on death.
    pub will: String,
    /// Private notes, never published.
    pub notes: String,
}

impl Player {
    /// A freshly seated participant holding `role` with its default data and
    /// default transient state, alive, with no selections made.
    pub fn new(name: String, index: u8, role: Role) -> (p: Player)
        ensures
            p.name == name,
            p.index == index,
            p.role_state == spec_default_data(role),
            p.alive,
            p.night == spec_default_night_vars(role, index),
            p.chosen_targets@ == Seq::<u8>::empty(),
            p.chosen_vote is None,
            p.verdict == Verdict::Abstain,
            p.will@ == Seq::<char>::empty(),
            p.notes@ == Seq::<char>::empty(),
    {
        Player {
            name,
            index,
            role_state: role.default_data(),
            alive: true,
            night: default_night_vars(role, index),
            chosen_targets: Vec::new(),
            chosen_vote: None,
            verdict: Verdict::Abstain,
            will: String::new(),
            notes: String::new(),
        }
    }

    /// The participant's display name.
    pub fn get_name(&self) -> (n: &str)
        ensures
            n@ == self.name@,
    {
        self.name.as_str()
    }

    /// The role tag this participant was assigned.
    pub fn get_role(&self) -> (r: Role)
        ensures
            r == self.role_state.spec_role(),
    {
        self.role_state.role()
    }
}

} // verus!
