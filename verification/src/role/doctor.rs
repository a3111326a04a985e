//! The doctor: raises one participant's defense in the Heal bucket.

use vstd::prelude::*;

use crate::game::Game;
use crate::player::{NightVars, Player};
use crate::resolution::{
    night_frame, night_model, spec_first_role_visit, spec_upgrade_defense, NightModel,
};
use crate::role::{common_role, Priority, RoleState};
use crate::visit::Visit;

verus! {

/// Mutable state of a doctor. Self-heals are a one-shot resource: they only
/// ever decrease and can never go below zero.
#[derive(Clone, Copy, PartialEq, Eq, Structural, Debug)]
pub struct Doctor {
    /// How many times the doctor may still heal themselves.
    pub self_heals_remaining: u8,
    /// Who was healed tonight, if anyone; cleared with the night's transient
    /// state.
    pub target_healed_ref: Option<u8>,
}

/// What the doctor's Heal-bucket action does to the night: the first
/// visit's target gains powerful defense for the rest of the night, and the
/// doctor records the heal. Healing themselves spends one self-heal and is
/// a no-op once none remain. A dead or roleblocked doctor does nothing.
pub open spec fn spec_doctor_action(m: NightModel, a: int) -> NightModel {
    match m.players[a].role_state {
        RoleState::Doctor(ds) => match spec_first_role_visit(m.visits, a) {
            Some(v) => {
                let t = v.target as int;
                if m.players[a].alive && !m.players[a].night.roleblocked && 0 <= t
                    < m.players.len() {
                    if t == a {
                        if ds.self_heals_remaining > 0 {
                            NightModel {
                                players: m.players.update(
                                    a,
                                    Player {
                                        night: NightVars {
                                            defense: spec_upgrade_defense(
                                                m.players[a].night.defense,
                                            ),
                                            ..m.players[a].night
                                        },
                                        role_state: RoleState::Doctor(
                                            Doctor {
                                                self_heals_remaining: (ds.self_heals_remaining
                                                    - 1) as u8,
                                                target_healed_ref: Some(v.target),
                                            },
                                        ),
                                        ..m.players[a]
                                    },
                                ),
                                ..m
                            }
                        } else {
                            m
                        }
                    } else {
                        let healed = m.players.update(
                            t,
                            Player {
                                night: NightVars {
                                    defense: spec_upgrade_defense(m.players[t].night.defense),
                                    ..m.players[t].night
                                },
                                ..m.players[t]
                            },
                        );
                        NightModel {
                            players: healed.update(
                                a,
                                Player {
                                    role_state: RoleState::Doctor(
                                        Doctor {
                                            self_heals_remaining: ds.self_heals_remaining,
                                            target_healed_ref: Some(v.target),
                                        },
                                    ),
                                    ..healed[a]
                                },
                            ),
                            ..m
                        }
                    }
                } else {
                    m
                }
            },
            None => m,
        },
        _ => m,
    }
}

/// The doctor's night handler: acts only in the Heal bucket, and a
/// roleblock applied in an earlier bucket makes it a no-op.
#[verifier::rlimit(60)]
pub fn do_night_action(game: &mut Game, actor_ref: u8, priority: Priority)
    requires
        old(game).wf(),
        (actor_ref as int) < old(game).num_players(),
    ensures
        final(game).wf(),
        night_frame(*final(game), *old(game)),
        night_model(*final(game)) == if priority is Heal {
            spec_doctor_action(night_model(*old(game)), actor_ref as int)
        } else {
            night_model(*old(game))
        },
{
    if !matches!(priority, Priority::Heal) {
        return;
    }
    let a = actor_ref as usize;
    let ds = match &game.players[a].role_state {
        RoleState::Doctor(ds) => *ds,
        _ => {
            return;
        },
    };
    match crate::resolution::first_role_visit(game, actor_ref) {
        Some(v) => {
            if game.players[a].alive && !game.players[a].night.roleblocked && (v.target as usize)
                < game.players.len() {
                let t = v.target as usize;
                if t == a {
                    if ds.self_heals_remaining > 0 {
                        let upgraded = game.players[a].night.defense.strongest(
                            crate::attack_power::DefensePower::Powerful,
                        );
                        game.players[a].night.defense = upgraded;
                        game.players[a].role_state = RoleState::Doctor(
                            Doctor {
                                self_heals_remaining: ds.self_heals_remaining - 1,
                                target_healed_ref: Some(v.target),
                            },
                        );
                        proof {
                            assert(night_model(*game) =~= spec_doctor_action(
                                night_model(*old(game)),
                                actor_ref as int,
                            ));
                        }
                    }
                } else {
                    let upgraded = game.players[t].night.defense.strongest(
                        crate::attack_power::DefensePower::Powerful,
                    );
                    game.players[t].night.defense = upgraded;
                    game.players[a].role_state = RoleState::Doctor(
                        Doctor {
                            self_heals_remaining: ds.self_heals_remaining,
                            target_healed_ref: Some(v.target),
                        },
                    );
                    proof {
                        assert(night_model(*game) =~= spec_doctor_action(
                            night_model(*old(game)),
                            actor_ref as int,
                        ));
                    }
                }
            }
        },
        None => {},
    }
}

/// Whether the doctor may select `target_ref` tonight: a first selection of
/// a living participant, while alive; themselves only while self-heals
/// remain.
pub open spec fn spec_can_night_target(g: Game, a: int, t: int) -> bool {
    &&& g.players[a].chosen_targets@.len() == 0
    &&& g.players[a].alive
    &&& g.players[t].alive
    &&& (a == t ==> (g.players[a].role_state matches RoleState::Doctor(ds)
        && ds.self_heals_remaining > 0))
}

/// Whether the doctor may select `target_ref` tonight.
pub fn can_night_target(game: &Game, actor_ref: u8, target_ref: u8) -> (r: bool)
    requires
        (actor_ref as int) < game.players@.len(),
        (target_ref as int) < game.players@.len(),
    ensures
        r == spec_can_night_target(*game, actor_ref as int, target_ref as int),
{
    let self_ok = if actor_ref == target_ref {
        match &game.players[actor_ref as usize].role_state {
            RoleState::Doctor(ds) => ds.self_heals_remaining > 0,
            _ => false,
        }
    } else {
        true
    };
    game.players[actor_ref as usize].chosen_targets.len() == 0
        && game.players[actor_ref as usize].alive && game.players[target_ref as usize].alive
        && self_ok
}

/// One non-harmful visit to the first selected target.
pub fn convert_targets_to_visits(game: &Game, actor_ref: u8, target_refs: Vec<u8>) -> (r: Vec<
    Visit,
>)
    ensures
        r@ == common_role::spec_convert_targets(actor_ref, target_refs@, false),
{
    common_role::convert_targets_to_visits(actor_ref, &target_refs, false)
}

} // verus!
