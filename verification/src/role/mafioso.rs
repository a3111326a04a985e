//! The mafioso: carries out the syndicate's basic attack in the Kill bucket.

use vstd::prelude::*;

use crate::attack_power::AttackPower;
use crate::game::Game;
use crate::grave::GraveKiller;
use crate::resolution::{
    night_frame, night_model, spec_first_role_visit, spec_try_night_kill, NightModel,
};
use crate::role::{common_role, spec_faction, Faction, Priority};
use crate::visit::Visit;

verus! {

/// What the mafioso's Kill-bucket action does to the night: a basic attack
/// on the first visit's target, adjudicated against the target's defense at
/// this moment. A dead or roleblocked mafioso, or one with no visit, does
/// nothing.
pub open spec fn spec_mafioso_action(m: NightModel, a: int) -> NightModel {
    match spec_first_role_visit(m.visits, a) {
        Some(v) => {
            if m.players[a].alive && !m.players[a].night.roleblocked {
                spec_try_night_kill(
                    m,
                    v.target as int,
                    GraveKiller::Faction(Faction::Mafia),
                    AttackPower::Basic,
                )
            } else {
                m
            }
        },
        None => m,
    }
}

/// The mafioso's night handler: acts only in the Kill bucket, and a
/// roleblock applied in an earlier bucket makes it a no-op.
pub fn do_night_action(game: &mut Game, actor_ref: u8, priority: Priority)
    requires
        old(game).wf(),
        (actor_ref as int) < old(game).num_players(),
    ensures
        final(game).wf(),
        night_frame(*final(game), *old(game)),
        night_model(*final(game)) == if priority is Kill {
            spec_mafioso_action(night_model(*old(game)), actor_ref as int)
        } else {
            night_model(*old(game))
        },
{
    if !matches!(priority, Priority::Kill) {
        return;
    }
    match crate::resolution::first_role_visit(game, actor_ref) {
        Some(v) => {
            let a = actor_ref as usize;
            if game.players[a].alive && !game.players[a].night.roleblocked {
                game.try_night_kill(
                    v.target,
                    GraveKiller::Faction(Faction::Mafia),
                    AttackPower::Basic,
                );
            }
        },
        None => {},
    }
}

/// Whether the mafioso may select `target_ref` tonight: a first selection
/// of a living non-mafia participant other than themselves, while alive.
pub open spec fn spec_can_night_target(g: Game, a: int, t: int) -> bool {
    &&& a != t
    &&& g.players[a].chosen_targets@.len() == 0
    &&& g.players[a].alive
    &&& g.players[t].alive
    &&& spec_faction(g.players[t].role_state.spec_role()) != Faction::Mafia
}

/// Whether the mafioso may select `target_ref` tonight.
pub fn can_night_target(game: &Game, actor_ref: u8, target_ref: u8) -> (r: bool)
    requires
        (actor_ref as int) < game.players@.len(),
        (target_ref as int) < game.players@.len(),
    ensures
        r == spec_can_night_target(*game, actor_ref as int, target_ref as int),
{
    actor_ref != target_ref && game.players[actor_ref as usize].chosen_targets.len() == 0
        && game.players[actor_ref as usize].alive && game.players[target_ref as usize].alive
        && !(game.players[target_ref as usize].get_role().faction() == Faction::Mafia)
}

/// One harmful visit to the first selected target.
pub fn convert_targets_to_visits(game: &Game, actor_ref: u8, target_refs: Vec<u8>) -> (r: Vec<
    Visit,
>)
    ensures
        r@ == common_role::spec_convert_targets(actor_ref, target_refs@, true),
{
    common_role::convert_targets_to_visits(actor_ref, &target_refs, true)
}

} // verus!
