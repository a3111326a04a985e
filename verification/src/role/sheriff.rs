//! The sheriff: checks one participant's apparent alignment at night.

use vstd::prelude::*;

use crate::chat::{ChatEntry, ChatEntryModel, ChatGroup, ChatMessage, NightInformation};
use crate::game::{log_view, Game};
use crate::resolution::{night_frame, night_model, spec_first_role_visit, NightModel};
use crate::role::{common_role, Priority};
use crate::visit::Visit;

verus! {

/// What the sheriff's Investigative-bucket action does to the night: the
/// sheriff privately learns whether the first visit's target currently
/// reads as suspicious. A dead or roleblocked sheriff, or one with no
/// visit, learns nothing.
pub open spec fn spec_sheriff_action(m: NightModel, a: int) -> NightModel {
    match spec_first_role_visit(m.visits, a) {
        Some(v) => {
            let t = v.target as int;
            if m.players[a].alive && !m.players[a].night.roleblocked && 0 <= t
                < m.players.len() {
                NightModel {
                    log: m.log.push(
                        ChatEntryModel {
                            recipients: seq![m.players[a].index],
                            message: ChatMessage::NightInformation {
                                night_information: NightInformation::SheriffResult {
                                    suspicious: m.players[t].night.suspicious,
                                },
                            },
                        },
                    ),
                    ..m
                }
            } else {
                m
            }
        },
        None => m,
    }
}

/// The sheriff's night handler: acts only in the Investigative bucket, and
/// a roleblock applied in an earlier bucket makes it a no-op.
pub fn do_night_action(game: &mut Game, actor_ref: u8, priority: Priority)
    requires
        old(game).wf(),
        (actor_ref as int) < old(game).num_players(),
    ensures
        final(game).wf(),
        night_frame(*final(game), *old(game)),
        night_model(*final(game)) == if priority is Investigative {
            spec_sheriff_action(night_model(*old(game)), actor_ref as int)
        } else {
            night_model(*old(game))
        },
{
    if !matches!(priority, Priority::Investigative) {
        return;
    }
    match crate::resolution::first_role_visit(game, actor_ref) {
        Some(v) => {
            let a = actor_ref as usize;
            if game.players[a].alive && !game.players[a].night.roleblocked && (v.target as usize)
                < game.players.len() {
                let t = v.target as usize;
                let suspicious = game.players[t].night.suspicious;
                let idx = game.players[a].index;
                let mut recipients: Vec<u8> = Vec::new();
                recipients.push(idx);
                let entry = ChatEntry {
                    recipients,
                    message: ChatMessage::NightInformation {
                        night_information: NightInformation::SheriffResult { suspicious },
                    },
                };
                let ghost ev = entry@;
                game.chat_log.push(entry);
                proof {
                    assert(log_view(*game) =~= log_view(*old(game)).push(ev));
                    assert(night_model(*game) =~= spec_sheriff_action(
                        night_model(*old(game)),
                        actor_ref as int,
                    ));
                }
            }
        },
        None => {},
    }
}

/// Whether the sheriff may select `target_ref` tonight: a first selection
/// of another living participant, while alive.
pub open spec fn spec_can_night_target(g: Game, a: int, t: int) -> bool {
    &&& a != t
    &&& g.players[a].chosen_targets@.len() == 0
    &&& g.players[a].alive
    &&& g.players[t].alive
}

/// Whether the sheriff may select `target_ref` tonight.
pub fn can_night_target(game: &Game, actor_ref: u8, target_ref: u8) -> (r: bool)
    requires
        (actor_ref as int) < game.players@.len(),
        (target_ref as int) < game.players@.len(),
    ensures
        r == spec_can_night_target(*game, actor_ref as int, target_ref as int),
{
    actor_ref != target_ref && game.players[actor_ref as usize].chosen_targets.len() == 0
        && game.players[actor_ref as usize].alive && game.players[target_ref as usize].alive
}

/// The sheriff has no day ability.
pub fn do_day_action(game: &mut Game, actor_ref: u8, target_ref: u8)
    ensures
        *final(game) == *old(game),
{
}

/// The sheriff has no day ability.
pub fn can_day_target(game: &Game, actor_ref: u8, target_ref: u8) -> (r: bool)
    ensures
        r == false,
{
    false
}

/// One non-harmful visit to the first selected target.
pub fn convert_targets_to_visits(game: &Game, actor_ref: u8, target_refs: Vec<u8>) -> (r: Vec<
    Visit,
>)
    ensures
        r@ == common_role::spec_convert_targets(actor_ref, target_refs@, false),
{
    common_role::convert_targets_to_visits(actor_ref, &target_refs, false)
}

/// The channels the sheriff may speak in right now: the common day rules,
/// and nothing at night.
pub fn get_current_chat_groups(game: &Game, actor_ref: u8) -> (r: Vec<ChatGroup>)
    requires
        (actor_ref as int) < game.players@.len(),
    ensures
        r@ == common_role::spec_send_groups(*game, actor_ref as int, Seq::empty()),
{
    let night_groups: Vec<ChatGroup> = Vec::new();
    common_role::get_current_send_chat_groups(game, actor_ref, night_groups)
}

/// The sheriff reacts to no phase start.
pub fn on_phase_start(game: &mut Game, actor_ref: u8, phase: crate::phase::PhaseType)
    ensures
        *final(game) == *old(game),
{
}

} // verus!
