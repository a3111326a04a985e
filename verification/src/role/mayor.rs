//! The mayor: may reveal during the day, tripling their vote's weight.

use vstd::prelude::*;

use crate::chat::{lemma_all_group_members, spec_all_indices, ChatEntry, ChatEntryModel,
    ChatGroup, ChatMessage};
use crate::game::{log_view, Game};
use crate::player::Player;
use crate::resolution::{night_model, NightModel};
use crate::role::RoleState;

verus! {

/// Mutable state of a mayor.
#[derive(Clone, Copy, PartialEq, Eq, Structural, Debug)]
pub struct Mayor {
    /// Whether the mayor has publicly revealed. A revealed mayor's
    /// nomination vote counts as three, and their trial verdict as three.
    pub revealed: bool,
}

/// What the mayor's reveal does: the mayor is marked revealed and everybody
/// is told.
pub open spec fn spec_mayor_reveal(m: NightModel, a: int) -> NightModel {
    NightModel {
        players: m.players.update(
            a,
            Player { role_state: RoleState::Mayor(Mayor { revealed: true }), ..m.players[a] },
        ),
        log: m.log.push(
            ChatEntryModel {
                recipients: spec_all_indices(m.players.len() as int),
                message: ChatMessage::MayorRevealed { player_index: m.players[a].index },
            },
        ),
        ..m
    }
}

impl Mayor {
    /// The mayor's day ability: revealing themselves publicly.
    pub fn do_day_action(self, game: &mut Game, actor_ref: u8, target_ref: u8)
        requires
            old(game).wf(),
            (actor_ref as int) < old(game).num_players(),
            old(game).players@[actor_ref as int].role_state == RoleState::Mayor(self),
        ensures
            final(game).wf(),
            crate::resolution::night_frame(*final(game), *old(game)),
            night_model(*final(game)) == spec_mayor_reveal(
                night_model(*old(game)),
                actor_ref as int,
            ),
    {
        let a = actor_ref as usize;
        let idx = game.players[a].index;
        game.players[a].role_state = RoleState::Mayor(Mayor { revealed: true });
        let recipients = ChatGroup::All.all_players_in_group(game);
        let ghost mid = *game;
        let entry = ChatEntry {
            recipients,
            message: ChatMessage::MayorRevealed { player_index: idx },
        };
        let ghost ev = entry@;
        game.chat_log.push(entry);
        proof {
            lemma_all_group_members(mid, mid.players@.len() as int);
            assert(log_view(*game) =~= log_view(mid).push(ev));
            assert(night_model(*game) =~= spec_mayor_reveal(
                night_model(*old(game)),
                actor_ref as int,
            ));
        }
    }

    /// Whether the mayor may act during the day: only on themselves, only
    /// while alive, only once.
    pub open spec fn spec_can_day_target(self, g: Game, a: int, t: int) -> bool {
        &&& g.phase_machine.current_state.spec_is_day()
        &&& a == t
        &&& g.players[a].alive
        &&& !self.revealed
    }

    /// Whether the mayor may reveal right now.
    pub fn can_day_target(self, game: &Game, actor_ref: u8, target_ref: u8) -> (r: bool)
        requires
            (actor_ref as int) < game.players@.len(),
        ensures
            r == self.spec_can_day_target(*game, actor_ref as int, target_ref as int),
    {
        game.current_phase().is_day() && actor_ref == target_ref
            && game.players[actor_ref as usize].alive && !self.revealed
    }
}

/// The weight of one participant's vote: a revealed mayor votes with the
/// weight of three, everyone else with one.
pub open spec fn spec_voting_power(p: Player) -> u8 {
    if p.role_state matches RoleState::Mayor(ms) && ms.revealed {
        3u8
    } else {
        1u8
    }
}

/// The weight of one participant's vote.
pub fn voting_power(p: &Player) -> (r: u8)
    ensures
        r == spec_voting_power(*p),
{
    match &p.role_state {
        RoleState::Mayor(ms) => if ms.revealed {
            3
        } else {
            1
        },
        _ => 1,
    }
}

} // verus!
