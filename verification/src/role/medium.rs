//! The medium: speaks with the dead channel while alive at night.

use vstd::prelude::*;

use crate::chat::ChatGroup;
use crate::game::Game;
use crate::role::common_role;

verus! {

/// The channels the medium may speak in right now: the common day rules,
/// and the dead channel at night.
pub fn get_current_chat_groups(game: &Game, actor_ref: u8) -> (r: Vec<ChatGroup>)
    requires
        (actor_ref as int) < game.players@.len(),
    ensures
        r@ == common_role::spec_send_groups(*game, actor_ref as int, seq![ChatGroup::Dead]),
{
    let mut night_groups: Vec<ChatGroup> = Vec::new();
    night_groups.push(ChatGroup::Dead);
    common_role::get_current_send_chat_groups(game, actor_ref, night_groups)
}

/// The channels the medium currently receives: the common rules, plus the
/// dead channel during the night seance while the medium lives. The dead
/// channel itself holds only the dead; this is the medium's one window
/// into it.
pub fn get_current_receive_chat_groups(game: &Game, actor_ref: u8) -> (r: Vec<ChatGroup>)
    requires
        (actor_ref as int) < game.players@.len(),
    ensures
        r@ == common_role::spec_receive_groups(
            *game,
            actor_ref as int,
            if game.phase_machine.current_state.spec_is_night()
                && game.players@[actor_ref as int].alive {
                seq![ChatGroup::Dead]
            } else {
                Seq::empty()
            },
        ),
{
    let mut extra: Vec<ChatGroup> = Vec::new();
    if game.current_phase().is_night() && game.players[actor_ref as usize].alive {
        extra.push(ChatGroup::Dead);
    }
    proof {
        if game.phase_machine.current_state.spec_is_night()
            && game.players@[actor_ref as int].alive {
            assert(extra@ =~= seq![ChatGroup::Dead]);
        } else {
            assert(extra@ =~= Seq::<ChatGroup>::empty());
        }
    }
    common_role::get_current_receive_chat_groups(game, actor_ref, extra)
}

} // verus!
