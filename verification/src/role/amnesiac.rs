//! The amnesiac: holds no win condition while more than one of them lives.

use vstd::prelude::*;

use crate::game::Game;
use crate::role::Role;

verus! {

/// How many living amnesiacs there are among the first `k` participants.
pub open spec fn spec_living_amnesiacs_upto(g: Game, k: int) -> int
    decreases k,
{
    if k <= 0 {
        0
    } else {
        spec_living_amnesiacs_upto(g, k - 1) + if g.players[k - 1].alive && g.players[
            k - 1].role_state.spec_role() == Role::Amnesiac {
            1int
        } else {
            0int
        }
    }
}

/// How many living amnesiacs there are.
pub open spec fn spec_living_amnesiacs(g: Game) -> int {
    spec_living_amnesiacs_upto(g, g.players@.len() as int)
}

/// How many living amnesiacs there are. Two or more living amnesiacs keep
/// the game running even when no win classification remains.
pub fn living_amnesiacs(game: &Game) -> (r: usize)
    requires
        game.wf(),
    ensures
        r as int == spec_living_amnesiacs(*game),
{
    let mut count: usize = 0;
    let mut i: usize = 0;
    while i < game.players.len()
        invariant
            game.wf(),
            i <= game.players@.len(),
            count as int == spec_living_amnesiacs_upto(*game, i as int),
            count <= i,
        decreases game.players@.len() - i,
    {
        if game.players[i].alive && matches!(game.players[i].get_role(), Role::Amnesiac) {
            count = count + 1;
        }
        i = i + 1;
    }
    count
}

} // verus!
