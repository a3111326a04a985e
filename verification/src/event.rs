//! Phase-start notifications: every participant's role hook, in stable
//! index order.

use vstd::prelude::*;

use crate::game::Game;
use crate::phase::PhaseType;
use crate::player::Player;
use crate::resolution::{night_model, NightModel};
use crate::role::{spec_role_phase_start, Role};

verus! {

/// The phase-start hooks of the first `k` participants, applied in stable
/// index order.
pub open spec fn spec_phase_hooks_upto(m: NightModel, phase: PhaseType, k: int) -> NightModel
    decreases k,
{
    if k <= 0 {
        m
    } else {
        spec_role_phase_start(spec_phase_hooks_upto(m, phase, k - 1), k - 1, phase)
    }
}

/// The phase-start hooks of every participant, in stable index order.
pub open spec fn spec_phase_hooks(m: NightModel, phase: PhaseType) -> NightModel {
    spec_phase_hooks_upto(m, phase, m.players.len() as int)
}

/// No phase-start hook changes the roster's size, anyone's alive flag, or
/// anyone's role tag.
pub proof fn lemma_phase_hook_preserves_shape(m: NightModel, a: int, phase: PhaseType)
    requires
        0 <= a < m.players.len(),
    ensures
        spec_role_phase_start(m, a, phase).players.len() == m.players.len(),
        forall|b: int|
            0 <= b < m.players.len() ==> (#[trigger] spec_role_phase_start(
                m,
                a,
                phase,
            ).players[b]).alive == m.players[b].alive,
        forall|b: int|
            0 <= b < m.players.len() ==> (#[trigger] spec_role_phase_start(
                m,
                a,
                phase,
            ).players[b]).role_state.spec_role() == m.players[b].role_state.spec_role(),
        spec_role_phase_start(m, a, phase).gun == m.gun,
        spec_role_phase_start(m, a, phase).day == m.day,
{
}

/// The clock after the phase-start hooks of the first `k` participants:
/// each living chronokaiser, in index order, scales the remaining time.
pub open spec fn spec_hooks_time_upto(players: Seq<Player>, day: u8, t0: u32, k: int) -> u32
    decreases k,
{
    if k <= 0 {
        t0
    } else {
        let before = spec_hooks_time_upto(players, day, t0, k - 1);
        if players[k - 1].role_state.spec_role() == Role::Chronokaiser && players[k - 1].alive {
            crate::role::chronokaiser::spec_chrono_scaled_time(before, day)
        } else {
            before
        }
    }
}

/// The clock after every participant's phase-start hook.
pub open spec fn spec_hooks_time(players: Seq<Player>, day: u8, t0: u32) -> u32 {
    spec_hooks_time_upto(players, day, t0, players.len() as int)
}

/// A phase-change notification to every participant's role, in stable
/// index order. The event value carries the phase it announces.
#[must_use]
pub struct OnPhaseStart {
    pub phase: PhaseType,
}

impl OnPhaseStart {
    /// An event announcing the start of `phase`.
    pub fn new(phase: PhaseType) -> (e: Self)
        ensures
            e.phase == phase,
    {
        OnPhaseStart { phase }
    }

    /// Invokes every participant's role hook, in stable index order. The
    /// roster, log, graves and gun change exactly as the hook fold says;
    /// the clock is scaled by each living chronokaiser in turn.
    pub fn invoke(self, game: &mut Game)
        requires
            old(game).wf(),
        ensures
            final(game).wf(),
            final(game).settings == old(game).settings,
            final(game).roles_to_players == old(game).roles_to_players,
            final(game).ticking == old(game).ticking,
            final(game).outbox == old(game).outbox,
            final(game).saved_controllers == old(game).saved_controllers,
            final(game).phase_machine.current_state == old(game).phase_machine.current_state,
            final(game).phase_machine.day_number == old(game).phase_machine.day_number,
            night_model(*final(game)) == spec_phase_hooks(night_model(*old(game)), self.phase),
            final(game).phase_machine.time_remaining == spec_hooks_time(
                old(game).players@,
                old(game).phase_machine.day_number,
                old(game).phase_machine.time_remaining,
            ),
    {
        let ghost m0 = night_model(*old(game));
        let ghost players0 = old(game).players@;
        let ghost day0 = old(game).phase_machine.day_number;
        let ghost t0 = old(game).phase_machine.time_remaining;
        let n = game.players.len();
        let mut i: usize = 0;
        while i < n
            invariant
                game.wf(),
                game.settings == old(game).settings,
                game.roles_to_players == old(game).roles_to_players,
                game.ticking == old(game).ticking,
                game.outbox == old(game).outbox,
                game.saved_controllers == old(game).saved_controllers,
                game.phase_machine.current_state == old(game).phase_machine.current_state,
                game.phase_machine.day_number == day0,
                m0 == night_model(*old(game)),
                players0 == old(game).players@,
                n == players0.len(),
                i <= n,
                game.players@.len() == n,
                night_model(*game) == spec_phase_hooks_upto(m0, self.phase, i as int),
                game.phase_machine.time_remaining == spec_hooks_time_upto(
                    players0,
                    day0,
                    t0,
                    i as int,
                ),
                forall|b: int|
                    0 <= b < n ==> (#[trigger] game.players@[b]).alive == players0[b].alive,
                forall|b: int|
                    0 <= b < n ==> (#[trigger] game.players@[b]).role_state.spec_role()
                        == players0[b].role_state.spec_role(),
            decreases n - i,
        {
            let role = self_role_at(game, i);
            let ghost mpre = night_model(*game);
            role.on_phase_start(game, i as u8, self.phase);
            proof {
                lemma_phase_hook_preserves_shape(mpre, i as int, self.phase);
            }
            i = i + 1;
        }
    }
}

/// The role tag of the participant at `i`.
fn self_role_at(game: &Game, i: usize) -> (r: Role)
    requires
        i < game.players@.len(),
    ensures
        r == game.players@[i as int].role_state.spec_role(),
{
    game.players[i].get_role()
}

} // verus!
