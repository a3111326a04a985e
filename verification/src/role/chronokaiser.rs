//! The chronokaiser: speeds the game up more with every passing day.

use vstd::prelude::*;

use crate::chat::{lemma_all_group_members, spec_all_indices, ChatEntry, ChatEntryModel, ChatGroup,
    ChatMessage};
use crate::game::{log_view, Game};
use crate::phase::PhaseType;
use crate::resolution::{night_model, NightModel};

verus! {

/// Mutable state of a chronokaiser; the role carries no per-game fields.
#[derive(Clone, Copy, PartialEq, Eq, Structural, Debug)]
pub struct Chronokaiser {}

/// How much faster the game runs, in percent, as a function of the day
/// number alone: nothing on the first day, 35 points more each day after.
pub open spec fn spec_speed_up_percent(day: u8) -> u32 {
    if day >= 1 {
        (35 * ((day - 1) as u32)) as u32
    } else {
        0
    }
}

/// The phase clock after the chronokaiser's speed-up: the remaining time is
/// scaled down by the current speed-up percentage.
pub open spec fn spec_chrono_scaled_time(time: u32, day: u8) -> u32 {
    let q = (time as int * 100) / (100 + spec_speed_up_percent(day) as int);
    if q > time as int {
        time
    } else {
        q as u32
    }
}

/// What the chronokaiser's phase-start hook adds to the log: at discussion
/// start, everybody is told the current speed-up. (The clock change itself
/// is stated separately, on the hook.)
pub open spec fn spec_chrono_phase_message(m: NightModel, a: int, phase: PhaseType) -> NightModel {
    if m.players[a].alive && phase == PhaseType::Discussion {
        NightModel {
            log: m.log.push(
                ChatEntryModel {
                    recipients: spec_all_indices(m.players.len() as int),
                    message: ChatMessage::ChronokaiserSpeedUp {
                        percent: spec_speed_up_percent(m.day),
                    },
                },
            ),
            ..m
        }
    } else {
        m
    }
}

impl Chronokaiser {
    /// How much faster the game currently runs, in percent.
    pub fn get_speed_up_percent(game: &Game) -> (r: u32)
        ensures
            r == spec_speed_up_percent(game.phase_machine.day_number),
    {
        let day = game.day_number();
        if day >= 1 {
            35 * ((day - 1) as u32)
        } else {
            0
        }
    }

    /// The chronokaiser wins by surviving: they have won whenever they are
    /// still alive.
    pub fn won(game: &Game, actor_ref: u8) -> (r: bool)
        requires
            (actor_ref as int) < game.players@.len(),
        ensures
            r == game.players@[actor_ref as int].alive,
    {
        game.players[actor_ref as usize].alive
    }

    /// The chronokaiser's phase-start hook: while alive, it announces the
    /// speed-up at discussion start and scales the freshly set phase clock
    /// down by the current percentage at every phase start.
    pub fn on_phase_start(self, game: &mut Game, actor_ref: u8, phase: PhaseType)
        requires
            old(game).wf(),
            (actor_ref as int) < old(game).num_players(),
        ensures
            final(game).wf(),
            final(game).settings == old(game).settings,
            final(game).roles_to_players == old(game).roles_to_players,
            final(game).ticking == old(game).ticking,
            final(game).outbox == old(game).outbox,
            final(game).saved_controllers == old(game).saved_controllers,
            final(game).phase_machine.current_state == old(game).phase_machine.current_state,
            final(game).phase_machine.day_number == old(game).phase_machine.day_number,
            night_model(*final(game)) == spec_chrono_phase_message(
                night_model(*old(game)),
                actor_ref as int,
                phase,
            ),
            final(game).phase_machine.time_remaining == if old(game).players@[
                actor_ref as int].alive {
                spec_chrono_scaled_time(
                    old(game).phase_machine.time_remaining,
                    old(game).phase_machine.day_number,
                )
            } else {
                old(game).phase_machine.time_remaining
            },
    {
        if !game.players[actor_ref as usize].alive {
            return;
        }
        if matches!(phase, PhaseType::Discussion) {
            let recipients = ChatGroup::All.all_players_in_group(game);
            let percent = Chronokaiser::get_speed_up_percent(game);
            let entry = ChatEntry {
                recipients,
                message: ChatMessage::ChronokaiserSpeedUp { percent },
            };
            let ghost ev = entry@;
            game.chat_log.push(entry);
            proof {
                lemma_all_group_members(*old(game), old(game).players@.len() as int);
                assert(log_view(*game) =~= log_view(*old(game)).push(ev));
                assert(night_model(*game) =~= spec_chrono_phase_message(
                    night_model(*old(game)),
                    actor_ref as int,
                    phase,
                ));
            }
        } else {
            proof {
                assert(night_model(*game) =~= spec_chrono_phase_message(
                    night_model(*old(game)),
                    actor_ref as int,
                    phase,
                ));
            }
        }
        let percent = Chronokaiser::get_speed_up_percent(game);
        let time = game.phase_machine.time_remaining;
        let q = (time as u64 * 100) / (100 + percent as u64);
        let scaled = if q > time as u64 {
            time
        } else {
            q as u32
        };
        game.phase_machine.time_remaining = scaled;
    }
}

} // verus!
