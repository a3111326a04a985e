//! The jailor: detains one participant each night and may execute them.

use vstd::prelude::*;

use crate::attack_power::AttackPower;
use crate::chat::{ChatEntry, ChatEntryModel, ChatGroup, ChatMessage};
use crate::game::{log_view, Game};
use crate::grave::GraveKiller;
use crate::player::Player;
use crate::resolution::{
    night_frame, night_model, spec_first_role_visit, spec_try_night_kill, NightModel,
};
use crate::role::{common_role, spec_end_game_condition, Priority, Role, RoleState};
use crate::end_game_condition::EndGameCondition;
use crate::phase::PhaseType;
use crate::visit::Visit;

verus! {

/// Mutable state of a jailor. Executions are a one-shot resource: they only
/// ever decrease and can never go below zero.
#[derive(Clone, Copy, PartialEq, Eq, Structural, Debug)]
pub struct Jailor {
    /// The participant selected during the day to be jailed tonight.
    pub jailed_target_ref: Option<u8>,
    /// How many executions the jailor may still attempt.
    pub executions_remaining: u8,
}

impl Default for Jailor {
    /// A fresh jailor: nobody jailed, three executions left.
    fn default() -> (s: Self)
        ensures
            s == (Jailor { jailed_target_ref: None, executions_remaining: 3u8 }),
    {
        Jailor { jailed_target_ref: None, executions_remaining: 3 }
    }
}

/// Whether anyone is currently detained.
pub open spec fn spec_any_detained(g: Game) -> bool {
    exists|p: int| 0 <= p < g.players@.len() && (#[trigger] g.players@[p]).night.detained
}

/// Whether anyone is currently detained.
pub fn any_detained(game: &Game) -> (r: bool)
    ensures
        r == spec_any_detained(*game),
{
    let mut p: usize = 0;
    while p < game.players.len()
        invariant
            p <= game.players@.len(),
            forall|q: int| 0 <= q < p ==> !(#[trigger] game.players@[q]).night.detained,
        decreases game.players@.len() - p,
    {
        if game.players[p].night.detained {
            return true;
        }
        p = p + 1;
    }
    false
}

/// What the jailor's Kill-bucket action does to the night: if the first
/// visit's target is detained and executions remain, an unstoppable attack
/// resolves against them, and the attempt spends the resource whatever its
/// outcome — all executions are forfeited if the victim turns out to be
/// town-aligned. Otherwise nothing happens.
pub open spec fn spec_jailor_action(m: NightModel, a: int) -> NightModel {
    match m.players[a].role_state {
        RoleState::Jailor(js) => match spec_first_role_visit(m.visits, a) {
            Some(v) => {
                let t = v.target as int;
                if m.players[a].alive && 0 <= t < m.players.len() && m.players[t].night.detained
                    && js.executions_remaining > 0 {
                    let town = spec_end_game_condition(m.players[t].role_state.spec_role())
                        == EndGameCondition::Town;
                    let m1 = spec_try_night_kill(
                        m,
                        t,
                        GraveKiller::Role(Role::Jailor),
                        AttackPower::Unstoppable,
                    );
                    NightModel {
                        players: m1.players.update(
                            a,
                            Player {
                                role_state: RoleState::Jailor(
                                    Jailor {
                                        jailed_target_ref: js.jailed_target_ref,
                                        executions_remaining: if town {
                                            0u8
                                        } else {
                                            (js.executions_remaining - 1) as u8
                                        },
                                    },
                                ),
                                ..m1.players[a]
                            },
                        ),
                        ..m1
                    }
                } else {
                    m
                }
            },
            None => m,
        },
        _ => m,
    }
}

impl Jailor {
    /// The jailor's night handler: acts only in the Kill bucket. The jailor
    /// cannot be roleblocked.
    pub fn do_night_action(self, game: &mut Game, actor_ref: u8, priority: Priority)
        requires
            old(game).wf(),
            (actor_ref as int) < old(game).num_players(),
            old(game).players@[actor_ref as int].role_state == RoleState::Jailor(self),
        ensures
            final(game).wf(),
            night_frame(*final(game), *old(game)),
            night_model(*final(game)) == if priority is Kill {
                spec_jailor_action(night_model(*old(game)), actor_ref as int)
            } else {
                night_model(*old(game))
            },
    {
        if !matches!(priority, Priority::Kill) {
            return;
        }
        let a = actor_ref as usize;
        match crate::resolution::first_role_visit(game, actor_ref) {
            Some(v) => {
                if game.players[a].alive && (v.target as usize) < game.players.len()
                    && game.players[v.target as usize].night.detained
                    && self.executions_remaining > 0 {
                    let t = v.target as usize;
                    let town = game.players[t].get_role().end_game_condition()
                        == EndGameCondition::Town;
                    game.try_night_kill(
                        v.target,
                        GraveKiller::Role(Role::Jailor),
                        AttackPower::Unstoppable,
                    );
                    game.players[a].role_state = RoleState::Jailor(
                        Jailor {
                            jailed_target_ref: self.jailed_target_ref,
                            executions_remaining: if town {
                                0
                            } else {
                                self.executions_remaining - 1
                            },
                        },
                    );
                    proof {
                        assert(night_model(*game) =~= spec_jailor_action(
                            night_model(*old(game)),
                            actor_ref as int,
                        ));
                    }
                }
            },
            None => {},
        }
    }

    /// Whether the jailor may select `target_ref` for execution tonight:
    /// only the participant they jailed, who must be detained, as a first
    /// selection, after the first day, with executions remaining, while
    /// both live and the jailor is not detained themselves.
    pub open spec fn spec_can_select(self, g: Game, a: int, t: int) -> bool {
        &&& !g.players[a].night.detained
        &&& g.players[t].night.detained
        &&& self.jailed_target_ref == Some(t as u8)
        &&& g.players[a].chosen_targets@.len() == 0
        &&& a != t
        &&& g.players[a].alive
        &&& g.players[t].alive
        &&& g.phase_machine.day_number > 1
        &&& self.executions_remaining > 0
    }

    /// Whether the jailor may select `target_ref` for execution tonight.
    pub fn can_select(self, game: &Game, actor_ref: u8, target_ref: u8) -> (r: bool)
        requires
            (actor_ref as int) < game.players@.len(),
            (target_ref as int) < game.players@.len(),
        ensures
            r == self.spec_can_select(*game, actor_ref as int, target_ref as int),
    {
        let jailed_matches = match self.jailed_target_ref {
            Some(j) => j == target_ref,
            None => false,
        };
        !game.players[actor_ref as usize].night.detained
            && game.players[target_ref as usize].night.detained && jailed_matches
            && game.players[actor_ref as usize].chosen_targets.len() == 0
            && actor_ref != target_ref && game.players[actor_ref as usize].alive
            && game.players[target_ref as usize].alive && game.phase_machine.day_number > 1
            && self.executions_remaining > 0
    }

    /// The jailor's day ability: selecting a participant marks them to be
    /// jailed tonight; selecting the same participant again clears the
    /// choice.
    pub fn do_day_action(self, game: &mut Game, actor_ref: u8, target_ref: u8)
        requires
            old(game).wf(),
            (actor_ref as int) < old(game).num_players(),
            (target_ref as int) < old(game).num_players(),
            old(game).players@[actor_ref as int].role_state == RoleState::Jailor(self),
        ensures
            final(game).wf(),
            night_frame(*final(game), *old(game)),
            final(game).players@ == old(game).players@.update(
                actor_ref as int,
                Player {
                    role_state: RoleState::Jailor(
                        Jailor {
                            jailed_target_ref: if self.jailed_target_ref == Some(target_ref) {
                                None
                            } else {
                                Some(target_ref)
                            },
                            executions_remaining: self.executions_remaining,
                        },
                    ),
                    ..old(game).players@[actor_ref as int]
                },
            ),
            final(game).graves == old(game).graves,
            final(game).chat_log == old(game).chat_log,
            final(game).visits == old(game).visits,
            final(game).pending_kills == old(game).pending_kills,
            final(game).syndicate_gun_item == old(game).syndicate_gun_item,
    {
        let a = actor_ref as usize;
        let same = match self.jailed_target_ref {
            Some(j) => j == target_ref,
            None => false,
        };
        game.players[a].role_state = RoleState::Jailor(
            Jailor {
                jailed_target_ref: if same {
                    None
                } else {
                    Some(target_ref)
                },
                executions_remaining: self.executions_remaining,
            },
        );
    }

    /// Whether the jailor may pick `target_ref` to jail: another living
    /// participant, during the day.
    pub open spec fn spec_can_day_target(self, g: Game, a: int, t: int) -> bool {
        &&& g.phase_machine.current_state.spec_is_day()
        &&& a != t
        &&& g.players[a].alive
        &&& g.players[t].alive
    }

    /// Whether the jailor may pick `target_ref` to jail.
    pub fn can_day_target(self, game: &Game, actor_ref: u8, target_ref: u8) -> (r: bool)
        requires
            (actor_ref as int) < game.players@.len(),
            (target_ref as int) < game.players@.len(),
        ensures
            r == self.spec_can_day_target(*game, actor_ref as int, target_ref as int),
    {
        game.current_phase().is_day() && actor_ref != target_ref
            && game.players[actor_ref as usize].alive && game.players[target_ref as usize].alive
    }

    /// One harmful visit to the first selected target.
    pub fn convert_selection_to_visits(self, game: &Game, actor_ref: u8, target_refs: Vec<u8>) -> (
        r: Vec<Visit>)
        ensures
            r@ == common_role::spec_convert_targets(actor_ref, target_refs@, true),
    {
        common_role::convert_targets_to_visits(actor_ref, &target_refs, true)
    }

    /// The channels the jailor may speak in right now: the common rules,
    /// plus the jail channel at night while someone is detained.
    pub fn get_current_send_chat_groups(self, game: &Game, actor_ref: u8) -> (r: Vec<ChatGroup>)
        requires
            (actor_ref as int) < game.players@.len(),
        ensures
            r@ == common_role::spec_send_groups(
                *game,
                actor_ref as int,
                if spec_any_detained(*game) {
                    seq![ChatGroup::Jail]
                } else {
                    Seq::empty()
                },
            ),
    {
        let mut night_groups: Vec<ChatGroup> = Vec::new();
        if any_detained(game) {
            night_groups.push(ChatGroup::Jail);
        }
        proof {
            if spec_any_detained(*game) {
                assert(night_groups@ =~= seq![ChatGroup::Jail]);
            } else {
                assert(night_groups@ =~= Seq::<ChatGroup>::empty());
            }
        }
        common_role::get_current_send_chat_groups(game, actor_ref, night_groups)
    }

    /// The channels the jailor currently receives: the common rules, plus
    /// the jail channel at night while someone is detained and the jailor
    /// lives.
    pub fn get_current_receive_chat_groups(self, game: &Game, actor_ref: u8) -> (r: Vec<ChatGroup>)
        requires
            (actor_ref as int) < game.players@.len(),
        ensures
            r@ == common_role::spec_receive_groups(
                *game,
                actor_ref as int,
                if game.phase_machine.current_state.spec_is_night()
                    && game.players@[actor_ref as int].alive && spec_any_detained(*game) {
                    seq![ChatGroup::Jail]
                } else {
                    Seq::empty()
                },
            ),
    {
        let mut extra: Vec<ChatGroup> = Vec::new();
        if game.current_phase().is_night() && game.players[actor_ref as usize].alive
            && any_detained(game) {
            extra.push(ChatGroup::Jail);
        }
        proof {
            if game.phase_machine.current_state.spec_is_night()
                && game.players@[actor_ref as int].alive && spec_any_detained(*game) {
                assert(extra@ =~= seq![ChatGroup::Jail]);
            } else {
                assert(extra@ =~= Seq::<ChatGroup>::empty());
            }
        }
        common_role::get_current_receive_chat_groups(game, actor_ref, extra)
    }
}

/// What the jailor's phase-start hook does: at night start, the jailed
/// participant is detained and the jailor is told, or the stale choice is
/// dropped if either party has died; at obituary start, the choice is
/// cleared.
pub open spec fn spec_jailor_phase_start(m: NightModel, a: int, phase: PhaseType) -> NightModel {
    match m.players[a].role_state {
        RoleState::Jailor(js) => match phase {
            PhaseType::Night => {
                match js.jailed_target_ref {
                    Some(j) => {
                        let t = j as int;
                        if 0 <= t < m.players.len() && m.players[t].alive && m.players[a].alive {
                            NightModel {
                                players: m.players.update(
                                    t,
                                    Player {
                                        night: crate::player::NightVars {
                                            detained: true,
                                            ..m.players[t].night
                                        },
                                        ..m.players[t]
                                    },
                                ),
                                log: m.log.push(
                                    ChatEntryModel {
                                        recipients: seq![m.players[a].index],
                                        message: ChatMessage::JailedTarget { player_index: j },
                                    },
                                ),
                                ..m
                            }
                        } else {
                            NightModel {
                                players: m.players.update(
                                    a,
                                    Player {
                                        role_state: RoleState::Jailor(
                                            Jailor {
                                                jailed_target_ref: None,
                                                executions_remaining: js.executions_remaining,
                                            },
                                        ),
                                        ..m.players[a]
                                    },
                                ),
                                ..m
                            }
                        }
                    },
                    None => m,
                }
            },
            PhaseType::Obituary => NightModel {
                players: m.players.update(
                    a,
                    Player {
                        role_state: RoleState::Jailor(
                            Jailor {
                                jailed_target_ref: None,
                                executions_remaining: js.executions_remaining,
                            },
                        ),
                        ..m.players[a]
                    },
                ),
                ..m
            },
            _ => m,
        },
        _ => m,
    }
}

impl Jailor {
    /// The jailor's phase-start hook.
    pub fn on_phase_start(self, game: &mut Game, actor_ref: u8, phase: PhaseType)
        requires
            old(game).wf(),
            (actor_ref as int) < old(game).num_players(),
            old(game).players@[actor_ref as int].role_state == RoleState::Jailor(self),
        ensures
            final(game).wf(),
            night_frame(*final(game), *old(game)),
            night_model(*final(game)) == spec_jailor_phase_start(
                night_model(*old(game)),
                actor_ref as int,
                phase,
            ),
    {
        let a = actor_ref as usize;
        match phase {
            PhaseType::Night => {
                match self.jailed_target_ref {
                    Some(j) => {
                        if (j as usize) < game.players.len() && game.players[j as usize].alive
                            && game.players[a].alive {
                            let t = j as usize;
                            game.players[t].night.detained = true;
                            let idx = game.players[a].index;
                            let mut recipients: Vec<u8> = Vec::new();
                            recipients.push(idx);
                            let entry = ChatEntry {
                                recipients,
                                message: ChatMessage::JailedTarget { player_index: j },
                            };
                            let ghost ev = entry@;
                            game.chat_log.push(entry);
                            proof {
                                assert(log_view(*game) =~= log_view(*old(game)).push(ev));
                                assert(night_model(*game) =~= spec_jailor_phase_start(
                                    night_model(*old(game)),
                                    actor_ref as int,
                                    phase,
                                ));
                            }
                        } else {
                            game.players[a].role_state = RoleState::Jailor(
                                Jailor {
                                    jailed_target_ref: None,
                                    executions_remaining: self.executions_remaining,
                                },
                            );
                            proof {
                                assert(night_model(*game) =~= spec_jailor_phase_start(
                                    night_model(*old(game)),
                                    actor_ref as int,
                                    phase,
                                ));
                            }
                        }
                    },
                    None => {},
                }
            },
            PhaseType::Obituary => {
                game.players[a].role_state = RoleState::Jailor(
                    Jailor {
                        jailed_target_ref: None,
                        executions_remaining: self.executions_remaining,
                    },
                );
                proof {
                    assert(night_model(*game) =~= spec_jailor_phase_start(
                        night_model(*old(game)),
                        actor_ref as int,
                        phase,
                    ));
                }
            },
            _ => {},
        }
    }
}

} // verus!
