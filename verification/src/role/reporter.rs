//! The reporter: interviews a participant at night and may publish a report.

use vstd::prelude::*;

use crate::ability_input::{
    AbilitySelection, AvailableAbilitySelection, ControllerID, ControllerParameters,
    ControllerParametersMap, spec_selection_boolean, spec_selection_player_option,
    spec_selection_text,
};
use crate::chat::{
    lemma_all_group_members, lemma_mafia_group_members, spec_all_indices, spec_mafia_members,
    ChatEntry, ChatEntryModel, ChatGroup, ChatMessage,
};
use crate::game::{log_view, Game};
use crate::phase::PhaseType;
use crate::player::Player;
use crate::resolution::{night_frame, night_model, NightModel};
use crate::role::{common_role, spec_faction, Faction, Priority, Role, RoleState};

verus! {

/// Mutable state of a reporter.
#[derive(Clone, Copy, PartialEq, Eq, Structural, Debug)]
pub struct Reporter {
    /// The participant currently being interviewed, while the interview
    /// lasts.
    pub interviewed_target: Option<u8>,
}

impl Reporter {
    /// The stored free-text report of the reporter seated at `actor_ref`,
    /// if their report controller is declared.
    pub fn get_report(game: &Game, actor_ref: u8) -> (r: Option<String>)
        requires
            game.wf(),
        ensures
            r == spec_selection_text(
                game.saved_controllers.entries@,
                ControllerID::Role { player: actor_ref, role: Role::Reporter, id: 2u8 },
            ),
    {
        game.saved_controllers.get_controller_current_selection_string(
            ControllerID::role(actor_ref, Role::Reporter, 2),
        )
    }

    /// Whether the reporter seated at `actor_ref` has chosen to publish.
    pub fn get_public(game: &Game, actor_ref: u8) -> (r: bool)
        requires
            game.wf(),
        ensures
            r == (spec_selection_boolean(
                game.saved_controllers.entries@,
                ControllerID::Role { player: actor_ref, role: Role::Reporter, id: 1u8 },
            ) == Some(true)),
    {
        match game.saved_controllers.get_controller_current_selection_boolean(
            ControllerID::role(actor_ref, Role::Reporter, 1),
        ) {
            Some(b) => b,
            None => false,
        }
    }
}

/// The choices the reporter's interview controller offers: skipping the
/// interview, or any living participant other than the reporter.
pub open spec fn spec_interview_choice(g: Game, actor: u8, x: Option<u8>) -> bool {
    match x {
        None => true,
        Some(q) => {
            &&& (q as int) < g.players@.len()
            &&& g.players@[q as int].alive
            &&& q != actor
        },
    }
}

/// What the reporter's Investigative-bucket action does to the night: a
/// living, unblocked, unsilenced reporter who chose to publish broadcasts
/// their stored report to everybody. Otherwise nothing happens.
pub open spec fn spec_reporter_action(m: NightModel, a: int) -> NightModel {
    let idx = m.players[a].index;
    if m.players[a].alive && !m.players[a].night.roleblocked && !m.players[a].night.silenced
        && spec_selection_boolean(
        m.controllers,
        ControllerID::Role { player: idx, role: Role::Reporter, id: 1u8 },
    ) == Some(true) {
        match spec_selection_text(
            m.controllers,
            ControllerID::Role { player: idx, role: Role::Reporter, id: 2u8 },
        ) {
            Some(report) => NightModel {
                log: m.log.push(
                    ChatEntryModel {
                        recipients: spec_all_indices(m.players.len() as int),
                        message: ChatMessage::ReporterReport { report },
                    },
                ),
                ..m
            },
            None => m,
        }
    } else {
        m
    }
}

impl Reporter {
    /// The reporter's night handler: acts only in the Investigative bucket,
    /// and a roleblock applied in an earlier bucket makes it a no-op.
    pub fn do_night_action(self, game: &mut Game, actor_ref: u8, priority: Priority)
        requires
            old(game).wf(),
            (actor_ref as int) < old(game).num_players(),
        ensures
            final(game).wf(),
            night_frame(*final(game), *old(game)),
            night_model(*final(game)) == if priority is Investigative {
                spec_reporter_action(night_model(*old(game)), actor_ref as int)
            } else {
                night_model(*old(game))
            },
    {
        if !matches!(priority, Priority::Investigative) {
            return;
        }
        let a = actor_ref as usize;
        proof {
            assert(old(game).players@[actor_ref as int].index == actor_ref as int);
        }
        if game.players[a].alive && !game.players[a].night.roleblocked
            && !game.players[a].night.silenced && Reporter::get_public(game, actor_ref) {
            match Reporter::get_report(game, actor_ref) {
                Some(report) => {
                    let recipients = ChatGroup::All.all_players_in_group(game);
                    let entry = ChatEntry {
                        recipients,
                        message: ChatMessage::ReporterReport { report },
                    };
                    let ghost ev = entry@;
                    game.chat_log.push(entry);
                    proof {
                        lemma_all_group_members(*old(game), old(game).players@.len() as int);
                        assert(log_view(*game) =~= log_view(*old(game)).push(ev));
                        assert(night_model(*game) =~= spec_reporter_action(
                            night_model(*old(game)),
                            actor_ref as int,
                        ));
                    }
                },
                None => {},
            }
        }
    }

    /// The reporter's controllers: the interview pick (one living
    /// participant other than themselves, cleared at night start), the
    /// publish switch, and the free-text report. All are usable only while
    /// the reporter lives, and only by them.
    pub fn controller_parameters_map(game: &Game, actor_ref: u8) -> (r: ControllerParametersMap)
        requires
            game.wf(),
            (actor_ref as int) < game.num_players(),
        ensures
            r.wf(),
            forall|x: ControllerID|
                #[trigger] r.spec_get(x) is Some <==> (x == ControllerID::Role {
                    player: actor_ref,
                    role: Role::Reporter,
                    id: 0u8,
                } || x == ControllerID::Role { player: actor_ref, role: Role::Reporter, id: 1u8 }
                    || x == ControllerID::Role {
                    player: actor_ref,
                    role: Role::Reporter,
                    id: 2u8,
                }),
            (r.spec_get(ControllerID::Role { player: actor_ref, role: Role::Reporter, id: 0u8 })
                matches Some(p) && (p.available matches
                AvailableAbilitySelection::OnePlayerOption { available } && (forall|x: Option<u8>|
                available@.contains(x) <==> spec_interview_choice(*game, actor_ref, x)))
                && (p.selection matches
                AbilitySelection::OnePlayerOption { selection: sel } && sel is None)
                && p.grayed_out == !game.players@[actor_ref as int].alive && p.reset_on_phase
                == Some(PhaseType::Night) && p.allowed_players@ == seq![actor_ref]),
            (r.spec_get(ControllerID::Role { player: actor_ref, role: Role::Reporter, id: 1u8 })
                matches Some(p) && p.available is Boolean && (p.selection matches
                AbilitySelection::Boolean { selection: sel } && sel == false) && p.grayed_out
                == !game.players@[actor_ref as int].alive && p.reset_on_phase is None
                && p.allowed_players@ == seq![actor_ref]),
            (r.spec_get(ControllerID::Role { player: actor_ref, role: Role::Reporter, id: 2u8 })
                matches Some(p) && p.available is Text && (p.selection matches
                AbilitySelection::Text { selection: sel } && sel@ == Seq::<char>::empty())
                && p.grayed_out == !game.players@[actor_ref as int].alive && p.reset_on_phase
                is None && p.allowed_players@ == seq![actor_ref]),
    {
        let alive = game.players[actor_ref as usize].alive;
        let mut available: Vec<Option<u8>> = Vec::new();
        let mut i: usize = 0;
        while i < game.players.len()
            invariant
                i <= game.players@.len(),
                game.players@.len() <= 255,
                forall|x: Option<u8>|
                    #[trigger] available@.contains(x) <==> (x matches Some(q) && (q as int) < i
                        && spec_interview_choice(*game, actor_ref, x)),
            decreases game.players@.len() - i,
        {
            let ghost pre = available@;
            if game.players[i].alive && (i as u8) != actor_ref {
                available.push(Some(i as u8));
            }
            proof {
                assert forall|x: Option<u8>|
                    #[trigger] available@.contains(x) <==> (x matches Some(q) && (q as int) < i
                        + 1 && spec_interview_choice(*game, actor_ref, x)) by {
                    crate::ability_input::lemma_contains_push(pre, Some(i as u8), x);
                }
            }
            i = i + 1;
        }
        let ghost pre2 = available@;
        available.push(None);
        proof {
            assert forall|x: Option<u8>|
                #[trigger] available@.contains(x) <==> spec_interview_choice(
                    *game,
                    actor_ref,
                    x,
                ) by {
                crate::ability_input::lemma_contains_push(pre2, None, x);
            }
        }
        let mut owner: Vec<u8> = Vec::new();
        owner.push(actor_ref);
        let mut owner1: Vec<u8> = Vec::new();
        owner1.push(actor_ref);
        let mut owner2: Vec<u8> = Vec::new();
        owner2.push(actor_ref);
        let mut r = ControllerParametersMap::new();
        r.insert_controller(
            ControllerID::role(actor_ref, Role::Reporter, 0),
            ControllerParameters {
                available: AvailableAbilitySelection::OnePlayerOption { available },
                selection: AbilitySelection::OnePlayerOption { selection: None },
                grayed_out: !alive,
                reset_on_phase: Some(PhaseType::Night),
                allowed_players: owner,
            },
        );
        r.insert_controller(
            ControllerID::role(actor_ref, Role::Reporter, 1),
            ControllerParameters {
                available: AvailableAbilitySelection::Boolean,
                selection: AbilitySelection::Boolean { selection: false },
                grayed_out: !alive,
                reset_on_phase: None,
                allowed_players: owner1,
            },
        );
        r.insert_controller(
            ControllerID::role(actor_ref, Role::Reporter, 2),
            ControllerParameters {
                available: AvailableAbilitySelection::Text,
                selection: AbilitySelection::Text { selection: String::new() },
                grayed_out: !alive,
                reset_on_phase: None,
                allowed_players: owner2,
            },
        );
        r
    }

    /// The channels the reporter may speak in right now: the common rules,
    /// plus the interview channel at night while their interviewee lives.
    pub fn get_current_send_chat_groups(self, game: &Game, actor_ref: u8) -> (r: Vec<ChatGroup>)
        requires
            game.wf(),
            (actor_ref as int) < game.players@.len(),
        ensures
            r@ == common_role::spec_send_groups(
                *game,
                actor_ref as int,
                if game.phase_machine.current_state.spec_is_night()
                    && game.players@[actor_ref as int].alive && (self.interviewed_target
                    matches Some(t) && (t as int) < game.players@.len() && game.players@[
                    t as int].alive) {
                    seq![ChatGroup::Interview]
                } else {
                    Seq::empty()
                },
            ),
    {
        let interview_live = match self.interviewed_target {
            Some(t) => (t as usize) < game.players.len() && game.players[t as usize].alive,
            None => false,
        };
        let mut night_groups: Vec<ChatGroup> = Vec::new();
        if game.current_phase().is_night() && game.players[actor_ref as usize].alive
            && interview_live {
            night_groups.push(ChatGroup::Interview);
        }
        proof {
            if game.phase_machine.current_state.spec_is_night()
                && game.players@[actor_ref as int].alive && (self.interviewed_target
                matches Some(t) && (t as int) < game.players@.len() && game.players@[
                t as int].alive) {
                assert(night_groups@ =~= seq![ChatGroup::Interview]);
            } else {
                assert(night_groups@ =~= Seq::<ChatGroup>::empty());
            }
        }
        common_role::get_current_send_chat_groups(game, actor_ref, night_groups)
    }

    /// The channels the reporter currently receives: the common rules, plus
    /// the interview channel at night while their interviewee lives.
    pub fn get_current_receive_chat_groups(self, game: &Game, actor_ref: u8) -> (r: Vec<ChatGroup>)
        requires
            game.wf(),
            (actor_ref as int) < game.players@.len(),
        ensures
            r@ == common_role::spec_receive_groups(
                *game,
                actor_ref as int,
                if game.phase_machine.current_state.spec_is_night()
                    && game.players@[actor_ref as int].alive && (self.interviewed_target
                    matches Some(t) && (t as int) < game.players@.len() && game.players@[
                    t as int].alive) {
                    seq![ChatGroup::Interview]
                } else {
                    Seq::empty()
                },
            ),
    {
        let interview_live = match self.interviewed_target {
            Some(t) => (t as usize) < game.players.len() && game.players[t as usize].alive,
            None => false,
        };
        let mut extra: Vec<ChatGroup> = Vec::new();
        if game.current_phase().is_night() && game.players[actor_ref as usize].alive
            && interview_live {
            extra.push(ChatGroup::Interview);
        }
        proof {
            if game.phase_machine.current_state.spec_is_night()
                && game.players@[actor_ref as int].alive && (self.interviewed_target
                matches Some(t) && (t as int) < game.players@.len() && game.players@[
                t as int].alive) {
                assert(extra@ =~= seq![ChatGroup::Interview]);
            } else {
                assert(extra@ =~= Seq::<ChatGroup>::empty());
            }
        }
        common_role::get_current_receive_chat_groups(game, actor_ref, extra)
    }
}

/// What the reporter's phase-start hook does: at night start, a stored
/// interview pick of a living participant (while the reporter lives) opens
/// the interview — the reporter is told privately, and the interviewee's
/// mafia teammates are told in their channel, or the interviewee privately
/// when they have none; at obituary start, the interview is closed.
pub open spec fn spec_reporter_phase_start(m: NightModel, a: int, phase: PhaseType) -> NightModel {
    match m.players[a].role_state {
        RoleState::Reporter(rs) => match phase {
            PhaseType::Night => {
                let idx = m.players[a].index;
                match spec_selection_player_option(
                    m.controllers,
                    ControllerID::Role { player: idx, role: Role::Reporter, id: 0u8 },
                ) {
                    Some(Some(t)) => {
                        let ti = t as int;
                        if 0 <= ti < m.players.len() && m.players[a].alive
                            && m.players[ti].alive {
                            let with_target = m.players.update(
                                a,
                                Player {
                                    role_state: RoleState::Reporter(
                                        Reporter { interviewed_target: Some(t) },
                                    ),
                                    ..m.players[a]
                                },
                            );
                            let log1 = m.log.push(
                                ChatEntryModel {
                                    recipients: seq![idx],
                                    message: ChatMessage::PlayerIsBeingInterviewed {
                                        player_index: t,
                                    },
                                },
                            );
                            let log2 = if spec_faction(m.players[ti].role_state.spec_role())
                                == Faction::Mafia {
                                log1.push(
                                    ChatEntryModel {
                                        recipients: spec_mafia_members(
                                            with_target,
                                            with_target.len() as int,
                                        ),
                                        message: ChatMessage::PlayerIsBeingInterviewed {
                                            player_index: t,
                                        },
                                    },
                                )
                            } else {
                                log1.push(
                                    ChatEntryModel {
                                        recipients: seq![m.players[ti].index],
                                        message: ChatMessage::PlayerIsBeingInterviewed {
                                            player_index: t,
                                        },
                                    },
                                )
                            };
                            NightModel { players: with_target, log: log2, ..m }
                        } else {
                            m
                        }
                    },
                    _ => m,
                }
            },
            PhaseType::Obituary => NightModel {
                players: m.players.update(
                    a,
                    Player {
                        role_state: RoleState::Reporter(Reporter { interviewed_target: None }),
                        ..m.players[a]
                    },
                ),
                ..m
            },
            _ => m,
        },
        _ => m,
    }
}

impl Reporter {
    /// The reporter's phase-start hook.
    pub fn on_phase_start(self, game: &mut Game, actor_ref: u8, phase: PhaseType)
        requires
            old(game).wf(),
            (actor_ref as int) < old(game).num_players(),
            old(game).players@[actor_ref as int].role_state == RoleState::Reporter(self),
        ensures
            final(game).wf(),
            night_frame(*final(game), *old(game)),
            night_model(*final(game)) == spec_reporter_phase_start(
                night_model(*old(game)),
                actor_ref as int,
                phase,
            ),
    {
        let a = actor_ref as usize;
        proof {
            assert(old(game).players@[actor_ref as int].index == actor_ref as int);
        }
        match phase {
            PhaseType::Night => {
                let picked = game.saved_controllers.get_controller_current_selection_player_option(
                    ControllerID::role(actor_ref, Role::Reporter, 0),
                );
                match picked {
                    Some(Some(t)) => {
                        if (t as usize) < game.players.len() && game.players[a].alive
                            && game.players[t as usize].alive {
                            let ti = t as usize;
                            game.players[a].role_state = RoleState::Reporter(
                                Reporter { interviewed_target: Some(t) },
                            );
                            let mut recipients: Vec<u8> = Vec::new();
                            recipients.push(actor_ref);
                            let entry = ChatEntry {
                                recipients,
                                message: ChatMessage::PlayerIsBeingInterviewed {
                                    player_index: t,
                                },
                            };
                            let ghost ev1 = entry@;
                            game.chat_log.push(entry);
                            let ghost mid = *game;
                            proof {
                                assert(log_view(mid) =~= log_view(*old(game)).push(ev1));
                            }
                            if game.players[ti].get_role().faction() == Faction::Mafia {
                                let team = ChatGroup::Mafia.all_players_in_group(game);
                                let entry2 = ChatEntry {
                                    recipients: team,
                                    message: ChatMessage::PlayerIsBeingInterviewed {
                                        player_index: t,
                                    },
                                };
                                let ghost ev2 = entry2@;
                                game.chat_log.push(entry2);
                                proof {
                                    lemma_mafia_group_members(mid, mid.players@.len() as int);
                                    assert(log_view(*game) =~= log_view(mid).push(ev2));
                                    assert(night_model(*game) =~= spec_reporter_phase_start(
                                        night_model(*old(game)),
                                        actor_ref as int,
                                        phase,
                                    ));
                                }
                            } else {
                                let tidx = game.players[ti].index;
                                let mut recipients2: Vec<u8> = Vec::new();
                                recipients2.push(tidx);
                                let entry2 = ChatEntry {
                                    recipients: recipients2,
                                    message: ChatMessage::PlayerIsBeingInterviewed {
                                        player_index: t,
                                    },
                                };
                                let ghost ev2 = entry2@;
                                game.chat_log.push(entry2);
                                proof {
                                    assert(log_view(*game) =~= log_view(mid).push(ev2));
                                    assert(night_model(*game) =~= spec_reporter_phase_start(
                                        night_model(*old(game)),
                                        actor_ref as int,
                                        phase,
                                    ));
                                }
                            }
                        }
                    },
                    _ => {},
                }
            },
            PhaseType::Obituary => {
                game.players[a].role_state = RoleState::Reporter(
                    Reporter { interviewed_target: None },
                );
                proof {
                    assert(night_model(*game) =~= spec_reporter_phase_start(
                        night_model(*old(game)),
                        actor_ref as int,
                        phase,
                    ));
                }
            },
            _ => {},
        }
    }
}

} // verus!
