//! Inbound player messages: votes, verdicts, selections, chat and notes.
//!
//! Every message is validated against the current phase and state before
//! anything mutates; a protocol violation (a bad index, a message for the
//! wrong phase) or a validation failure is absorbed locally with no state
//! change — never propagated as fatal.

use vstd::prelude::*;

use crate::ability_input::{
    clone_selection, spec_selection_like, spec_selection_valid, AbilityInput,
};
use crate::chat::{ChatEntry, ChatGroup, ChatMessage, MessageSender};
use crate::game::{graves_view, log_view, same_but_players, Game};
use crate::phase::PhaseState;
use crate::player::Player;
use crate::role::{
    spec_max_targets, spec_role_can_day_target, spec_role_day_action, Role,
};
use crate::syndicate_gun_item::{spec_gun_give_accepted, SyndicateGunItem};
use crate::verdict::Verdict;

verus! {

/// One inbound event from a participant's ordered, reliable channel.
#[derive(Debug)]
pub enum ToServerPacket {
    /// Cast or clear a nomination vote.
    Vote { player_index: Option<u8> },
    /// The stance on the player currently on trial.
    Judgement { verdict: Verdict },
    /// Tonight's ability targets, in selection order.
    Target { player_index_list: Vec<u8> },
    /// Use the day ability on one participant.
    DayTarget { player_index: u8 },
    /// Free text to every channel the sender may currently speak in.
    SendMessage { text: String },
    /// A whisper to one participant, announced to everybody.
    SendWhisper { player_index: u8, text: String },
    /// Save the persistent note published on death.
    SaveWill { will: String },
    /// Save private notes.
    SaveNotes { notes: String },
    /// Submit a selection for one declared ability controller.
    AbilityInput { ability_input: AbilityInput },
}

/// Whether a vote message is accepted: it must arrive during nomination,
/// from a living sender, and either clear the vote or name another living
/// participant on the roster.
pub open spec fn spec_vote_accepted(g: Game, s: int, pi: Option<u8>) -> bool {
    &&& g.phase_machine.current_state is Nomination
    &&& g.players[s].alive
    &&& (pi matches Some(t) ==> ((t as int) < g.players@.len() && (t as int) != s && g.players@[
        t as int].alive))
}

/// Whether a judgement message is accepted: it must arrive during a trial,
/// from a living sender other than the accused.
pub open spec fn spec_judgement_accepted(g: Game, s: int) -> bool {
    &&& g.phase_machine.current_state matches PhaseState::Judgement { player_on_trial, .. }
        && (player_on_trial as int) != s
    &&& g.players[s].alive
}

/// Whether an ability-input message is accepted: the controller must be
/// declared, the sender among its allowed submitters, the controller not
/// grayed out, and the value inside its declared available space.
pub open spec fn spec_ability_input_accepted(g: Game, sender: u8, input: AbilityInput) -> bool {
    g.saved_controllers.spec_get(input.id) matches Some(p) && p.allowed_players@.contains(sender)
        && !p.grayed_out && spec_selection_valid(p.available, input.selection)
}

impl Game {
    /// Handles one inbound participant message. A message from an index
    /// that is not on the roster changes nothing; a rejected message
    /// changes nothing either. An accepted vote stores the choice and runs
    /// the tally; an accepted judgement or note updates exactly the
    /// sender's entry; an accepted day action runs the role's day ability;
    /// an accepted ability input updates exactly that controller's stored
    /// selection and may hand the gun over.
    #[verifier::rlimit(100)]
    pub fn on_client_message(&mut self, sender_player_index: u8, incoming_packet: ToServerPacket)
        requires
            old(self).wf(),
        ensures
            final(self).wf(),
            final(self).settings == old(self).settings,
            final(self).roles_to_players == old(self).roles_to_players,
            final(self).ticking == old(self).ticking,
            (sender_player_index as int) >= old(self).num_players() ==> *final(self) == *old(
                self,
            ),
            ({
                let s = sender_player_index as int;
                &&& (incoming_packet matches ToServerPacket::Vote {
                    player_index,
                } ==> s < old(self).num_players() ==> if spec_vote_accepted(
                    *old(self),
                    s,
                    player_index,
                ) {
                    &&& final(self).players@ == old(self).players@.update(
                        s,
                        Player { chosen_vote: player_index, ..old(self).players@[s] },
                    )
                    &&& graves_view(*final(self)) == graves_view(*old(self))
                } else {
                    *final(self) == *old(self)
                })
                &&& (incoming_packet matches
                    ToServerPacket::Judgement { verdict } ==> s < old(self).num_players()
                    ==> if spec_judgement_accepted(
                    *old(self),
                    s,
                ) {
                    &&& final(self).players@ == old(self).players@.update(
                        s,
                        Player { verdict, ..old(self).players@[s] },
                    )
                    &&& same_but_players(*final(self), *old(self))
                } else {
                    *final(self) == *old(self)
                })
                &&& (incoming_packet matches
                    ToServerPacket::SaveWill { will } ==> s < old(self).num_players() ==> {
                    &&& final(self).players@ == old(self).players@.update(
                        s,
                        Player { will, ..old(self).players@[s] },
                    )
                    &&& same_but_players(*final(self), *old(self))
                })
                &&& (incoming_packet matches
                    ToServerPacket::SaveNotes { notes } ==> s < old(self).num_players() ==> {
                    &&& final(self).players@ == old(self).players@.update(
                        s,
                        Player { notes, ..old(self).players@[s] },
                    )
                    &&& same_but_players(*final(self), *old(self))
                })
                &&& (incoming_packet matches
                    ToServerPacket::DayTarget { player_index } ==> s < old(self).num_players()
                    ==> if (player_index as int)
                    < old(self).num_players() && spec_role_can_day_target(
                    *old(self),
                    s,
                    player_index as int,
                ) {
                    &&& crate::resolution::night_frame(*final(self), *old(self))
                    &&& crate::resolution::night_model(*final(self)) == spec_role_day_action(
                        crate::resolution::night_model(*old(self)),
                        *old(self),
                        s,
                        player_index as int,
                    )
                } else {
                    *final(self) == *old(self)
                })
                &&& (incoming_packet matches
                    ToServerPacket::AbilityInput { ability_input } ==> s < old(
                    self,
                ).num_players() ==> if spec_ability_input_accepted(
                    *old(self),
                    sender_player_index,
                    ability_input,
                ) {
                    &&& final(self).players == old(self).players
                    &&& final(self).graves == old(self).graves
                    &&& final(self).chat_log == old(self).chat_log
                    &&& final(self).outbox == old(self).outbox
                    &&& final(self).phase_machine == old(self).phase_machine
                    &&& final(self).visits == old(self).visits
                    &&& final(self).pending_kills == old(self).pending_kills
                    &&& (final(self).saved_controllers.spec_get(ability_input.id) matches Some(np)
                        && spec_selection_like(np.selection, ability_input.selection)
                        && np.available == old(self).saved_controllers.spec_get(
                        ability_input.id,
                    ).unwrap().available && np.grayed_out == old(self).saved_controllers.spec_get(
                        ability_input.id,
                    ).unwrap().grayed_out)
                    &&& forall|x: crate::ability_input::ControllerID|
                        x != ability_input.id ==> final(self).saved_controllers.spec_get(x) == old(
                            self,
                        ).saved_controllers.spec_get(x)
                    &&& final(self).syndicate_gun_item.player_with_gun == if
                        spec_gun_give_accepted(*old(self), sender_player_index, ability_input) {
                        match ability_input.selection {
                            crate::ability_input::AbilitySelection::OnePlayerOption {
                                selection,
                            } => selection,
                            _ => old(self).syndicate_gun_item.player_with_gun,
                        }
                    } else {
                        old(self).syndicate_gun_item.player_with_gun
                    }
                } else {
                    *final(self) == *old(self)
                })
                &&& (incoming_packet matches
                    ToServerPacket::Target { player_index_list } ==> s < old(
                    self,
                ).num_players() ==> if old(
                    self,
                ).phase_machine.current_state is Night && old(self).players@[s].alive {
                    &&& final(self).players@.len() == old(self).players@.len()
                    &&& forall|i: int|
                        0 <= i < old(self).num_players() && i != s ==> final(self).players@[i]
                            == old(self).players@[i]
                    &&& final(self).players@[s] == (Player {
                        chosen_targets: final(self).players@[s].chosen_targets,
                        ..old(self).players@[s]
                    })
                    &&& final(self).players@[s].chosen_targets@.len() <= spec_max_targets(
                        old(self).players@[s].role_state.spec_role(),
                    )
                    &&& forall|j: int|
                        0 <= j < final(self).players@[s].chosen_targets@.len() ==> {
                            let t = #[trigger] final(self).players@[s].chosen_targets@[j];
                            &&& player_index_list@.contains(t)
                            &&& (t as int) < old(self).num_players()
                            &&& old(self).players@[t as int].alive
                        }
                    &&& graves_view(*final(self)) == graves_view(*old(self))
                    &&& final(self).phase_machine == old(self).phase_machine
                    &&& final(self).outbox == old(self).outbox
                    &&& final(self).saved_controllers == old(self).saved_controllers
                    &&& final(self).syndicate_gun_item == old(self).syndicate_gun_item
                    &&& log_view(*final(self)).subrange(0, log_view(*old(self)).len() as int)
                        == log_view(*old(self))
                } else {
                    *final(self) == *old(self)
                })
                &&& ((s < old(self).num_players() && (incoming_packet matches
                    ToServerPacket::SendMessage { .. } || incoming_packet matches
                    ToServerPacket::SendWhisper { .. })) ==> {
                    &&& final(self).players == old(self).players
                    &&& final(self).graves == old(self).graves
                    &&& final(self).phase_machine == old(self).phase_machine
                    &&& final(self).outbox == old(self).outbox
                    &&& final(self).saved_controllers == old(self).saved_controllers
                    &&& final(self).syndicate_gun_item == old(self).syndicate_gun_item
                    &&& log_view(*final(self)).subrange(0, log_view(*old(self)).len() as int)
                        == log_view(*old(self))
                })
            }),
    {
        let s = sender_player_index as usize;
        if s >= self.players.len() {
            return;
        }
        match incoming_packet {
            ToServerPacket::Vote { player_index } => {
                if !matches!(self.get_current_phase(), PhaseState::Nomination { .. }) {
                    return;
                }
                if !self.players[s].alive {
                    return;
                }
                match player_index {
                    Some(t) => {
                        if (t as usize) < self.players.len() && t != sender_player_index
                            && self.players[t as usize].alive {
                            self.players[s].chosen_vote = Some(t);
                        } else {
                            return;
                        }
                    },
                    None => {
                        self.players[s].chosen_vote = None;
                    },
                }
                self.count_votes_and_start_trial();
            },
            ToServerPacket::Judgement { verdict } => {
                let on_trial = match self.get_current_phase() {
                    PhaseState::Judgement { player_on_trial, .. } => player_on_trial,
                    _ => {
                        return;
                    },
                };
                if self.players[s].alive && sender_player_index != on_trial {
                    self.players[s].verdict = verdict;
                }
            },
            ToServerPacket::Target { player_index_list } => {
                if !self.get_current_phase().is_night() {
                    return;
                }
                if !self.players[s].alive {
                    return;
                }
                let ghost g0 = *old(self);
                let ghost list0 = player_index_list@;
                self.players[s].chosen_targets = Vec::new();
                let role = self.players[s].get_role();
                let max_targets = role.max_targets();
                let mut rest = player_index_list;
                let n0 = rest.len();
                let mut k: usize = 0;
                proof {
                    assert(rest@ =~= list0.subrange(0, n0 as int));
                }
                while rest.len() > 0
                    invariant
                        self.wf(),
                        g0 == *old(self),
                        s == sender_player_index as usize,
                        (s as int) < self.num_players(),
                        self.players@.len() == g0.players@.len(),
                        forall|i: int|
                            0 <= i < g0.players@.len() && i != s ==> self.players@[i]
                                == g0.players@[i],
                        self.players@[s as int] == (Player {
                            chosen_targets: self.players@[s as int].chosen_targets,
                            ..g0.players@[s as int]
                        }),
                        max_targets == spec_max_targets(
                            g0.players@[s as int].role_state.spec_role(),
                        ),
                        self.players@[s as int].chosen_targets@.len() <= max_targets as int,
                        forall|j: int|
                            0 <= j < self.players@[s as int].chosen_targets@.len() ==> {
                                let t = #[trigger] self.players@[s as int].chosen_targets@[j];
                                &&& list0.contains(t)
                                &&& (t as int) < g0.players@.len()
                                &&& g0.players@[t as int].alive
                            },
                        self.graves == g0.graves,
                        self.chat_log == g0.chat_log,
                        self.outbox == g0.outbox,
                        self.phase_machine == g0.phase_machine,
                        self.saved_controllers == g0.saved_controllers,
                        self.syndicate_gun_item == g0.syndicate_gun_item,
                        self.settings == g0.settings,
                        self.roles_to_players == g0.roles_to_players,
                        self.ticking == g0.ticking,
                        self.visits == g0.visits,
                        self.pending_kills == g0.pending_kills,
                        n0 == list0.len(),
                        k + rest@.len() == n0,
                        rest@ == list0.subrange(k as int, n0 as int),
                    decreases rest@.len(),
                {
                    let ghost rest_pre = rest@;
                    let t = rest.remove(0);
                    proof {
                        assert(t == rest_pre[0]);
                        assert(list0.subrange(k as int, n0 as int)[0] == list0[k as int]);
                        assert(list0.contains(t)) by {
                            assert(list0[k as int] == t);
                        }
                        assert(rest@ =~= list0.subrange(k + 1 as int, n0 as int));
                    }
                    if (t as usize) < self.players.len()
                        && self.players[s].chosen_targets.len() < max_targets as usize {
                        let sender_role = self.players[s].get_role();
                        if sender_role.can_night_target(self, sender_player_index, t) {
                            proof {
                                assert(self.players@[t as int].alive);
                                if (t as int) != (s as int) {
                                    assert(g0.players@[t as int].alive);
                                } else {
                                    assert(g0.players@[s as int].alive);
                                }
                            }
                            self.players[s].chosen_targets.push(t);
                        }
                    }
                    k = k + 1;
                }
                let ghost g_mid = *self;
                let targeter_role = self.players[s].get_role();
                let mut groups = targeter_role.get_current_send_chat_groups(
                    self,
                    sender_player_index,
                );
                if groups.len() == 0 {
                    let targets = crate::ability_input::copy_u8s(&self.players[s].chosen_targets);
                    let mut recipients: Vec<u8> = Vec::new();
                    recipients.push(sender_player_index);
                    self.chat_log.push(
                        ChatEntry {
                            recipients,
                            message: ChatMessage::Targeted {
                                targeter: sender_player_index,
                                targets,
                            },
                        },
                    );
                    proof {
                        assert(log_view(*self).subrange(0, log_view(g_mid).len() as int) =~=
                            log_view(g_mid));
                    }
                } else {
                    while groups.len() > 0
                        invariant
                            self.wf(),
                            g_mid.wf(),
                            self.players == g_mid.players,
                            self.graves == g_mid.graves,
                            self.outbox == g_mid.outbox,
                            self.phase_machine == g_mid.phase_machine,
                            self.saved_controllers == g_mid.saved_controllers,
                            self.syndicate_gun_item == g_mid.syndicate_gun_item,
                            self.settings == g_mid.settings,
                            self.roles_to_players == g_mid.roles_to_players,
                            self.ticking == g_mid.ticking,
                            self.visits == g_mid.visits,
                            self.pending_kills == g_mid.pending_kills,
                            s == sender_player_index as usize,
                            (s as int) < self.num_players(),
                            log_view(g_mid).len() <= log_view(*self).len(),
                            log_view(*self).subrange(0, log_view(g_mid).len() as int) == log_view(
                                g_mid,
                            ),
                        decreases groups@.len(),
                    {
                        let group = groups.remove(0);
                        let targets = crate::ability_input::copy_u8s(
                            &self.players[s].chosen_targets,
                        );
                        let ghost lpre = log_view(*self);
                        self.add_message_to_chat_group(
                            group,
                            ChatMessage::Targeted { targeter: sender_player_index, targets },
                        );
                        proof {
                            assert(log_view(g_mid).len() <= lpre.len());
                            assert(log_view(*self).subrange(0, lpre.len() as int) =~= lpre);
                            assert(log_view(*self).subrange(0, log_view(g_mid).len() as int) =~=
                                log_view(g_mid));
                        }
                    }
                }
            },
            ToServerPacket::DayTarget { player_index } => {
                if (player_index as usize) >= self.players.len() {
                    return;
                }
                let role = self.players[s].get_role();
                if role.can_day_target(self, sender_player_index, player_index) {
                    let role2 = self.players[s].get_role();
                    role2.do_day_action(self, sender_player_index, player_index);
                }
            },
            ToServerPacket::SendMessage { text } => {
                if text.as_str().is_empty() {
                    return;
                }
                let ghost g0 = *old(self);
                let sender_role = self.players[s].get_role();
                let sender_alive = self.players[s].alive;
                let mut groups = sender_role.get_current_send_chat_groups(
                    self,
                    sender_player_index,
                );
                while groups.len() > 0
                    invariant
                        self.wf(),
                        g0 == *old(self),
                        self.players == g0.players,
                        self.graves == g0.graves,
                        self.outbox == g0.outbox,
                        self.phase_machine == g0.phase_machine,
                        self.saved_controllers == g0.saved_controllers,
                        self.syndicate_gun_item == g0.syndicate_gun_item,
                        self.settings == g0.settings,
                        self.roles_to_players == g0.roles_to_players,
                        self.ticking == g0.ticking,
                        self.visits == g0.visits,
                        self.pending_kills == g0.pending_kills,
                        s == sender_player_index as usize,
                        (s as int) < self.num_players(),
                        log_view(g0).len() <= log_view(*self).len(),
                        log_view(*self).subrange(0, log_view(g0).len() as int) == log_view(g0),
                    decreases groups@.len(),
                {
                    let group = groups.remove(0);
                    let message_sender = if matches!(sender_role, Role::Jailor) && matches!(
                        group,
                        ChatGroup::Jail,
                    ) {
                        MessageSender::Jailor
                    } else if matches!(sender_role, Role::Medium) && sender_alive && matches!(
                        group,
                        ChatGroup::Dead,
                    ) {
                        MessageSender::Medium
                    } else {
                        MessageSender::Player { player: sender_player_index }
                    };
                    let ghost lpre = log_view(*self);
                    self.add_message_to_chat_group(
                        group,
                        ChatMessage::Normal {
                            message_sender,
                            text: text.clone(),
                            chat_group: group,
                        },
                    );
                    proof {
                        assert(log_view(g0).len() <= lpre.len());
                        assert(log_view(*self).subrange(0, lpre.len() as int) =~= lpre);
                        assert(log_view(*self).subrange(0, log_view(g0).len() as int) =~=
                            log_view(g0));
                    }
                }
            },
            ToServerPacket::SendWhisper { player_index, text } => {
                if (player_index as usize) >= self.players.len() {
                    return;
                }
                if !self.get_current_phase().is_day() || player_index == sender_player_index {
                    return;
                }
                if self.players[player_index as usize].alive != self.players[s].alive {
                    return;
                }
                if text.as_str().is_empty() {
                    return;
                }
                let sender_role = self.players[s].get_role();
                let groups = sender_role.get_current_send_chat_groups(
                    self,
                    sender_player_index,
                );
                let mut can_speak_all = false;
                let mut gi: usize = 0;
                while gi < groups.len()
                    invariant
                        gi <= groups@.len(),
                    decreases groups@.len() - gi,
                {
                    if matches!(groups[gi], ChatGroup::All) {
                        can_speak_all = true;
                    }
                    gi = gi + 1;
                }
                if !can_speak_all {
                    return;
                }
                let ghost g0 = *old(self);
                self.add_message_to_chat_group(
                    ChatGroup::All,
                    ChatMessage::BroadcastWhisper {
                        whisperer: sender_player_index,
                        whisperee: player_index,
                    },
                );
                let ghost l1 = log_view(*self);
                let mut recipients: Vec<u8> = Vec::new();
                recipients.push(sender_player_index);
                recipients.push(player_index);
                self.chat_log.push(
                    ChatEntry {
                        recipients,
                        message: ChatMessage::Whisper {
                            from_player_index: sender_player_index,
                            to_player_index: player_index,
                            text,
                        },
                    },
                );
                proof {
                    assert(log_view(*self).subrange(0, l1.len() as int) =~= l1);
                    assert(log_view(*self).subrange(0, log_view(g0).len() as int) =~= log_view(
                        g0,
                    ));
                }
            },
            ToServerPacket::SaveWill { will } => {
                self.players[s].will = will;
            },
            ToServerPacket::SaveNotes { notes } => {
                self.players[s].notes = notes;
            },
            ToServerPacket::AbilityInput { ability_input } => {
                let id = ability_input.id;
                if !self.saved_controllers.allowed_contains(id, sender_player_index) {
                    return;
                }
                let sel = clone_selection(&ability_input.selection);
                proof {
                    crate::ability_input::lemma_like_selection_same_validity(
                        old(self).saved_controllers.spec_get(id).unwrap().available,
                        sel,
                        ability_input.selection,
                    );
                }
                match self.saved_controllers.set_selection(id, sel) {
                    Ok(_) => {
                        let ghost g1 = *self;
                        SyndicateGunItem::on_validated_ability_input_received(
                            self,
                            sender_player_index,
                            ability_input,
                        );
                        proof {
                            assert(spec_gun_give_accepted(
                                g1,
                                sender_player_index,
                                ability_input,
                            ) == spec_gun_give_accepted(
                                *old(self),
                                sender_player_index,
                                ability_input,
                            ));
                        }
                    },
                    Err(_) => {},
                }
            },
        }
    }
}

} // verus!
