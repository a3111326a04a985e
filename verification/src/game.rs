//! The game instance: one exclusively-owned context holding all state.

use vstd::prelude::*;

use crate::ability_input::{ControllerID, ControllerParametersMap};
use crate::end_game_condition::EndGameCondition;
use crate::verdict::Verdict;
use crate::chat::{spec_group_members, ChatEntry, ChatEntryModel, ChatGroup, ChatMessage};
use crate::grave::{Grave, GraveKiller, GraveRecord};
use crate::packet::{PacketModel, ToClientPacket};
use crate::phase::{PhaseState, PhaseStateMachine, PhaseType};
use crate::player::Player;
use crate::role::{Role, RoleState};
use crate::settings::Settings;
use crate::syndicate_gun_item::SyndicateGunItem;
use crate::visit::Visit;

verus! {

/// The largest roster the engine accepts: with a weighted vote worth at
/// most three, every tally over 85 voters still fits in `u8` arithmetic.
pub const MAX_PLAYERS: usize = 85;

/// Why game creation was refused. Creation either succeeds or surfaces one
/// of these specific reasons; it never fails generically.
#[derive(Clone, Copy, PartialEq, Eq, Structural, Debug)]
pub enum RejectStartReason {
    GameEndsInstantly,
    RoleListTooSmall,
    RoleListCannotCreateRoles,
    ZeroTimeGame,
    PlayerDisconnected,
}

/// Why a finished game ended.
#[derive(Clone, Copy, PartialEq, Eq, Structural, Debug)]
pub enum GameOverReason {
    ReachedMaxDay,
    Winner,
    Draw,
}

/// A reference to a participant index that is not on the roster.
#[derive(Clone, Copy, PartialEq, Eq, Structural, Debug)]
pub struct InvalidPlayerReference;

/// A death enqueued during night resolution, committed after the Kill
/// bucket.
#[derive(Clone, Copy, PartialEq, Eq, Structural, Debug)]
pub struct PendingKill {
    pub target: u8,
    pub killer: GraveKiller,
}

/// One game instance. The instance exclusively owns all participants,
/// graves and phase state; callers thread it through every operation.
#[derive(Debug)]
pub struct Game {
    pub settings: Settings,
    /// Which role was dealt to which participant, in deal order.
    pub roles_to_players: Vec<(Role, u8)>,
    /// The roster; a participant's stable index is their position here.
    pub players: Vec<Player>,
    /// Ordered death records; append-only.
    pub graves: Vec<Grave>,
    /// Declared ability controllers with their stored selections.
    pub saved_controllers: ControllerParametersMap,
    pub syndicate_gun_item: SyndicateGunItem,
    pub phase_machine: PhaseStateMachine,
    /// Whether the game is still updating phase times.
    pub ticking: bool,
    /// Tonight's visits; rebuilt at each night resolution.
    pub visits: Vec<Visit>,
    /// Deaths enqueued during the current night resolution.
    pub pending_kills: Vec<PendingKill>,
    /// Every chat delivery made so far, in delivery order.
    pub chat_log: Vec<ChatEntry>,
    /// Every outbound packet emitted so far, in emission order.
    pub outbox: Vec<ToClientPacket>,
}

/// Participant references held inside one player's state stay on the
/// roster of size `n`.
pub open spec fn player_refs_wf(p: Player, n: int) -> bool {
    &&& (p.chosen_vote matches Some(v) ==> (v as int) < n)
    &&& forall|j: int|
        0 <= j < p.chosen_targets@.len() ==> ((#[trigger] p.chosen_targets@[j]) as int) < n
    &&& (p.role_state matches RoleState::Jailor(js) ==> (js.jailed_target_ref matches Some(t)
        ==> (t as int) < n))
    &&& (p.role_state matches RoleState::Doctor(ds) ==> (ds.target_healed_ref matches Some(t)
        ==> (t as int) < n))
    &&& (p.role_state matches RoleState::Reporter(rs) ==> (rs.interviewed_target matches Some(t)
        ==> (t as int) < n))
}

impl Game {
    /// Structural well-formedness: the roster is bounded, indices are
    /// stable, and every stored participant reference is on the roster.
    pub open spec fn wf(&self) -> bool {
        let n = self.players@.len() as int;
        &&& n <= MAX_PLAYERS as int
        &&& forall|i: int| 0 <= i < n ==> ((#[trigger] self.players@[i]).index as int) == i
        &&& forall|i: int| 0 <= i < n ==> player_refs_wf(#[trigger] self.players@[i], n)
        &&& forall|i: int|
            0 <= i < self.visits@.len() ==> ((#[trigger] self.visits@[i]).visitor as int) < n && (
            self.visits@[i].target as int) < n
        &&& forall|i: int|
            0 <= i < self.pending_kills@.len() ==> ((#[trigger] self.pending_kills@[i]).target
                as int) < n
        &&& (self.syndicate_gun_item.player_with_gun matches Some(h) ==> (h as int) < n)
        &&& self.saved_controllers.wf()
    }

    /// The number of seated participants.
    pub open spec fn num_players(&self) -> int {
        self.players@.len() as int
    }

    /// The participant at `index`, or an error for an index that is not on
    /// the roster. A bad reference is rejected locally and mutates nothing.
    pub fn get_player(&self, index: u8) -> (r: Result<&Player, InvalidPlayerReference>)
        ensures
            match r {
                Ok(p) => (index as int) < self.num_players() && *p == self.players@[index as int],
                Err(_) => (index as int) >= self.num_players(),
            },
    {
        if (index as usize) < self.players.len() {
            Ok(&self.players[index as usize])
        } else {
            Err(InvalidPlayerReference)
        }
    }

    /// Mutable access to the participant at `index`.
    pub fn get_player_mut(&mut self, index: u8) -> (r: &mut Player)
        requires
            (index as int) < old(self).num_players(),
        ensures
            *r == old(self).players@[index as int],
            final(self).players@ == old(self).players@.update(index as int, *final(r)),
            final(self).settings == old(self).settings,
            final(self).roles_to_players == old(self).roles_to_players,
            final(self).graves == old(self).graves,
            final(self).saved_controllers == old(self).saved_controllers,
            final(self).syndicate_gun_item == old(self).syndicate_gun_item,
            final(self).phase_machine == old(self).phase_machine,
            final(self).ticking == old(self).ticking,
            final(self).visits == old(self).visits,
            final(self).pending_kills == old(self).pending_kills,
            final(self).chat_log == old(self).chat_log,
            final(self).outbox == old(self).outbox,
    {
        &mut self.players[index as usize]
    }

    /// The current phase state, by value.
    pub fn get_current_phase(&self) -> (s: PhaseState)
        ensures
            s == self.phase_machine.current_state,
    {
        self.phase_machine.current_state
    }

    /// The current phase state.
    pub fn current_phase(&self) -> (s: &PhaseState)
        ensures
            *s == self.phase_machine.current_state,
    {
        &self.phase_machine.current_state
    }

    /// The current day number.
    pub fn day_number(&self) -> (d: u8)
        ensures
            d == self.phase_machine.day_number,
    {
        self.phase_machine.day_number
    }
}

/// The mathematical value of the chat log.
pub open spec fn log_view(g: Game) -> Seq<ChatEntryModel> {
    g.chat_log@.map_values(|e: ChatEntry| e@)
}

/// The mathematical value of the grave list.
pub open spec fn graves_view(g: Game) -> Seq<GraveRecord> {
    g.graves@.map_values(|x: Grave| x@)
}

/// The mathematical value of the outbox.
pub open spec fn outbox_view(g: Game) -> Seq<PacketModel> {
    g.outbox@.map_values(|p: ToClientPacket| p@)
}

/// All fields of the two game values agree except the chat log.
pub open spec fn same_but_chat(a: Game, b: Game) -> bool {
    &&& a.settings == b.settings
    &&& a.roles_to_players == b.roles_to_players
    &&& a.players == b.players
    &&& a.graves == b.graves
    &&& a.saved_controllers == b.saved_controllers
    &&& a.syndicate_gun_item == b.syndicate_gun_item
    &&& a.phase_machine == b.phase_machine
    &&& a.ticking == b.ticking
    &&& a.visits == b.visits
    &&& a.pending_kills == b.pending_kills
    &&& a.outbox == b.outbox
}

/// All fields of the two game values agree except the roster.
pub open spec fn same_but_players(a: Game, b: Game) -> bool {
    &&& a.settings == b.settings
    &&& a.roles_to_players == b.roles_to_players
    &&& a.graves == b.graves
    &&& a.saved_controllers == b.saved_controllers
    &&& a.syndicate_gun_item == b.syndicate_gun_item
    &&& a.phase_machine == b.phase_machine
    &&& a.ticking == b.ticking
    &&& a.visits == b.visits
    &&& a.pending_kills == b.pending_kills
    &&& a.chat_log == b.chat_log
    &&& a.outbox == b.outbox
}

/// All fields of the two game values agree except the outbox.
pub open spec fn same_but_outbox(a: Game, b: Game) -> bool {
    &&& a.settings == b.settings
    &&& a.roles_to_players == b.roles_to_players
    &&& a.players == b.players
    &&& a.graves == b.graves
    &&& a.saved_controllers == b.saved_controllers
    &&& a.syndicate_gun_item == b.syndicate_gun_item
    &&& a.phase_machine == b.phase_machine
    &&& a.ticking == b.ticking
    &&& a.visits == b.visits
    &&& a.pending_kills == b.pending_kills
    &&& a.chat_log == b.chat_log
}

/// All fields of the two game values agree except graves and the chat log.
pub open spec fn same_but_graves_chat(a: Game, b: Game) -> bool {
    &&& a.settings == b.settings
    &&& a.roles_to_players == b.roles_to_players
    &&& a.players == b.players
    &&& a.saved_controllers == b.saved_controllers
    &&& a.syndicate_gun_item == b.syndicate_gun_item
    &&& a.phase_machine == b.phase_machine
    &&& a.ticking == b.ticking
    &&& a.visits == b.visits
    &&& a.pending_kills == b.pending_kills
    &&& a.outbox == b.outbox
}

/// Channel membership reads only the roster, so two game values with equal
/// rosters have equal members in every channel.
pub proof fn lemma_group_members_congruence(g1: Game, g2: Game, group: ChatGroup, n: int)
    requires
        g1.players@ == g2.players@,
    ensures
        spec_group_members(g1, group, n) == spec_group_members(g2, group, n),
    decreases n,
{
    if n > 0 {
        lemma_group_members_congruence(g1, g2, group, n - 1);
        assert(crate::chat::spec_player_in_group(g1, n - 1, group)
            == crate::chat::spec_player_in_group(g2, n - 1, group)) by {
            if crate::chat::spec_in_interview(g1, n - 1) {
                assert(crate::chat::spec_in_interview(g2, n - 1));
            }
            if crate::chat::spec_in_interview(g2, n - 1) {
                assert(crate::chat::spec_in_interview(g1, n - 1));
            }
        }
    }
}

/// The chat entry produced by delivering `message` to `group` in state `g`.
pub open spec fn spec_group_entry(g: Game, group: ChatGroup, message: ChatMessage) -> ChatEntryModel {
    ChatEntryModel {
        recipients: spec_group_members(g, group, g.players@.len() as int),
        message,
    }
}

/// The chat entries produced by delivering each of `messages`, in order, to
/// `group` in state `g`.
pub open spec fn spec_group_entries(
    g: Game,
    group: ChatGroup,
    messages: Seq<ChatMessage>,
) -> Seq<ChatEntryModel> {
    messages.map_values(|m: ChatMessage| spec_group_entry(g, group, m))
}

impl Game {
    /// Delivers `message` to every current member of `group`, appending one
    /// entry to the chat log. Membership is computed fresh from the current
    /// state; nothing else changes.
    pub fn add_message_to_chat_group(&mut self, group: ChatGroup, message: ChatMessage)
        requires
            old(self).wf(),
        ensures
            final(self).wf(),
            same_but_chat(*final(self), *old(self)),
            log_view(*final(self)) == log_view(*old(self)).push(
                spec_group_entry(*old(self), group, message),
            ),
    {
        let recipients = group.all_players_in_group(self);
        let entry = ChatEntry { recipients, message };
        let ghost expected = entry@;
        self.chat_log.push(entry);
        proof {
            assert(log_view(*self) =~= log_view(*old(self)).push(expected));
        }
    }

    /// Delivers each message, in order, to the current members of `group`.
    pub fn add_messages_to_chat_group(&mut self, group: ChatGroup, messages: Vec<ChatMessage>)
        requires
            old(self).wf(),
        ensures
            final(self).wf(),
            same_but_chat(*final(self), *old(self)),
            log_view(*final(self)) == log_view(*old(self)) + spec_group_entries(
                *old(self),
                group,
                messages@,
            ),
    {
        let ghost g0 = *old(self);
        let ghost all = messages@;
        let mut rest = messages;
        let mut k: usize = 0;
        let n = rest.len();
        proof {
            assert(rest@ =~= all.subrange(0, n as int));
            assert(log_view(*self) =~= log_view(g0) + spec_group_entries(
                g0,
                group,
                all.subrange(0, 0),
            ));
        }
        while rest.len() > 0
            invariant
                self.wf(),
                same_but_chat(*self, g0),
                n == all.len(),
                k + rest@.len() == n,
                rest@ == all.subrange(k as int, n as int),
                log_view(*self) == log_view(g0) + spec_group_entries(
                    g0,
                    group,
                    all.subrange(0, k as int),
                ),
            decreases rest@.len(),
        {
            let ghost rest_pre = rest@;
            let m = rest.remove(0);
            proof {
                assert(m == rest_pre[0]);
                assert(all.subrange(k as int, n as int)[0] == all[k as int]);
            }
            let ghost before = *self;
            self.add_message_to_chat_group(group, m);
            proof {
                lemma_group_members_congruence(before, g0, group, before.players@.len() as int);
                assert(spec_group_entry(before, group, m) == spec_group_entry(g0, group, m));
                assert(all.subrange(0, k + 1 as int) =~= all.subrange(0, k as int).push(
                    all[k as int],
                ));
                assert(spec_group_entries(g0, group, all.subrange(0, k + 1 as int)) =~=
                    spec_group_entries(g0, group, all.subrange(0, k as int)).push(
                    spec_group_entry(g0, group, all[k as int]),
                ));
                assert(log_view(*self) =~= log_view(g0) + spec_group_entries(
                    g0,
                    group,
                    all.subrange(0, k + 1 as int),
                ));
                assert(rest@ =~= all.subrange(k + 1 as int, n as int));
            }
            k = k + 1;
        }
        proof {
            assert(all.subrange(0, n as int) =~= all);
        }
    }

    /// Emits one broadcast packet to every participant, in emission order.
    pub fn send_packet_to_all(&mut self, packet: ToClientPacket)
        requires
            old(self).wf(),
        ensures
            final(self).wf(),
            same_but_outbox(*final(self), *old(self)),
            outbox_view(*final(self)) == outbox_view(*old(self)).push(packet@),
    {
        let ghost expected = packet@;
        self.outbox.push(packet);
        proof {
            assert(outbox_view(*self) =~= outbox_view(*old(self)).push(expected));
        }
    }

    /// Records one death: appends the grave and announces it to everybody.
    /// Graves are append-only and never merged after the fact.
    pub fn add_grave(&mut self, grave: Grave)
        requires
            old(self).wf(),
        ensures
            final(self).wf(),
            same_but_graves_chat(*final(self), *old(self)),
            graves_view(*final(self)) == graves_view(*old(self)).push(grave@),
            log_view(*final(self)) == log_view(*old(self)).push(
                spec_group_entry(*old(self), ChatGroup::All, ChatMessage::PlayerDied {
                    grave: grave,
                }),
            ),
    {
        let ghost gv = grave@;
        let stored = grave.clone();
        self.graves.push(stored);
        proof {
            assert(graves_view(*self) =~= graves_view(*old(self)).push(gv));
        }
        let ghost mid = *self;
        self.add_message_to_chat_group(ChatGroup::All, ChatMessage::PlayerDied { grave });
        proof {
            lemma_group_members_congruence(
                mid,
                *old(self),
                ChatGroup::All,
                mid.players@.len() as int,
            );
        }
    }
}

/// How many of the first `k` participants are alive.
pub open spec fn spec_living_upto(g: Game, k: int) -> int
    decreases k,
{
    if k <= 0 {
        0
    } else {
        spec_living_upto(g, k - 1) + if g.players[k - 1].alive {
            1int
        } else {
            0int
        }
    }
}

/// How many participants are alive.
pub open spec fn spec_living(g: Game) -> int {
    spec_living_upto(g, g.players@.len() as int)
}

impl Game {
    /// How many participants are alive.
    pub fn living_count(&self) -> (r: usize)
        requires
            self.wf(),
        ensures
            r as int == spec_living(*self),
            r <= self.players@.len(),
    {
        let mut count: usize = 0;
        let mut i: usize = 0;
        while i < self.players.len()
            invariant
                i <= self.players@.len(),
                count as int == spec_living_upto(*self, i as int),
                count <= i,
            decreases self.players@.len() - i,
        {
            if self.players[i].alive {
                count = count + 1;
            }
            i = i + 1;
        }
        count
    }
}

/// Whether some living participant currently counts for the win
/// classification `c`. The unaligned classification never counts.
pub open spec fn spec_has_condition(g: Game, c: EndGameCondition) -> bool {
    &&& c != EndGameCondition::Unaligned
    &&& exists|i: int|
        0 <= i < g.players@.len() && (#[trigger] g.players@[i]).alive
            && crate::role::spec_end_game_condition(g.players@[i].role_state.spec_role()) == c
}

/// At most one distinct win classification remains among the living.
pub open spec fn spec_single_condition(g: Game) -> bool {
    forall|c1: EndGameCondition, c2: EndGameCondition|
        spec_has_condition(g, c1) && spec_has_condition(g, c2) ==> c1 == c2
}

/// No win classification remains among the living.
pub open spec fn spec_no_condition(g: Game) -> bool {
    forall|c: EndGameCondition| !spec_has_condition(g, c)
}

/// The game is over exactly when at most one distinct win classification
/// remains — except that a game with no classification left but more than
/// one living amnesiac continues (the multiple-lone-wins guard).
pub open spec fn spec_game_is_over(g: Game) -> bool {
    if spec_no_condition(g) && crate::role::amnesiac::spec_living_amnesiacs(g) > 1 {
        false
    } else {
        spec_single_condition(g)
    }
}

impl Game {
    /// The win/end-state evaluator: pure and side-effect-free, callable on
    /// every tick. True exactly when at most one distinct win
    /// classification remains among the living — except that two or more
    /// living amnesiacs keep a game with no classification running.
    pub fn game_is_over(&self) -> (r: bool)
        requires
            self.wf(),
        ensures
            r == spec_game_is_over(*self),
    {
        let mut found: Option<EndGameCondition> = None;
        let mut multiple = false;
        let mut i: usize = 0;
        while i < self.players.len()
            invariant
                self.wf(),
                i <= self.players@.len(),
                match found {
                    None => forall|j: int|
                        0 <= j < i ==> !((#[trigger] self.players@[j]).alive
                            && crate::role::spec_end_game_condition(
                            self.players@[j].role_state.spec_role(),
                        ) != EndGameCondition::Unaligned),
                    Some(c) => {
                        &&& c != EndGameCondition::Unaligned
                        &&& exists|j: int|
                            0 <= j < i && (#[trigger] self.players@[j]).alive
                                && crate::role::spec_end_game_condition(
                                self.players@[j].role_state.spec_role(),
                            ) == c
                    },
                },
                !multiple ==> forall|j: int|
                    0 <= j < i && (#[trigger] self.players@[j]).alive
                        && crate::role::spec_end_game_condition(
                        self.players@[j].role_state.spec_role(),
                    ) != EndGameCondition::Unaligned ==> Some(
                        crate::role::spec_end_game_condition(
                            self.players@[j].role_state.spec_role(),
                        ),
                    ) == found,
                multiple ==> (exists|j1: int, j2: int|
                    0 <= j1 < i && 0 <= j2 < i && (#[trigger] self.players@[j1]).alive && (
                    #[trigger] self.players@[j2]).alive
                        && crate::role::spec_end_game_condition(
                        self.players@[j1].role_state.spec_role(),
                    ) != EndGameCondition::Unaligned
                        && crate::role::spec_end_game_condition(
                        self.players@[j2].role_state.spec_role(),
                    ) != EndGameCondition::Unaligned
                        && crate::role::spec_end_game_condition(
                        self.players@[j1].role_state.spec_role(),
                    ) != crate::role::spec_end_game_condition(
                        self.players@[j2].role_state.spec_role(),
                    )),
            decreases self.players@.len() - i,
        {
            let p = &self.players[i];
            if p.alive {
                let c = p.get_role().end_game_condition();
                if !matches!(c, EndGameCondition::Unaligned) {
                    match found {
                        None => {
                            found = Some(c);
                        },
                        Some(prev) => {
                            if !(prev == c) {
                                multiple = true;
                            }
                        },
                    }
                }
            }
            i = i + 1;
        }
        let amnesiacs = crate::role::amnesiac::living_amnesiacs(self);
        proof {
            let g = *self;
            let n = g.players@.len() as int;
            if found is None {
                assert forall|c: EndGameCondition| !spec_has_condition(g, c) by {
                    if spec_has_condition(g, c) {
                        let w = choose|i: int|
                            0 <= i < g.players@.len() && (#[trigger] g.players@[i]).alive
                                && crate::role::spec_end_game_condition(
                                g.players@[i].role_state.spec_role(),
                            ) == c;
                        assert(g.players@[w].alive);
                    }
                }
            }
            if multiple {
                let (j1, j2) = choose|j1: int, j2: int|
                    0 <= j1 < n && 0 <= j2 < n && (#[trigger] g.players@[j1]).alive && (
                    #[trigger] g.players@[j2]).alive && crate::role::spec_end_game_condition(
                        g.players@[j1].role_state.spec_role(),
                    ) != EndGameCondition::Unaligned && crate::role::spec_end_game_condition(
                        g.players@[j2].role_state.spec_role(),
                    ) != EndGameCondition::Unaligned && crate::role::spec_end_game_condition(
                        g.players@[j1].role_state.spec_role(),
                    ) != crate::role::spec_end_game_condition(
                        g.players@[j2].role_state.spec_role(),
                    );
                let c1 = crate::role::spec_end_game_condition(
                    g.players@[j1].role_state.spec_role(),
                );
                let c2 = crate::role::spec_end_game_condition(
                    g.players@[j2].role_state.spec_role(),
                );
                assert(spec_has_condition(g, c1));
                assert(spec_has_condition(g, c2));
                assert(!spec_single_condition(g));
            } else {
                assert forall|c1: EndGameCondition, c2: EndGameCondition|
                    spec_has_condition(g, c1) && spec_has_condition(g, c2) implies c1 == c2 by {
                    let i1 = choose|i: int|
                        0 <= i < g.players@.len() && (#[trigger] g.players@[i]).alive
                            && crate::role::spec_end_game_condition(
                            g.players@[i].role_state.spec_role(),
                        ) == c1;
                    let i2 = choose|i: int|
                        0 <= i < g.players@.len() && (#[trigger] g.players@[i]).alive
                            && crate::role::spec_end_game_condition(
                            g.players@[i].role_state.spec_role(),
                        ) == c2;
                    assert(g.players@[i1].alive);
                    assert(g.players@[i2].alive);
                    assert(Some(c1) == found);
                    assert(Some(c2) == found);
                }
            }
            match found {
                Some(c) => {
                    assert(spec_has_condition(g, c));
                    assert(!spec_no_condition(g));
                },
                None => {
                    if multiple {
                        let (j1, j2) = choose|j1: int, j2: int|
                            0 <= j1 < n && 0 <= j2 < n && (#[trigger] g.players@[j1]).alive && (
                            #[trigger] g.players@[j2]).alive
                                && crate::role::spec_end_game_condition(
                                g.players@[j1].role_state.spec_role(),
                            ) != EndGameCondition::Unaligned
                                && crate::role::spec_end_game_condition(
                                g.players@[j2].role_state.spec_role(),
                            ) != EndGameCondition::Unaligned
                                && crate::role::spec_end_game_condition(
                                g.players@[j1].role_state.spec_role(),
                            ) != crate::role::spec_end_game_condition(
                                g.players@[j2].role_state.spec_role(),
                            );
                        assert(g.players@[j1].alive);
                        assert(false);
                    }
                },
            }
        }
        if found.is_none() && amnesiacs > 1 {
            false
        } else {
            !multiple
        }
    }
}

/// Guilty and innocent verdict tallies over the first `k` participants,
/// skipping the dead and the participant on trial; a revealed mayor's
/// verdict counts three times.
pub open spec fn spec_verdict_counts_upto(g: Game, pot: int, k: int) -> (int, int)
    decreases k,
{
    if k <= 0 {
        (0int, 0int)
    } else {
        let prev = spec_verdict_counts_upto(g, pot, k - 1);
        if g.players[k - 1].alive && k - 1 != pot {
            let power = crate::role::mayor::spec_voting_power(g.players[k - 1]) as int;
            match g.players[k - 1].verdict {
                Verdict::Guilty => (prev.0 + power, prev.1),
                Verdict::Innocent => (prev.0, prev.1 + power),
                Verdict::Abstain => prev,
            }
        } else {
            prev
        }
    }
}

/// Guilty and innocent verdict tallies over the whole roster.
pub open spec fn spec_verdict_counts(g: Game, pot: int) -> (int, int) {
    spec_verdict_counts_upto(g, pot, g.players@.len() as int)
}

/// The nomination votes cast for `t` among the first `k` participants; a
/// revealed mayor's vote counts three times.
pub open spec fn spec_votes_for_upto(g: Game, t: int, k: int) -> int
    decreases k,
{
    if k <= 0 {
        0
    } else {
        spec_votes_for_upto(g, t, k - 1) + if g.players[k - 1].alive && g.players[
            k - 1].chosen_vote == Some(t as u8) {
            crate::role::mayor::spec_voting_power(g.players[k - 1]) as int
        } else {
            0int
        }
    }
}

/// The nomination votes currently cast for `t`.
pub open spec fn spec_votes_for(g: Game, t: int) -> int {
    spec_votes_for_upto(g, t, g.players@.len() as int)
}

/// The lowest-indexed participant whose votes exceed half the living
/// count, searching from `t` up.
pub open spec fn spec_trial_winner_from(g: Game, t: int) -> Option<u8>
    decreases g.players@.len() - t,
{
    if t < 0 || t >= g.players@.len() {
        None
    } else if spec_votes_for(g, t) > spec_living(g) / 2 {
        Some(t as u8)
    } else {
        spec_trial_winner_from(g, t + 1)
    }
}

/// The participant sent to trial by the current votes, if any: the
/// lowest-indexed one with a strict majority of the living behind them.
pub open spec fn spec_trial_winner(g: Game) -> Option<u8> {
    spec_trial_winner_from(g, 0)
}

impl Game {
    /// The guilty and innocent verdict tallies against the player on
    /// trial. Dead participants and the accused do not vote; a revealed
    /// mayor votes with the weight of three.
    pub fn count_verdict_votes(&self, player_on_trial: u8) -> (r: (u8, u8))
        requires
            self.wf(),
        ensures
            r.0 as int == spec_verdict_counts(*self, player_on_trial as int).0,
            r.1 as int == spec_verdict_counts(*self, player_on_trial as int).1,
    {
        let mut guilty: u8 = 0;
        let mut innocent: u8 = 0;
        let mut i: usize = 0;
        while i < self.players.len()
            invariant
                self.wf(),
                i <= self.players@.len(),
                self.players@.len() <= MAX_PLAYERS as int,
                guilty as int == spec_verdict_counts_upto(
                    *self,
                    player_on_trial as int,
                    i as int,
                ).0,
                innocent as int == spec_verdict_counts_upto(
                    *self,
                    player_on_trial as int,
                    i as int,
                ).1,
                guilty as int <= 3 * i,
                innocent as int <= 3 * i,
            decreases self.players@.len() - i,
        {
            let p = &self.players[i];
            if p.alive && (i as u8) != player_on_trial {
                let power = crate::role::mayor::voting_power(p);
                match p.verdict {
                    Verdict::Guilty => {
                        guilty = guilty + power;
                    },
                    Verdict::Innocent => {
                        innocent = innocent + power;
                    },
                    Verdict::Abstain => {},
                }
            } else {
                proof {
                    if (i as u8) == player_on_trial {
                        assert(i as int == player_on_trial as int);
                    }
                }
            }
            i = i + 1;
        }
        (guilty, innocent)
    }

    /// The nomination votes currently cast for `target`.
    pub fn votes_for(&self, target: u8) -> (r: u8)
        requires
            self.wf(),
        ensures
            r as int == spec_votes_for(*self, target as int),
    {
        let mut votes: u8 = 0;
        let mut i: usize = 0;
        while i < self.players.len()
            invariant
                self.wf(),
                i <= self.players@.len(),
                self.players@.len() <= MAX_PLAYERS as int,
                votes as int == spec_votes_for_upto(*self, target as int, i as int),
                votes as int <= 3 * i,
            decreases self.players@.len() - i,
        {
            let p = &self.players[i];
            let voted_here = match p.chosen_vote {
                Some(v) => v == target,
                None => false,
            };
            if p.alive && voted_here {
                votes = votes + crate::role::mayor::voting_power(p);
            }
            i = i + 1;
        }
        votes
    }
}

/// Whether the engine currently declares the controller `x`: every seated
/// reporter declares three role slots, and the gun declares its two while
/// someone holds it.
pub open spec fn spec_declares(g: Game, x: ControllerID) -> bool {
    match x {
        ControllerID::Role { player, role, id } => {
            &&& role == Role::Reporter
            &&& id < 3
            &&& (player as int) < g.players@.len()
            &&& g.players@[player as int].role_state is Reporter
        },
        ControllerID::SyndicateGunItemShoot => g.syndicate_gun_item.player_with_gun is Some,
        ControllerID::SyndicateGunItemGive => g.syndicate_gun_item.player_with_gun is Some,
        _ => false,
    }
}

/// Whether a stored selection is a default: an empty choice of its kind.
pub open spec fn spec_defaultish(sel: crate::ability_input::AbilitySelection) -> bool {
    match sel {
        crate::ability_input::AbilitySelection::OnePlayerOption { selection } => selection
            is None,
        crate::ability_input::AbilitySelection::PlayerList { selection } => selection@.len() == 0,
        crate::ability_input::AbilitySelection::Boolean { selection } => selection == false,
        crate::ability_input::AbilitySelection::Text { selection } => selection@.len() == 0,
    }
}

impl Game {
    /// Every controller the engine declares right now, computed fresh from
    /// the live game state, with default selections: the reporters'
    /// controllers merged in index order, then the gun's, with
    /// later-declaration-wins semantics.
    pub fn controller_parameters_map(&self) -> (r: ControllerParametersMap)
        requires
            self.wf(),
        ensures
            r.wf(),
            forall|x: ControllerID| #[trigger] r.spec_get(x) is Some <==> spec_declares(*self, x),
            forall|x: ControllerID|
                #[trigger] r.spec_get(x) matches Some(p) ==> spec_defaultish(p.selection),
    {
        let mut r = ControllerParametersMap::new();
        let mut i: usize = 0;
        let n = self.players.len();
        while i < n
            invariant
                self.wf(),
                n == self.players@.len(),
                i <= n,
                r.wf(),
                forall|x: ControllerID|
                    #[trigger] r.spec_get(x) is Some <==> (x matches ControllerID::Role {
                        player,
                        role,
                        id,
                    } && role == Role::Reporter && id < 3 && (player as int) < i && self.players@[
                        player as int].role_state is Reporter),
                forall|x: ControllerID|
                    #[trigger] r.spec_get(x) matches Some(p) ==> spec_defaultish(p.selection),
            decreases n - i,
        {
            let is_reporter = matches!(&self.players[i].role_state, RoleState::Reporter(_));
            if is_reporter {
                let fresh = crate::role::reporter::Reporter::controller_parameters_map(
                    self,
                    i as u8,
                );
                let ghost fm = fresh;
                let ghost r_prev = r;
                r = r.combine_overwrite_owned(fresh);
                proof {
                    assert forall|x: ControllerID|
                        #[trigger] r.spec_get(x) is Some <==> (x matches ControllerID::Role {
                            player,
                            role,
                            id,
                        } && role == Role::Reporter && id < 3 && (player as int) < i + 1
                            && self.players@[player as int].role_state is Reporter) by {
                        let fv = fm.spec_get(x);
                        let pv = r_prev.spec_get(x);
                        assert(crate::ability_input::spec_has_key(fm.entries@, x) <==> fv
                            is Some);
                    }
                    assert forall|x: ControllerID|
                        (#[trigger] r.spec_get(x) matches Some(p) ==> spec_defaultish(
                        p.selection,
                    )) by {
                        let fv = fm.spec_get(x);
                        let pv = r_prev.spec_get(x);
                        assert(crate::ability_input::spec_has_key(fm.entries@, x) <==> fv
                            is Some);
                    }
                }
            } else {
                proof {
                    assert forall|x: ControllerID|
                        #[trigger] r.spec_get(x) is Some <==> (x matches ControllerID::Role {
                            player,
                            role,
                            id,
                        } && role == Role::Reporter && id < 3 && (player as int) < i + 1
                            && self.players@[player as int].role_state is Reporter) by {}
                }
            }
            i = i + 1;
        }
        let gun = SyndicateGunItem::controller_parameters_map(self);
        let ghost gm = gun;
        let ghost r_prev = r;
        let merged = r.combine_overwrite_owned(gun);
        proof {
            assert forall|x: ControllerID|
                #[trigger] merged.spec_get(x) is Some <==> spec_declares(*self, x) by {
                let gv = gm.spec_get(x);
                let pv = r_prev.spec_get(x);
                assert(crate::ability_input::spec_has_key(gm.entries@, x) <==> gv is Some);
            }
            assert forall|x: ControllerID|
                (#[trigger] merged.spec_get(x) matches Some(p) ==> spec_defaultish(
                p.selection,
            )) by {
                let gv = gm.spec_get(x);
                let pv = r_prev.spec_get(x);
                assert(crate::ability_input::spec_has_key(gm.entries@, x) <==> gv is Some);
            }
        }
        merged
    }

    /// Refreshes the declared controllers from the live game state at the
    /// start of `phase`. Every declaration (space, graying, owner) is
    /// recomputed fresh; a stored selection is carried over only when the
    /// controller is still declared, the declaration does not reset on
    /// this phase, and the old value still lies within the fresh available
    /// space — otherwise the selection returns to its default.
    pub fn update_controllers(&mut self, phase: PhaseType)
        requires
            old(self).wf(),
        ensures
            final(self).wf(),
            final(self).settings == old(self).settings,
            final(self).roles_to_players == old(self).roles_to_players,
            final(self).players == old(self).players,
            final(self).graves == old(self).graves,
            final(self).syndicate_gun_item == old(self).syndicate_gun_item,
            final(self).phase_machine == old(self).phase_machine,
            final(self).ticking == old(self).ticking,
            final(self).visits == old(self).visits,
            final(self).pending_kills == old(self).pending_kills,
            final(self).chat_log == old(self).chat_log,
            final(self).outbox == old(self).outbox,
            forall|x: ControllerID|
                #[trigger] final(self).saved_controllers.spec_get(x) is Some <==> spec_declares(
                    *old(self),
                    x,
                ),
            forall|x: ControllerID|
                #[trigger] final(self).saved_controllers.spec_get(x) matches Some(p) ==> {
                    let carried = {
                        &&& old(self).saved_controllers.spec_get(x) is Some
                        &&& p.reset_on_phase != Some(phase)
                        &&& crate::ability_input::spec_selection_valid(
                            p.available,
                            old(self).saved_controllers.spec_get(x).unwrap().selection,
                        )
                    };
                    if carried {
                        crate::ability_input::spec_selection_like(
                            p.selection,
                            old(self).saved_controllers.spec_get(x).unwrap().selection,
                        )
                    } else {
                        spec_defaultish(p.selection)
                    }
                },
    {
        let fresh = self.controller_parameters_map();
        let ghost fresh_map = fresh;
        let ghost old_map = self.saved_controllers;
        let mut result = ControllerParametersMap::new();
        let mut rest = fresh.entries;
        let ghost incoming = rest@;
        let mut k: usize = 0;
        let n = rest.len();
        proof {
            assert(rest@ =~= incoming.subrange(0, n as int));
        }
        while rest.len() > 0
            invariant
                self.wf(),
                *self == *old(self),
                old_map == old(self).saved_controllers,
                result.wf(),
                crate::ability_input::spec_keys_unique(incoming),
                n == incoming.len(),
                k + rest@.len() == n,
                rest@ == incoming.subrange(k as int, n as int),
                fresh_map.entries@ == incoming,
                fresh_map.wf(),
                forall|x: ControllerID| #[trigger] fresh_map.spec_get(x) is Some <==> spec_declares(
                    *old(self),
                    x,
                ),
                forall|x: ControllerID|
                    #[trigger] fresh_map.spec_get(x) matches Some(p) ==> spec_defaultish(
                        p.selection,
                    ),
                forall|x: ControllerID|
                    #[trigger] result.spec_get(x) is Some <==> crate::ability_input::spec_has_key(
                        incoming.subrange(0, k as int),
                        x,
                    ),
                forall|x: ControllerID|
                    #[trigger] result.spec_get(x) matches Some(p) ==> {
                        let carried = {
                            &&& old_map.spec_get(x) is Some
                            &&& p.reset_on_phase != Some(phase)
                            &&& crate::ability_input::spec_selection_valid(
                                p.available,
                                old_map.spec_get(x).unwrap().selection,
                            )
                        };
                        &&& (fresh_map.spec_get(x) matches Some(fp) && p.available == fp.available
                            && p.grayed_out == fp.grayed_out && p.reset_on_phase
                            == fp.reset_on_phase)
                        &&& if carried {
                            crate::ability_input::spec_selection_like(
                                p.selection,
                                old_map.spec_get(x).unwrap().selection,
                            )
                        } else {
                            spec_defaultish(p.selection)
                        }
                    },
            decreases rest@.len(),
        {
            let ghost rest_pre = rest@;
            let e = rest.remove(0);
            let ghost prefix = incoming.subrange(0, k as int);
            proof {
                assert(e == rest_pre[0]);
                assert(incoming.subrange(k as int, n as int)[0] == incoming[k as int]);
            }
            let (id, params) = e;
            proof {
                assert(incoming[k as int].0 == id && incoming[k as int].1 == params);
                crate::ability_input::lemma_key_index_unique(incoming, id, k as int);
                assert(fresh_map.spec_get(id) == Some(params));
            }
            let reset_here = match params.reset_on_phase {
                Some(rp) => rp == phase,
                None => false,
            };
            let carried: Option<crate::ability_input::AbilitySelection> = if reset_here {
                None
            } else {
                self.saved_controllers.get_selection_clone(id)
            };
            let final_params = match carried {
                Some(sel) => {
                    if crate::ability_input::selection_valid(&params.available, &sel) {
                        proof {
                            crate::ability_input::lemma_like_selection_same_validity(
                                params.available,
                                sel,
                                old_map.spec_get(id).unwrap().selection,
                            );
                        }
                        crate::ability_input::ControllerParameters { selection: sel, ..params }
                    } else {
                        proof {
                            crate::ability_input::lemma_like_selection_same_validity(
                                params.available,
                                sel,
                                old_map.spec_get(id).unwrap().selection,
                            );
                        }
                        crate::ability_input::ControllerParameters { ..params }
                    }
                },
                None => crate::ability_input::ControllerParameters { ..params },
            };
            result.insert_controller(id, final_params);
            proof {
                let prefix2 = incoming.subrange(0, k + 1 as int);
                assert forall|j: int| 0 <= j <= k implies prefix2[j] == incoming[j] by {}
                assert forall|x: ControllerID|
                    #[trigger] result.spec_get(x) is Some <==> crate::ability_input::spec_has_key(
                        prefix2,
                        x,
                    ) by {
                    if x == id {
                        assert(prefix2[k as int].0 == id);
                        assert(crate::ability_input::spec_has_key(prefix2, x));
                    } else {
                        if crate::ability_input::spec_has_key(prefix, x) {
                            let w = crate::ability_input::spec_key_index(prefix, x);
                            assert(prefix[w] == incoming[w]);
                            assert(prefix2[w].0 == x);
                        }
                        if crate::ability_input::spec_has_key(prefix2, x) {
                            let w = crate::ability_input::spec_key_index(prefix2, x);
                            assert(prefix2[w].0 == x);
                            assert(w != k);
                            assert(prefix[w] == incoming[w]);
                        }
                    }
                }
                assert(rest@ =~= incoming.subrange(k + 1 as int, n as int));
            }
            k = k + 1;
        }
        proof {
            assert(incoming.subrange(0, n as int) =~= incoming);
            assert forall|x: ControllerID|
                #[trigger] result.spec_get(x) is Some <==> spec_declares(*old(self), x) by {
                if crate::ability_input::spec_has_key(incoming, x) {
                    let w = crate::ability_input::spec_key_index(incoming, x);
                    crate::ability_input::lemma_key_index_unique(incoming, x, w);
                }
            }
        }
        self.saved_controllers = result;
    }
}

/// The roster with every participant's transient attributes reset to their
/// role-defined defaults.
pub open spec fn spec_reset_players(players: Seq<Player>) -> Seq<Player> {
    Seq::new(
        players.len(),
        |i: int|
            Player {
                night: crate::player::spec_default_night_vars(
                    players[i].role_state.spec_role(),
                    players[i].index,
                ),
                ..players[i]
            },
    )
}

/// The night model right after a phase is installed: everybody is told of
/// the phase change, and at night start every transient attribute returns
/// to its role-defined default.
pub open spec fn spec_phase_opening(g: Game, phase: PhaseState) -> crate::resolution::NightModel {
    let m = crate::resolution::night_model(g);
    let m1 = crate::resolution::NightModel {
        log: m.log.push(
            ChatEntryModel {
                recipients: crate::chat::spec_all_indices(g.players@.len() as int),
                message: ChatMessage::PhaseChange {
                    phase_type: phase.spec_phase(),
                    day_number: g.phase_machine.day_number,
                },
            },
        ),
        ..m
    };
    if phase.spec_is_night() {
        crate::resolution::NightModel { players: spec_reset_players(m1.players), ..m1 }
    } else {
        m1
    }
}

/// The configured duration of `phase`, halved while three or fewer
/// participants live — recomputed at every phase start, never mid-phase.
pub open spec fn spec_phase_base_time(g: Game, phase: PhaseState) -> u32 {
    let t = g.settings.phase_times.spec_time_for(phase.spec_phase()) as u32;
    if spec_living(g) <= 3 {
        (t / 2) as u32
    } else {
        t
    }
}

impl Game {
    /// Resets every participant's transient attributes to their
    /// role-defined defaults. Stale values never leak into the next night.
    pub fn reset_night_vars(&mut self)
        requires
            old(self).wf(),
        ensures
            final(self).wf(),
            final(self).players@ == spec_reset_players(old(self).players@),
            final(self).settings == old(self).settings,
            final(self).roles_to_players == old(self).roles_to_players,
            final(self).graves == old(self).graves,
            final(self).saved_controllers == old(self).saved_controllers,
            final(self).syndicate_gun_item == old(self).syndicate_gun_item,
            final(self).phase_machine == old(self).phase_machine,
            final(self).ticking == old(self).ticking,
            final(self).visits == old(self).visits,
            final(self).pending_kills == old(self).pending_kills,
            final(self).chat_log == old(self).chat_log,
            final(self).outbox == old(self).outbox,
    {
        let n = self.players.len();
        let mut i: usize = 0;
        while i < n
            invariant
                self.wf(),
                n == self.players@.len(),
                n == old(self).players@.len(),
                i <= n,
                self.settings == old(self).settings,
                self.roles_to_players == old(self).roles_to_players,
                self.graves == old(self).graves,
                self.saved_controllers == old(self).saved_controllers,
                self.syndicate_gun_item == old(self).syndicate_gun_item,
                self.phase_machine == old(self).phase_machine,
                self.ticking == old(self).ticking,
                self.visits == old(self).visits,
                self.pending_kills == old(self).pending_kills,
                self.chat_log == old(self).chat_log,
                self.outbox == old(self).outbox,
                forall|j: int|
                    0 <= j < i ==> (#[trigger] self.players@[j]) == spec_reset_players(
                        old(self).players@,
                    )[j],
                forall|j: int| i <= j < n ==> (#[trigger] self.players@[j]) == old(self).players@[j],
            decreases n - i,
        {
            let role = self.players[i].get_role();
            let idx = self.players[i].index;
            self.players[i].night = crate::player::default_night_vars(role, idx);
            proof {
                assert(spec_reset_players(old(self).players@)[i as int] == (Player {
                    night: crate::player::spec_default_night_vars(
                        old(self).players@[i as int].role_state.spec_role(),
                        old(self).players@[i as int].index,
                    ),
                    ..old(self).players@[i as int]
                }));
                assert(self.players@[i as int] == spec_reset_players(old(self).players@)[
                    i as int]);
            }
            i = i + 1;
        }
        proof {
            assert(self.players@ =~= spec_reset_players(old(self).players@));
        }
    }

    /// Installs `phase`: the phase clock is reset from configuration —
    /// halved while three or fewer participants live — everyone is told of
    /// the change, night start resets all transient attributes, every
    /// role's phase-start hook runs in stable index order (each living
    /// chronokaiser scaling the clock), and the declared controllers are
    /// refreshed.
    pub fn start_phase(&mut self, phase: PhaseState)
        requires
            old(self).wf(),
        ensures
            final(self).wf(),
            final(self).settings == old(self).settings,
            final(self).roles_to_players == old(self).roles_to_players,
            final(self).ticking == old(self).ticking,
            final(self).phase_machine.current_state == phase,
            final(self).phase_machine.day_number == old(self).phase_machine.day_number,
            outbox_view(*final(self)) == outbox_view(*old(self)).push(
                PacketModel::PhaseChange {
                    phase: phase.spec_phase(),
                    day_number: old(self).phase_machine.day_number,
                },
            ),
            ({
                let mh = crate::event::spec_phase_hooks(
                    spec_phase_opening(*old(self), phase),
                    phase.spec_phase(),
                );
                &&& final(self).players@ == mh.players
                &&& log_view(*final(self)) == mh.log
                &&& graves_view(*final(self)) == mh.graves
                &&& final(self).syndicate_gun_item.player_with_gun == mh.gun
                &&& final(self).visits@ == mh.visits
                &&& final(self).pending_kills@ == mh.pending
            }),
            final(self).phase_machine.time_remaining == crate::event::spec_hooks_time(
                spec_phase_opening(*old(self), phase).players,
                old(self).phase_machine.day_number,
                spec_phase_base_time(*old(self), phase),
            ),
    {
        let ghost g0 = *old(self);
        self.phase_machine.current_state = phase;
        let t16 = self.settings.phase_times.get_time_for(phase.phase());
        let living = self.living_count();
        proof {
            assert(spec_living(*self) == spec_living(g0)) by {
                lemma_living_congruence(*self, g0, g0.players@.len() as int);
            }
        }
        let t: u32 = if living <= 3 {
            (t16 as u32) / 2
        } else {
            t16 as u32
        };
        self.phase_machine.time_remaining = t;
        let day = self.phase_machine.day_number;
        self.send_packet_to_all(
            ToClientPacket::PhaseChange { phase: phase.phase(), day_number: day },
        );
        let ghost g1 = *self;
        self.add_message_to_chat_group(
            ChatGroup::All,
            ChatMessage::PhaseChange { phase_type: phase.phase(), day_number: day },
        );
        proof {
            crate::chat::lemma_all_group_members(g1, g1.players@.len() as int);
        }
        if matches!(phase, PhaseState::Night) {
            self.reset_night_vars();
        }
        proof {
            assert(crate::resolution::night_model(*self) =~= spec_phase_opening(g0, phase));
        }
        let event = crate::event::OnPhaseStart::new(phase.phase());
        event.invoke(self);
        self.update_controllers(phase.phase());
    }
}

/// The successor of the current phase when its timer elapses. Ending a
/// phase whose early-exit condition never fired still advances: a
/// nomination without a majority simply moves to evening, and a judgement
/// is decided by the verdict tallies at that moment.
pub open spec fn spec_phase_successor(g: Game) -> PhaseState {
    match g.phase_machine.current_state {
        PhaseState::Morning => PhaseState::Discussion,
        PhaseState::Discussion => PhaseState::Nomination { trials_left: 3u8 },
        PhaseState::Nomination { .. } => PhaseState::Evening,
        PhaseState::Testimony { trials_left, player_on_trial } => PhaseState::Judgement {
            trials_left,
            player_on_trial,
        },
        PhaseState::Judgement { trials_left, player_on_trial } => {
            let counts = spec_verdict_counts(g, player_on_trial as int);
            if counts.0 > counts.1 {
                PhaseState::Evening
            } else if trials_left > 0 {
                PhaseState::Nomination { trials_left }
            } else {
                PhaseState::Evening
            }
        },
        PhaseState::Evening => PhaseState::Night,
        PhaseState::Night => PhaseState::Obituary,
        PhaseState::Obituary => PhaseState::Morning,
    }
}

impl Game {
    /// Ends the current phase and installs its successor. At the
    /// judgement-to-evening boundary a guilty majority executes the player
    /// on trial; at the night-to-obituary boundary the whole night
    /// resolution pipeline runs; at the obituary-to-morning boundary the
    /// day counter advances, saturating rather than overflowing.
    pub fn end_phase(&mut self)
        requires
            old(self).wf(),
        ensures
            final(self).wf(),
            final(self).settings == old(self).settings,
            final(self).roles_to_players == old(self).roles_to_players,
            final(self).ticking == old(self).ticking,
            final(self).phase_machine.current_state == spec_phase_successor(*old(self)),
            final(self).phase_machine.day_number == if old(
                self,
            ).phase_machine.current_state is Obituary {
                if old(self).phase_machine.day_number < 255 {
                    (old(self).phase_machine.day_number + 1) as u8
                } else {
                    255u8
                }
            } else {
                old(self).phase_machine.day_number
            },
    {
        let current = self.get_current_phase();
        match current {
            PhaseState::Morning => {
                self.start_phase(PhaseState::Discussion);
            },
            PhaseState::Discussion => {
                self.start_phase(PhaseState::Nomination { trials_left: 3 });
            },
            PhaseState::Nomination { .. } => {
                self.start_phase(PhaseState::Evening);
            },
            PhaseState::Testimony { trials_left, player_on_trial } => {
                self.start_phase(PhaseState::Judgement { trials_left, player_on_trial });
            },
            PhaseState::Judgement { trials_left, player_on_trial } => {
                let (guilty, innocent) = self.count_verdict_votes(player_on_trial);
                self.add_message_to_chat_group(
                    ChatGroup::All,
                    ChatMessage::TrialVerdict { player_on_trial, innocent, guilty },
                );
                if guilty > innocent {
                    if (player_on_trial as usize) < self.players.len() {
                        let pot = player_on_trial as usize;
                        if self.players[pot].alive {
                            let role = self.players[pot].get_role();
                            let day = self.phase_machine.day_number;
                            self.players[pot].alive = false;
                            let mut killers: Vec<GraveKiller> = Vec::new();
                            killers.push(GraveKiller::Trial);
                            self.add_grave(
                                Grave { player: player_on_trial, role, day_number: day, killers },
                            );
                            SyndicateGunItem::on_any_death(self, player_on_trial);
                        }
                    }
                    self.start_phase(PhaseState::Evening);
                } else if trials_left > 0 {
                    self.start_phase(PhaseState::Nomination { trials_left });
                } else {
                    self.start_phase(PhaseState::Evening);
                }
            },
            PhaseState::Evening => {
                self.start_phase(PhaseState::Night);
            },
            PhaseState::Night => {
                self.resolve_night();
                self.start_phase(PhaseState::Obituary);
            },
            PhaseState::Obituary => {
                let day = self.phase_machine.day_number;
                self.phase_machine.day_number = if day < 255 {
                    day + 1
                } else {
                    255
                };
                self.start_phase(PhaseState::Morning);
            },
        }
    }

    /// Advances wall-clock time. A stopped game ignores ticks; a finished
    /// game, or one at the stalemate cutoff, is announced once and stops
    /// ticking; otherwise elapsed phases end (bounded per tick) and the
    /// clock decrements, saturating at zero — it never goes negative, and
    /// the phase duration is never re-evaluated mid-phase.
    pub fn tick(&mut self, time_passed: u32)
        requires
            old(self).wf(),
        ensures
            final(self).wf(),
            final(self).settings == old(self).settings,
            final(self).roles_to_players == old(self).roles_to_players,
            !old(self).ticking ==> *final(self) == *old(self),
            old(self).ticking && spec_game_is_over(*old(self)) ==> {
                &&& !final(self).ticking
                &&& final(self).players == old(self).players
                &&& final(self).phase_machine == old(self).phase_machine
                &&& outbox_view(*final(self)) == outbox_view(*old(self)).push(
                    PacketModel::GameOver { reason: GameOverReason::Winner },
                )
                &&& log_view(*final(self)) == log_view(*old(self)).push(
                    spec_group_entry(*old(self), ChatGroup::All, ChatMessage::GameOver),
                )
            },
            old(self).ticking && !spec_game_is_over(*old(self)) && old(
                self,
            ).phase_machine.day_number == 255 ==> {
                &&& !final(self).ticking
                &&& final(self).players == old(self).players
                &&& final(self).phase_machine == old(self).phase_machine
                &&& outbox_view(*final(self)) == outbox_view(*old(self)).push(
                    PacketModel::GameOver { reason: GameOverReason::ReachedMaxDay },
                )
                &&& log_view(*final(self)) == log_view(*old(self)).push(
                    spec_group_entry(*old(self), ChatGroup::All, ChatMessage::GameOver),
                )
            },
            (old(self).ticking && !spec_game_is_over(*old(self)) && old(
                self,
            ).phase_machine.day_number < 255 && old(self).phase_machine.time_remaining > 0) ==> {
                &&& final(self).phase_machine.current_state == old(
                    self,
                ).phase_machine.current_state
                &&& final(self).phase_machine.day_number == old(self).phase_machine.day_number
                &&& final(self).phase_machine.time_remaining == if old(
                    self,
                ).phase_machine.time_remaining >= time_passed {
                    (old(self).phase_machine.time_remaining - time_passed) as u32
                } else {
                    0u32
                }
                &&& final(self).players == old(self).players
                &&& final(self).chat_log == old(self).chat_log
                &&& final(self).outbox == old(self).outbox
                &&& final(self).graves == old(self).graves
                &&& final(self).ticking
            },
            (old(self).ticking && !spec_game_is_over(*old(self)) && old(
                self,
            ).phase_machine.day_number < 255) ==> {
                &&& final(self).ticking
                &&& final(self).phase_machine.day_number >= old(self).phase_machine.day_number
            },
    {
        if !self.ticking {
            return;
        }
        if self.game_is_over() {
            self.add_message_to_chat_group(ChatGroup::All, ChatMessage::GameOver);
            self.send_packet_to_all(ToClientPacket::GameOver { reason: GameOverReason::Winner });
            self.ticking = false;
            return;
        }
        if self.phase_machine.day_number == 255 {
            self.add_message_to_chat_group(ChatGroup::All, ChatMessage::GameOver);
            self.send_packet_to_all(
                ToClientPacket::GameOver { reason: GameOverReason::ReachedMaxDay },
            );
            self.ticking = false;
            return;
        }
        let ghost day0 = self.phase_machine.day_number;
        if self.phase_machine.time_remaining == 0 {
            let mut fuel: u8 = 30;
            while self.phase_machine.time_remaining == 0 && fuel > 0
                invariant
                    self.wf(),
                    self.settings == old(self).settings,
                    self.roles_to_players == old(self).roles_to_players,
                    self.ticking,
                    self.phase_machine.day_number >= day0,
                decreases fuel,
            {
                self.end_phase();
                fuel = fuel - 1;
            }
        }
        let t = self.phase_machine.time_remaining;
        self.phase_machine.time_remaining = if t >= time_passed {
            t - time_passed
        } else {
            0
        };
    }
}

/// The nomination votes for each participant, in index order.
pub open spec fn spec_vote_tallies(g: Game) -> Seq<u8> {
    Seq::new(g.players@.len(), |t: int| spec_votes_for(g, t) as u8)
}

/// Phase-start hooks act only at night, obituary and discussion starts;
/// every other phase start leaves the whole night model untouched.
pub proof fn lemma_hooks_noop(m: crate::resolution::NightModel, phase: PhaseType, k: int)
    requires
        0 <= k,
        phase != PhaseType::Night,
        phase != PhaseType::Obituary,
        phase != PhaseType::Discussion,
    ensures
        crate::event::spec_phase_hooks_upto(m, phase, k) == m,
    decreases k,
{
    if k > 0 {
        lemma_hooks_noop(m, phase, k - 1);
        assert(crate::role::spec_role_phase_start(m, k - 1, phase) == m) by {
            match m.players[k - 1].role_state {
                RoleState::Jailor(_) => {},
                RoleState::Reporter(_) => {},
                RoleState::Chronokaiser(_) => {},
                _ => {},
            }
        }
    }
}

impl Game {
    /// The participant the current votes send to trial, if any: the
    /// lowest-indexed one whose votes strictly exceed half the living
    /// count.
    pub fn trial_winner(&self) -> (r: Option<u8>)
        requires
            self.wf(),
        ensures
            r == spec_trial_winner(*self),
    {
        let living = self.living_count();
        let n = self.players.len();
        let mut w: usize = 0;
        while w < n
            invariant
                self.wf(),
                n == self.players@.len(),
                w <= n,
                living as int == spec_living(*self),
                spec_trial_winner(*self) == spec_trial_winner_from(*self, w as int),
            decreases n - w,
        {
            let votes = self.votes_for(w as u8);
            if (votes as usize) * 2 > living {
                proof {
                    assert(spec_votes_for(*self, w as int) > spec_living(*self) / 2);
                }
                return Some(w as u8);
            }
            proof {
                assert(!(spec_votes_for(*self, w as int) > spec_living(*self) / 2));
            }
            w = w + 1;
        }
        None
    }

    /// Counts the current nomination votes, publishes the tally, and — when
    /// some participant holds a strict majority of the living and trials
    /// remain — sends the lowest-indexed such participant to trial,
    /// starting the testimony phase with one fewer trial in the budget.
    /// Without a majority, nothing but the tally notification happens: not
    /// an error, simply no transition yet.
    pub fn count_votes_and_start_trial(&mut self)
        requires
            old(self).wf(),
        ensures
            final(self).wf(),
            !(old(self).phase_machine.current_state is Nomination) ==> *final(self) == *old(self),
            (old(self).phase_machine.current_state matches PhaseState::Nomination { trials_left }
                && (spec_trial_winner(*old(self)) is None || trials_left == 0)) ==> {
                &&& same_but_outbox(*final(self), *old(self))
                &&& outbox_view(*final(self)) == outbox_view(*old(self)).push(
                    PacketModel::PlayerVotes { votes_for_player: spec_vote_tallies(*old(self)) },
                )
            },
            (old(self).phase_machine.current_state matches PhaseState::Nomination { trials_left }
                && (spec_trial_winner(*old(self)) matches Some(w) && trials_left > 0)) ==> {
                let w = spec_trial_winner(*old(self)).unwrap();
                let pot = PhaseState::Testimony {
                    trials_left: (old(self).phase_machine.current_state->Nomination_trials_left
                        - 1) as u8,
                    player_on_trial: w,
                };
                &&& final(self).phase_machine.current_state == pot
                &&& final(self).phase_machine.day_number == old(self).phase_machine.day_number
                &&& final(self).ticking == old(self).ticking
                &&& final(self).settings == old(self).settings
                &&& final(self).roles_to_players == old(self).roles_to_players
                &&& final(self).players@ == old(self).players@
                &&& graves_view(*final(self)) == graves_view(*old(self))
                &&& outbox_view(*final(self)) == outbox_view(*old(self)).push(
                    PacketModel::PlayerVotes { votes_for_player: spec_vote_tallies(*old(self)) },
                ).push(PacketModel::PlayerOnTrial { player_index: w }).push(
                    PacketModel::PhaseChange {
                        phase: PhaseType::Testimony,
                        day_number: old(self).phase_machine.day_number,
                    },
                )
                &&& log_view(*final(self)) == log_view(*old(self)).push(
                    spec_group_entry(
                        *old(self),
                        ChatGroup::All,
                        ChatMessage::PhaseChange {
                            phase_type: PhaseType::Testimony,
                            day_number: old(self).phase_machine.day_number,
                        },
                    ),
                )
            },
    {
        let trials_left = match self.get_current_phase() {
            PhaseState::Nomination { trials_left } => trials_left,
            _ => {
                return;
            },
        };
        let ghost g0 = *old(self);
        let n = self.players.len();
        let mut tallies: Vec<u8> = Vec::new();
        let mut t: usize = 0;
        while t < n
            invariant
                self.wf(),
                *self == g0,
                n == self.players@.len(),
                t <= n,
                tallies@.len() == t as int,
                forall|j: int| 0 <= j < t ==> (#[trigger] tallies@[j]) as int == spec_votes_for(
                    g0,
                    j,
                ),
            decreases n - t,
        {
            let v = self.votes_for(t as u8);
            tallies.push(v);
            t = t + 1;
        }
        proof {
            assert(tallies@ =~= spec_vote_tallies(g0));
        }
        let winner = self.trial_winner();
        self.send_packet_to_all(ToClientPacket::PlayerVotes { votes_for_player: tallies });
        match winner {
            Some(win) => {
                if trials_left > 0 {
                    self.send_packet_to_all(ToClientPacket::PlayerOnTrial { player_index: win });
                    let ghost g1 = *self;
                    self.start_phase(
                        PhaseState::Testimony {
                            trials_left: trials_left - 1,
                            player_on_trial: win,
                        },
                    );
                    proof {
                        lemma_hooks_noop(
                            spec_phase_opening(
                                g1,
                                PhaseState::Testimony {
                                    trials_left: (trials_left - 1) as u8,
                                    player_on_trial: win,
                                },
                            ),
                            PhaseType::Testimony,
                            g1.players@.len() as int,
                        );
                        crate::chat::lemma_all_group_members(g1, g1.players@.len() as int);
                        crate::chat::lemma_all_group_members(g0, g0.players@.len() as int);
                        assert(log_view(*self) =~= log_view(g0).push(
                            spec_group_entry(
                                g0,
                                ChatGroup::All,
                                ChatMessage::PhaseChange {
                                    phase_type: PhaseType::Testimony,
                                    day_number: g0.phase_machine.day_number,
                                },
                            ),
                        ));
                    }
                }
            },
            None => {},
        }
    }
}

/// Whether the configured role list names a role that is also excluded.
pub open spec fn spec_role_excluded(settings: Settings) -> bool {
    exists|i: int, j: int|
        0 <= i < settings.role_list@.len() && 0 <= j < settings.excluded_roles@.len() && (
        #[trigger] settings.role_list@[i]) == (#[trigger] settings.excluded_roles@[j])
}

/// Whether the configured role list names a role that is also excluded.
pub fn role_list_excluded(settings: &Settings) -> (r: bool)
    ensures
        r == spec_role_excluded(*settings),
{
    let mut i: usize = 0;
    while i < settings.role_list.len()
        invariant
            i <= settings.role_list@.len(),
            forall|a: int, b: int|
                0 <= a < i && 0 <= b < settings.excluded_roles@.len() ==> (
                #[trigger] settings.role_list@[a]) != (#[trigger] settings.excluded_roles@[b]),
        decreases settings.role_list@.len() - i,
    {
        let mut j: usize = 0;
        while j < settings.excluded_roles.len()
            invariant
                i < settings.role_list@.len(),
                j <= settings.excluded_roles@.len(),
                forall|b: int|
                    0 <= b < j ==> settings.role_list@[i as int] != (
                    #[trigger] settings.excluded_roles@[b]),
            decreases settings.excluded_roles@.len() - j,
        {
            if settings.role_list[i] == settings.excluded_roles[j] {
                return true;
            }
            j = j + 1;
        }
        i = i + 1;
    }
    false
}

/// The win evaluator reads only the roster.
pub proof fn lemma_game_over_congruence(g1: Game, g2: Game)
    requires
        g1.players@ == g2.players@,
    ensures
        spec_game_is_over(g1) == spec_game_is_over(g2),
{
    assert forall|c: EndGameCondition|
        spec_has_condition(g1, c) == spec_has_condition(g2, c) by {}
    lemma_amnesiacs_congruence(g1, g2, g1.players@.len() as int);
    if spec_no_condition(g1) == spec_no_condition(g2) && spec_single_condition(g1)
        == spec_single_condition(g2) {
    }
    assert(spec_no_condition(g1) == spec_no_condition(g2));
    assert(spec_single_condition(g1) == spec_single_condition(g2));
}

/// The amnesiac count reads only the roster.
pub proof fn lemma_amnesiacs_congruence(g1: Game, g2: Game, k: int)
    requires
        g1.players@ == g2.players@,
        k <= g1.players@.len(),
    ensures
        crate::role::amnesiac::spec_living_amnesiacs_upto(g1, k)
            == crate::role::amnesiac::spec_living_amnesiacs_upto(g2, k),
    decreases k,
{
    if k > 0 {
        lemma_amnesiacs_congruence(g1, g2, k - 1);
    }
}

/// Whether some role in the list carries the win classification `c`. The
/// unaligned classification never counts.
pub open spec fn spec_roles_condition_present(roles: Seq<Role>, c: EndGameCondition) -> bool {
    &&& c != EndGameCondition::Unaligned
    &&& exists|i: int|
        0 <= i < roles.len() && crate::role::spec_end_game_condition(#[trigger] roles[i]) == c
}

/// At most one distinct win classification among the listed roles.
pub open spec fn spec_roles_single_condition(roles: Seq<Role>) -> bool {
    forall|c1: EndGameCondition, c2: EndGameCondition|
        spec_roles_condition_present(roles, c1) && spec_roles_condition_present(roles, c2)
            ==> c1 == c2
}

/// No win classification among the listed roles.
pub open spec fn spec_roles_no_condition(roles: Seq<Role>) -> bool {
    forall|c: EndGameCondition| !spec_roles_condition_present(roles, c)
}

/// How many of the first `k` listed roles are amnesiacs.
pub open spec fn spec_roles_amnesiacs_upto(roles: Seq<Role>, k: int) -> int
    decreases k,
{
    if k <= 0 {
        0
    } else {
        spec_roles_amnesiacs_upto(roles, k - 1) + if roles[k - 1] == Role::Amnesiac {
            1int
        } else {
            0int
        }
    }
}

/// Whether a freshly dealt roster of exactly these roles, all alive, would
/// already be decided: at most one distinct classification remains, unless
/// no classification remains and more than one amnesiac is seated.
pub open spec fn spec_roles_decided(roles: Seq<Role>) -> bool {
    if spec_roles_no_condition(roles) && spec_roles_amnesiacs_upto(roles, roles.len() as int)
        > 1 {
        false
    } else {
        spec_roles_single_condition(roles)
    }
}

/// A roster of living participants holding exactly these roles is over
/// exactly when the role list itself is already decided.
pub proof fn lemma_fresh_roster_decided(g: Game, roles: Seq<Role>)
    requires
        g.players@.len() == roles.len(),
        forall|i: int| 0 <= i < roles.len() ==> (#[trigger] g.players@[i]).alive,
        forall|i: int|
            0 <= i < roles.len() ==> (#[trigger] g.players@[i]).role_state.spec_role()
                == roles[i],
    ensures
        spec_game_is_over(g) == spec_roles_decided(roles),
{
    assert forall|c: EndGameCondition|
        spec_has_condition(g, c) == spec_roles_condition_present(roles, c) by {
        if spec_has_condition(g, c) {
            let w = choose|i: int|
                0 <= i < g.players@.len() && (#[trigger] g.players@[i]).alive
                    && crate::role::spec_end_game_condition(g.players@[i].role_state.spec_role())
                    == c;
            assert(crate::role::spec_end_game_condition(roles[w]) == c);
        }
        if spec_roles_condition_present(roles, c) {
            let w = choose|i: int|
                0 <= i < roles.len() && crate::role::spec_end_game_condition(#[trigger] roles[i])
                    == c;
            assert(g.players@[w].alive && crate::role::spec_end_game_condition(
                g.players@[w].role_state.spec_role(),
            ) == c);
        }
    }
    lemma_fresh_roster_amnesiacs(g, roles, roles.len() as int);
    assert(spec_no_condition(g) == spec_roles_no_condition(roles));
    assert(spec_single_condition(g) == spec_roles_single_condition(roles));
}

/// On an all-alive roster, the living amnesiac count is the role list's.
proof fn lemma_fresh_roster_amnesiacs(g: Game, roles: Seq<Role>, k: int)
    requires
        g.players@.len() == roles.len(),
        k <= roles.len(),
        forall|i: int| 0 <= i < roles.len() ==> (#[trigger] g.players@[i]).alive,
        forall|i: int|
            0 <= i < roles.len() ==> (#[trigger] g.players@[i]).role_state.spec_role()
                == roles[i],
    ensures
        crate::role::amnesiac::spec_living_amnesiacs_upto(g, k) == spec_roles_amnesiacs_upto(
            roles,
            k,
        ),
    decreases k,
{
    if k > 0 {
        lemma_fresh_roster_amnesiacs(g, roles, k - 1);
    }
}

/// The amnesiac count of a role list is its multiset's.
proof fn lemma_roles_amnesiacs_multiset(roles: Seq<Role>)
    ensures
        spec_roles_amnesiacs_upto(roles, roles.len() as int) == roles.to_multiset().count(
            Role::Amnesiac,
        ),
    decreases roles.len(),
{
    broadcast use vstd::seq_lib::group_to_multiset_ensures;

    if roles.len() > 0 {
        let sub = roles.drop_last();
        lemma_roles_amnesiacs_multiset(sub);
        lemma_roles_amnesiacs_prefix(roles, sub, roles.len() - 1);
        assert(roles =~= sub.push(roles.last()));
        assert(roles.to_multiset() == sub.to_multiset().insert(roles.last()));
    }
}

/// Counting only the first `k` roles reads only the first `k` entries.
proof fn lemma_roles_amnesiacs_prefix(r1: Seq<Role>, r2: Seq<Role>, k: int)
    requires
        k <= r1.len(),
        k <= r2.len(),
        forall|i: int| 0 <= i < k ==> r1[i] == r2[i],
    ensures
        spec_roles_amnesiacs_upto(r1, k) == spec_roles_amnesiacs_upto(r2, k),
    decreases k,
{
    if k > 0 {
        lemma_roles_amnesiacs_prefix(r1, r2, k - 1);
    }
}

/// Whether a dealt role list is already decided depends only on which
/// roles were dealt, never on the order they were dealt in.
pub proof fn lemma_roles_decided_permutation(r1: Seq<Role>, r2: Seq<Role>)
    requires
        r1.to_multiset() == r2.to_multiset(),
    ensures
        spec_roles_decided(r1) == spec_roles_decided(r2),
{
    broadcast use vstd::seq_lib::group_to_multiset_ensures;

    assert forall|c: EndGameCondition|
        spec_roles_condition_present(r1, c) == spec_roles_condition_present(r2, c) by {
        if spec_roles_condition_present(r1, c) {
            let w = choose|i: int|
                0 <= i < r1.len() && crate::role::spec_end_game_condition(#[trigger] r1[i]) == c;
            assert(r1.contains(r1[w]));
            assert(r1.to_multiset().count(r1[w]) > 0);
            assert(r2.to_multiset().count(r1[w]) > 0);
            assert(r2.contains(r1[w]));
            let j = choose|j: int| 0 <= j < r2.len() && r2[j] == r1[w];
            assert(crate::role::spec_end_game_condition(r2[j]) == c);
        }
        if spec_roles_condition_present(r2, c) {
            let w = choose|i: int|
                0 <= i < r2.len() && crate::role::spec_end_game_condition(#[trigger] r2[i]) == c;
            assert(r2.contains(r2[w]));
            assert(r2.to_multiset().count(r2[w]) > 0);
            assert(r1.to_multiset().count(r2[w]) > 0);
            assert(r1.contains(r2[w]));
            let j = choose|j: int| 0 <= j < r1.len() && r1[j] == r2[w];
            assert(crate::role::spec_end_game_condition(r1[j]) == c);
        }
    }
    lemma_roles_amnesiacs_multiset(r1);
    lemma_roles_amnesiacs_multiset(r2);
    assert(spec_roles_no_condition(r1) == spec_roles_no_condition(r2));
    assert(spec_roles_single_condition(r1) == spec_roles_single_condition(r2));
}

/// The display name of the mock participant at seat `i`.
pub open spec fn spec_mock_name(i: int) -> Seq<char> {
    if i == 0 { "0"@ } else if i == 1 { "1"@ } else if i == 2 { "2"@ } else if i == 3 {
        "3"@
    } else if i == 4 { "4"@ } else if i == 5 { "5"@ } else if i == 6 { "6"@ } else if i == 7 {
        "7"@
    } else if i == 8 { "8"@ } else if i == 9 { "9"@ } else if i == 10 { "10"@ } else if i == 11 {
        "11"@
    } else if i == 12 { "12"@ } else if i == 13 { "13"@ } else if i == 14 { "14"@ } else if i
        == 15 { "15"@ } else if i == 16 { "16"@ } else if i == 17 { "17"@ } else if i == 18 {
        "18"@
    } else {
        "19"@
    }
}

/// The display name of the mock participant at seat `i`.
fn mock_name(i: u8) -> (s: String)
    requires
        (i as int) < 20,
    ensures
        s@ == spec_mock_name(i as int),
{
    let lit: &str = match i {
        0 => "0",
        1 => "1",
        2 => "2",
        3 => "3",
        4 => "4",
        5 => "5",
        6 => "6",
        7 => "7",
        8 => "8",
        9 => "9",
        10 => "10",
        11 => "11",
        12 => "12",
        13 => "13",
        14 => "14",
        15 => "15",
        16 => "16",
        17 => "17",
        18 => "18",
        _ => "19",
    };
    String::from_str(lit)
}

/// The first phase's clock at creation: the configured evening duration,
/// halved when the whole roster is three seats or fewer.
pub open spec fn spec_initial_clock(settings: Settings, n: int) -> u32 {
    let t = settings.phase_times.evening as u32;
    if n <= 3 {
        (t / 2) as u32
    } else {
        t
    }
}

/// What creation guarantees of a freshly built, accepted game.
pub open spec fn spec_fresh_game_ok(g: Game, settings: Settings, n: int) -> bool {
    &&& g.wf()
    &&& g.players@.len() == n
    &&& g.roles_to_players@.len() == n
    &&& forall|i: int|
        0 <= i < n ==> (#[trigger] g.roles_to_players@[i]).1 == i as u8
    &&& forall|i: int|
        0 <= i < n ==> (#[trigger] g.players@[i]).role_state
            == crate::role::spec_default_data(g.roles_to_players@[i].0)
    &&& forall|i: int| 0 <= i < n ==> (#[trigger] g.players@[i]).alive
    &&& g.phase_machine.current_state == PhaseState::Evening
    &&& g.phase_machine.day_number == 1
    &&& g.phase_machine.time_remaining == spec_initial_clock(settings, n)
    &&& graves_view(g) == Seq::<GraveRecord>::empty()
    &&& log_view(g).len() == 1
    &&& !spec_game_is_over(g)
    &&& g.ticking
}

/// On day one nothing speeds the clock up: every chronokaiser scaling is
/// the identity, so the phase-start hooks leave the clock alone.
pub proof fn lemma_hooks_time_day_one(players: Seq<Player>, t0: u32, k: int)
    ensures
        crate::event::spec_hooks_time_upto(players, 1u8, t0, k) == t0,
    decreases k,
{
    if k > 0 {
        lemma_hooks_time_day_one(players, t0, k - 1);
        assert(crate::role::chronokaiser::spec_chrono_scaled_time(t0, 1u8) == t0) by {
            assert(crate::role::chronokaiser::spec_speed_up_percent(1u8) == 0);
            assert((t0 as int * 100) / 100 == t0 as int) by (nonlinear_arith);
        }
    }
}

/// On an all-alive roster, everyone counts as living.
pub proof fn lemma_living_all_alive(g: Game, k: int)
    requires
        0 <= k <= g.players@.len(),
        forall|i: int| 0 <= i < g.players@.len() ==> (#[trigger] g.players@[i]).alive,
    ensures
        spec_living_upto(g, k) == k,
    decreases k,
{
    if k > 0 {
        lemma_living_all_alive(g, k - 1);
        assert(g.players@[k - 1].alive);
        assert(spec_living_upto(g, k) == spec_living_upto(g, k - 1) + 1int);
    }
}

impl Game {
    /// Builds the common part of a new game from a dealt role order and a
    /// roster of names, then installs the first evening.
    fn build_game(settings: Settings, names: Vec<String>, dealt: Vec<Role>) -> (r: Result<
        Game,
        RejectStartReason,
    >)
        requires
            names@.len() == dealt@.len(),
            names@.len() <= MAX_PLAYERS as int,
        ensures
            match r {
                Ok(g) => {
                    &&& spec_fresh_game_ok(g, settings, names@.len() as int)
                    &&& forall|i: int|
                        0 <= i < names@.len() ==> (#[trigger] g.roles_to_players@[i]).0
                            == dealt@[i]
                    &&& forall|i: int|
                        0 <= i < names@.len() ==> (#[trigger] g.players@[i]).name@ == names@[i]@
                    &&& Seq::new(names@.len(), |i: int| g.roles_to_players@[i].0).to_multiset()
                        == dealt@.to_multiset()
                },
                Err(e) => e == RejectStartReason::RoleListCannotCreateRoles,
            },
            r is Ok <==> !spec_roles_decided(dealt@),
    {
        let ghost names0 = names@;
        let ghost dealt0 = dealt@;
        let n = names.len();
        let mut players: Vec<Player> = Vec::new();
        let mut roles_to_players: Vec<(Role, u8)> = Vec::new();
        let mut rest = names;
        let mut j: usize = 0;
        while rest.len() > 0
            invariant
                j + rest@.len() == n,
                n == names0.len(),
                n == dealt0.len(),
                n <= MAX_PLAYERS,
                dealt@ == dealt0,
                rest@ == names0.subrange(j as int, n as int),
                players@.len() == j as int,
                roles_to_players@.len() == j as int,
                forall|i: int|
                    0 <= i < j ==> (#[trigger] players@[i]).name@ == names0[i]@,
                forall|i: int| 0 <= i < j ==> ((#[trigger] players@[i]).index as int) == i,
                forall|i: int|
                    0 <= i < j ==> (#[trigger] players@[i]).role_state
                        == crate::role::spec_default_data(dealt0[i]),
                forall|i: int| 0 <= i < j ==> (#[trigger] players@[i]).alive,
                forall|i: int|
                    0 <= i < j ==> (#[trigger] players@[i]).chosen_vote is None && players@[
                        i].chosen_targets@.len() == 0,
                forall|i: int|
                    0 <= i < j ==> (#[trigger] roles_to_players@[i]) == (dealt0[i], i as u8),
            decreases rest@.len(),
        {
            let ghost rest_pre = rest@;
            let name = rest.remove(0);
            proof {
                assert(name == rest_pre[0]);
                assert(names0.subrange(j as int, n as int)[0] == names0[j as int]);
                assert(rest@ =~= names0.subrange(j + 1 as int, n as int));
            }
            let role = dealt[j];
            players.push(Player::new(name, j as u8, role));
            roles_to_players.push((role, j as u8));
            j = j + 1;
        }
        let evening_time = settings.phase_times.get_time_for(crate::phase::PhaseType::Evening);
        let game = Game {
            settings,
            roles_to_players,
            players,
            graves: Vec::new(),
            saved_controllers: ControllerParametersMap::new(),
            syndicate_gun_item: SyndicateGunItem { player_with_gun: None },
            phase_machine: PhaseStateMachine::new(evening_time as u32),
            ticking: true,
            visits: Vec::new(),
            pending_kills: Vec::new(),
            chat_log: Vec::new(),
            outbox: Vec::new(),
        };
        proof {
            assert(game.wf());
            assert forall|i: int|
                0 <= i < n ==> (#[trigger] game.players@[i]).role_state.spec_role()
                    == dealt0[i] by {
                if 0 <= i < n {
                    crate::role::lemma_default_data_role(dealt0[i]);
                }
            }
            lemma_fresh_roster_decided(game, dealt0);
        }
        if game.game_is_over() {
            return Err(RejectStartReason::RoleListCannotCreateRoles);
        }
        let mut game = game;
        let ghost built = game;
        game.start_phase(PhaseState::Evening);
        proof {
            lemma_hooks_noop(
                spec_phase_opening(built, PhaseState::Evening),
                PhaseType::Evening,
                built.players@.len() as int,
            );
            assert(game.players@ == built.players@);
            lemma_game_over_congruence(game, built);
            assert(Seq::new(n as nat, |i: int| game.roles_to_players@[i].0) =~= dealt0);
            assert(graves_view(built) =~= Seq::<GraveRecord>::empty());
            assert(log_view(built) =~= Seq::<ChatEntryModel>::empty());
            lemma_living_all_alive(built, built.players@.len() as int);
            lemma_hooks_time_day_one(
                spec_phase_opening(built, PhaseState::Evening).players,
                spec_phase_base_time(built, PhaseState::Evening),
                spec_phase_opening(built, PhaseState::Evening).players.len() as int,
            );
        }
        Ok(game)
    }

    /// Creates a game: validates the configuration, deals the configured
    /// roles to the seated participants in a random order, and installs the
    /// first evening. Creation either succeeds or surfaces one specific
    /// reason: a zero-time configuration, a role list smaller than the
    /// roster, or a role list that cannot produce a playable game.
    pub fn new(settings: Settings, lobby_players: Vec<String>) -> (r: Result<
        Game,
        RejectStartReason,
    >)
        requires
            lobby_players@.len() <= MAX_PLAYERS as int,
        ensures
            r matches Err(e) && e == RejectStartReason::ZeroTimeGame
                <==> settings.phase_times.spec_game_ends_instantly(),
            !settings.phase_times.spec_game_ends_instantly() && spec_role_excluded(settings)
                ==> r == Err::<Game, RejectStartReason>(
                RejectStartReason::RoleListCannotCreateRoles,
            ),
            r matches Err(e) && e == RejectStartReason::RoleListTooSmall
                <==> (!settings.phase_times.spec_game_ends_instantly() && !spec_role_excluded(
                settings,
            ) && settings.role_list@.len() < lobby_players@.len()),
            r matches Ok(g) ==> {
                &&& spec_fresh_game_ok(g, settings, lobby_players@.len() as int)
                &&& forall|i: int|
                    0 <= i < lobby_players@.len() ==> (#[trigger] g.players@[i]).name@
                        == lobby_players@[i]@
                &&& Seq::new(
                    lobby_players@.len(),
                    |i: int| g.roles_to_players@[i].0,
                ).to_multiset() == settings.role_list@.subrange(
                    0,
                    lobby_players@.len() as int,
                ).to_multiset()
            },
            r is Ok <==> (!settings.phase_times.spec_game_ends_instantly() && !spec_role_excluded(
                settings,
            ) && settings.role_list@.len() >= lobby_players@.len() && !spec_roles_decided(
                settings.role_list@.subrange(0, lobby_players@.len() as int),
            )),
    {
        if settings.phase_times.game_ends_instantly() {
            return Err(RejectStartReason::ZeroTimeGame);
        }
        if role_list_excluded(&settings) {
            return Err(RejectStartReason::RoleListCannotCreateRoles);
        }
        if settings.role_list.len() < lobby_players.len() {
            return Err(RejectStartReason::RoleListTooSmall);
        }
        let n = lobby_players.len();
        let ghost prefix = settings.role_list@.subrange(0, n as int);
        let mut dealt: Vec<Role> = Vec::new();
        let mut i: usize = 0;
        while i < n
            invariant
                i <= n,
                n <= settings.role_list@.len(),
                dealt@ == settings.role_list@.subrange(0, i as int),
            decreases n - i,
        {
            dealt.push(settings.role_list[i]);
            proof {
                assert(dealt@ =~= settings.role_list@.subrange(0, i + 1 as int));
            }
            i = i + 1;
        }
        crate::rng::shuffle(&mut dealt);
        let ghost shuffled = dealt@;
        proof {
            lemma_roles_decided_permutation(shuffled, prefix);
        }
        Game::build_game(settings, lobby_players, dealt)
    }
}

/// Creates a deterministic game for tests and local experimentation: the
/// same validation as `Game::new`, but seat `i` is named after its index
/// and receives the role list's `i`-th role, with no shuffling.
pub fn mock_game(settings: Settings, number_of_players: usize) -> (r: Result<
    Game,
    RejectStartReason,
>)
    requires
        number_of_players <= 20,
    ensures
        r matches Err(e) && e == RejectStartReason::ZeroTimeGame
            <==> settings.phase_times.spec_game_ends_instantly(),
        !settings.phase_times.spec_game_ends_instantly() && spec_role_excluded(settings) ==> r
            == Err::<Game, RejectStartReason>(RejectStartReason::RoleListCannotCreateRoles),
        r matches Err(e) && e == RejectStartReason::RoleListTooSmall
            <==> (!settings.phase_times.spec_game_ends_instantly() && !spec_role_excluded(settings)
            && settings.role_list@.len() < number_of_players as int),
        r matches Ok(g) ==> {
            &&& spec_fresh_game_ok(g, settings, number_of_players as int)
            &&& forall|i: int|
                0 <= i < number_of_players ==> (#[trigger] g.players@[i]).role_state
                    == crate::role::spec_default_data(settings.role_list@[i])
            &&& forall|i: int|
                0 <= i < number_of_players ==> (#[trigger] g.players@[i]).name@
                    == spec_mock_name(i)
        },
        r is Ok <==> (!settings.phase_times.spec_game_ends_instantly() && !spec_role_excluded(
            settings,
        ) && settings.role_list@.len() >= number_of_players as int && !spec_roles_decided(
            settings.role_list@.subrange(0, number_of_players as int),
        )),
{
    if settings.phase_times.game_ends_instantly() {
        return Err(RejectStartReason::ZeroTimeGame);
    }
    if role_list_excluded(&settings) {
        return Err(RejectStartReason::RoleListCannotCreateRoles);
    }
    if settings.role_list.len() < number_of_players {
        return Err(RejectStartReason::RoleListTooSmall);
    }
    let n = number_of_players;
    let mut dealt: Vec<Role> = Vec::new();
    let mut names: Vec<String> = Vec::new();
    let mut i: usize = 0;
    while i < n
        invariant
            i <= n,
            n <= 20,
            n <= settings.role_list@.len(),
            dealt@ == settings.role_list@.subrange(0, i as int),
            names@.len() == i as int,
            forall|j: int| 0 <= j < i ==> (#[trigger] names@[j])@ == spec_mock_name(j),
        decreases n - i,
    {
        dealt.push(settings.role_list[i]);
        names.push(mock_name(i as u8));
        proof {
            assert(dealt@ =~= settings.role_list@.subrange(0, i + 1 as int));
        }
        i = i + 1;
    }
    match Game::build_game(settings, names, dealt) {
        Ok(g) => {
            proof {
                assert forall|i2: int| 0 <= i2 < n implies (#[trigger] g.players@[i2]).role_state
                    == crate::role::spec_default_data(settings.role_list@[i2]) by {
                    assert(g.roles_to_players@[i2].0 == settings.role_list@.subrange(
                        0,
                        n as int,
                    )[i2]);
                }
            }
            Ok(g)
        },
        Err(e) => Err(e),
    }
}

/// Vote counting reads only the roster.
pub proof fn lemma_votes_congruence(g1: Game, g2: Game, t: int, k: int)
    requires
        g1.players@ == g2.players@,
        0 <= k <= g1.players@.len(),
    ensures
        spec_votes_for_upto(g1, t, k) == spec_votes_for_upto(g2, t, k),
    decreases k,
{
    if k > 0 {
        lemma_votes_congruence(g1, g2, t, k - 1);
    }
}

/// The alive count reads only the roster.
pub proof fn lemma_living_congruence(g1: Game, g2: Game, n: int)
    requires
        g1.players@ == g2.players@,
        n <= g1.players@.len(),
    ensures
        spec_living_upto(g1, n) == spec_living_upto(g2, n),
    decreases n,
{
    if n > 0 {
        lemma_living_congruence(g1, g2, n - 1);
    }
}

} // verus!
