//! Chat channels, messages, and channel membership.
//!
//! Channel membership is never stored: it is recomputed from the current
//! game state on every delivery, so visibility never drifts from the state
//! (deaths and detainments can change mid-phase).

use vstd::prelude::*;

use crate::game::Game;
use crate::grave::Grave;
use crate::phase::PhaseType;
use crate::role::{Faction, Role};
use crate::verdict::Verdict;

verus! {

/// Who a normal chat message is displayed as coming from.
#[derive(Clone, Copy, PartialEq, Eq, Structural, Debug)]
pub enum MessageSender {
    Player { player: u8 },
    Jailor,
    Medium,
}

/// A fixed enumeration of communication channels.
#[derive(Clone, Copy, PartialEq, Eq, Structural, Debug)]
pub enum ChatGroup {
    All,
    Mafia,
    Dead,
    Vampire,
    Coven,
    /// Materialized only while an active detainment exists.
    Jail,
    /// Materialized only while an active interview exists.
    Interview,
}

/// Information a participant learns during night resolution.
#[derive(Clone, Copy, PartialEq, Eq, Structural, Debug)]
pub enum NightInformation {
    /// What a sheriff's check reported.
    SheriffResult { suspicious: bool },
    /// The participant's ability was blocked tonight.
    RoleBlocked,
}

/// Everything that can appear in a chat stream.
#[derive(Debug)]
pub enum ChatMessage {
    Normal { message_sender: MessageSender, text: String, chat_group: ChatGroup },
    Whisper { from_player_index: u8, to_player_index: u8, text: String },
    BroadcastWhisper { whisperer: u8, whisperee: u8 },
    RoleAssignment { role: Role },
    PlayerDied { grave: Grave },
    GameOver,
    PhaseChange { phase_type: PhaseType, day_number: u8 },
    TrialInformation { required_votes: u8, trials_left: u8 },
    Voted { voter: u8, votee: Option<u8> },
    PlayerOnTrial { player_index: u8 },
    JudgementVerdict { voter_player_index: u8, verdict: Verdict },
    TrialVerdict { player_on_trial: u8, innocent: u8, guilty: u8 },
    Targeted { targeter: u8, targets: Vec<u8> },
    NightInformation { night_information: NightInformation },
    MayorRevealed { player_index: u8 },
    MayorCantWhisper,
    JailedTarget { player_index: u8 },
    JailorDecideExecuteYou,
    PlayerIsBeingInterviewed { player_index: u8 },
    ReporterReport { report: String },
    ChronokaiserSpeedUp { percent: u32 },
}

/// One delivered chat item: the message and exactly who received it, in the
/// order it was delivered. The log is append-only, so each participant's
/// stream order matches emission order.
#[derive(Debug)]
pub struct ChatEntry {
    pub recipients: Vec<u8>,
    pub message: ChatMessage,
}

/// The mathematical value of one delivered chat item.
pub ghost struct ChatEntryModel {
    pub recipients: Seq<u8>,
    pub message: ChatMessage,
}

impl View for ChatEntry {
    type V = ChatEntryModel;

    open spec fn view(&self) -> ChatEntryModel {
        ChatEntryModel { recipients: self.recipients@, message: self.message }
    }
}

/// Whether participant `i` is currently in `group`, as a function of the
/// current game state alone.
pub open spec fn spec_player_in_group(g: Game, i: int, group: ChatGroup) -> bool {
    match group {
        ChatGroup::All => true,
        ChatGroup::Dead => !g.players[i].alive,
        ChatGroup::Mafia => crate::role::spec_faction(g.players[i].role_state.spec_role())
            == Faction::Mafia,
        ChatGroup::Vampire => false,
        ChatGroup::Coven => false,
        ChatGroup::Jail => g.players[i].night.detained || (g.players[i].role_state.spec_role()
            == Role::Jailor && g.players[i].alive),
        ChatGroup::Interview => spec_in_interview(g, i),
    }
}

/// Whether participant `i` takes part in the currently materialized
/// interview: either as a living reporter with an interview running, or as
/// the interviewed target of some living reporter.
pub open spec fn spec_in_interview(g: Game, i: int) -> bool {
    ||| (g.players[i].alive && g.players[i].role_state matches crate::role::RoleState::Reporter(
        crate::role::reporter::Reporter { interviewed_target: Some(_) },
    ))
    ||| exists|j: int|
        0 <= j < g.players@.len() && g.players[j].alive && ((#[trigger] g.players[j].role_state)
            matches crate::role::RoleState::Reporter(crate::role::reporter::Reporter {
                interviewed_target: Some(t),
            }) && t == i)
}

impl ChatGroup {
    /// Whether `player_index` is currently in this channel. Recomputed from
    /// live state on every call; nothing is stored.
    pub fn player_in_group(&self, game: &Game, player_index: u8) -> (r: bool)
        requires
            player_index < game.players@.len(),
        ensures
            r == spec_player_in_group(*game, player_index as int, *self),
    {
        let p = &game.players[player_index as usize];
        match *self {
            ChatGroup::All => true,
            ChatGroup::Dead => !p.alive,
            ChatGroup::Mafia => p.get_role().faction() == Faction::Mafia,
            ChatGroup::Vampire => false,
            ChatGroup::Coven => false,
            ChatGroup::Jail => p.night.detained || (p.get_role() == Role::Jailor && p.alive),
            ChatGroup::Interview => {
                if p.alive {
                    match &p.role_state {
                        crate::role::RoleState::Reporter(rep) => {
                            if rep.interviewed_target.is_some() {
                                return true;
                            }
                        },
                        _ => {},
                    }
                }
                let mut j: usize = 0;
                while j < game.players.len()
                    invariant
                        *self is Interview,
                        j <= game.players@.len(),
                        player_index < game.players@.len(),
                        forall|q: int|
                            0 <= q < j ==> !(game.players@[q].alive && ((
                            #[trigger] game.players@[q].role_state) matches
                                crate::role::RoleState::Reporter(
                                crate::role::reporter::Reporter {
                                    interviewed_target: Some(t),
                                },
                            ) && t == player_index)),
                    decreases game.players@.len() - j,
                {
                    let pj = &game.players[j];
                    if pj.alive {
                        match &pj.role_state {
                            crate::role::RoleState::Reporter(rep) => {
                                match rep.interviewed_target {
                                    Some(t) => {
                                        if t == player_index {
                                            proof {
                                                assert(game.players@[j as int].alive && ((
                                                game.players@[j as int].role_state) matches
                                                    crate::role::RoleState::Reporter(
                                                    crate::role::reporter::Reporter {
                                                        interviewed_target: Some(t2),
                                                    },
                                                ) && t2 == player_index));
                                                assert(spec_in_interview(
                                                    *game,
                                                    player_index as int,
                                                ));
                                            }
                                            return true;
                                        }
                                    },
                                    None => {},
                                }
                            },
                            _ => {},
                        }
                    }
                    j = j + 1;
                }
                false
            },
        }
    }

    /// Every current member of this channel, in stable index order.
    pub fn all_players_in_group(&self, game: &Game) -> (r: Vec<u8>)
        requires
            game.players@.len() <= 255,
        ensures
            r@ == spec_group_members(*game, *self, game.players@.len() as int),
    {
        let mut out: Vec<u8> = Vec::new();
        let mut i: usize = 0;
        while i < game.players.len()
            invariant
                i <= game.players@.len(),
                game.players@.len() <= 255,
                out@ == spec_group_members(*game, *self, i as int),
            decreases game.players@.len() - i,
        {
            if self.player_in_group(game, i as u8) {
                out.push(i as u8);
            }
            i = i + 1;
        }
        out
    }
}

/// The members of `group` among the first `n` participants, in index order.
pub open spec fn spec_group_members(g: Game, group: ChatGroup, n: int) -> Seq<u8>
    decreases n,
{
    if n <= 0 {
        Seq::empty()
    } else {
        let rest = spec_group_members(g, group, n - 1);
        if spec_player_in_group(g, n - 1, group) {
            rest.push((n - 1) as u8)
        } else {
            rest
        }
    }
}

/// Every participant index below `n`, in order.
pub open spec fn spec_all_indices(n: int) -> Seq<u8> {
    Seq::new(n as nat, |i: int| i as u8)
}

/// The mafia-faction members among the first `n` entries of a roster, in
/// index order — channel membership expressed over the roster alone.
pub open spec fn spec_mafia_members(players: Seq<crate::player::Player>, n: int) -> Seq<u8>
    decreases n,
{
    if n <= 0 {
        Seq::empty()
    } else {
        let rest = spec_mafia_members(players, n - 1);
        if crate::role::spec_faction(players[n - 1].role_state.spec_role()) == Faction::Mafia {
            rest.push((n - 1) as u8)
        } else {
            rest
        }
    }
}

/// The mafia channel's members depend on the roster alone.
pub proof fn lemma_mafia_group_members(g: Game, n: int)
    ensures
        spec_group_members(g, ChatGroup::Mafia, n) == spec_mafia_members(g.players@, n),
    decreases n,
{
    if n > 0 {
        lemma_mafia_group_members(g, n - 1);
        assert(spec_group_members(g, ChatGroup::Mafia, n) =~= spec_mafia_members(g.players@, n));
    } else {
        assert(spec_group_members(g, ChatGroup::Mafia, n) =~= spec_mafia_members(g.players@, n));
    }
}

/// Everybody is a member of the global channel.
pub proof fn lemma_all_group_members(g: Game, n: int)
    requires
        0 <= n,
    ensures
        spec_group_members(g, ChatGroup::All, n) == spec_all_indices(n),
    decreases n,
{
    if n > 0 {
        lemma_all_group_members(g, n - 1);
        assert(spec_group_members(g, ChatGroup::All, n) =~= spec_all_indices(n));
    } else {
        assert(spec_group_members(g, ChatGroup::All, n) =~= spec_all_indices(n));
    }
}

} // verus!
