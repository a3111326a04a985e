//! Behaviour shared by several roles: default chat groups and visit building.

use vstd::prelude::*;

use crate::chat::ChatGroup;
use crate::game::Game;
use crate::phase::PhaseState;
use crate::role::{spec_faction, Faction};
use crate::visit::{Visit, VisitTag};

verus! {

/// The visits produced from a selection list: one visit to the first
/// selected target, harmful when `attack` is set; no selection, no visit.
pub open spec fn spec_convert_targets(actor: u8, targets: Seq<u8>, attack: bool) -> Seq<Visit> {
    if targets.len() > 0 {
        seq![
            Visit {
                visitor: actor,
                target: targets[0],
                attack,
                astral: false,
                tag: VisitTag::Role,
            },
        ]
    } else {
        Seq::empty()
    }
}

/// The visits produced from a selection list.
pub fn convert_targets_to_visits(actor_ref: u8, targets: &Vec<u8>, attack: bool) -> (r: Vec<Visit>)
    ensures
        r@ == spec_convert_targets(actor_ref, targets@, attack),
{
    let mut r: Vec<Visit> = Vec::new();
    if targets.len() > 0 {
        r.push(Visit {
            visitor: actor_ref,
            target: targets[0],
            attack,
            astral: false,
            tag: VisitTag::Role,
        });
        proof {
            assert(r@ =~= spec_convert_targets(actor_ref, targets@, attack));
        }
    } else {
        proof {
            assert(r@ =~= spec_convert_targets(actor_ref, targets@, attack));
        }
    }
    r
}

/// The channels a participant may speak in, as a pure function of phase,
/// alive flag and transient state. A dead participant speaks only with the
/// dead; a detained participant speaks only in the jail channel at night;
/// otherwise the phase decides, with `night_groups` taking over at night.
pub open spec fn spec_send_groups(g: Game, a: int, night_groups: Seq<ChatGroup>) -> Seq<ChatGroup> {
    let p = g.players[a];
    if !p.alive {
        seq![ChatGroup::Dead]
    } else if g.phase_machine.current_state is Night && p.night.detained {
        seq![ChatGroup::Jail]
    } else {
        match g.phase_machine.current_state {
            PhaseState::Morning => Seq::empty(),
            PhaseState::Discussion => seq![ChatGroup::All],
            PhaseState::Nomination { .. } => seq![ChatGroup::All],
            PhaseState::Testimony { player_on_trial, .. } => if player_on_trial == a {
                seq![ChatGroup::All]
            } else {
                Seq::empty()
            },
            PhaseState::Judgement { .. } => seq![ChatGroup::All],
            PhaseState::Evening => seq![ChatGroup::All],
            PhaseState::Night => night_groups,
            PhaseState::Obituary => Seq::empty(),
        }
    }
}

/// The channels a participant may speak in right now.
pub fn get_current_send_chat_groups(game: &Game, actor_ref: u8, night_groups: Vec<ChatGroup>) -> (r:
    Vec<ChatGroup>)
    requires
        (actor_ref as int) < game.players@.len(),
    ensures
        r@ == spec_send_groups(*game, actor_ref as int, night_groups@),
{
    let p = &game.players[actor_ref as usize];
    let mut r: Vec<ChatGroup> = Vec::new();
    if !p.alive {
        r.push(ChatGroup::Dead);
        proof {
            assert(r@ =~= spec_send_groups(*game, actor_ref as int, night_groups@));
        }
        return r;
    }
    if matches!(game.phase_machine.current_state, PhaseState::Night) && p.night.detained {
        r.push(ChatGroup::Jail);
        proof {
            assert(r@ =~= spec_send_groups(*game, actor_ref as int, night_groups@));
        }
        return r;
    }
    match game.phase_machine.current_state {
        PhaseState::Morning => {},
        PhaseState::Discussion => r.push(ChatGroup::All),
        PhaseState::Nomination { .. } => r.push(ChatGroup::All),
        PhaseState::Testimony { player_on_trial, .. } => {
            if player_on_trial == actor_ref {
                r.push(ChatGroup::All);
            }
        },
        PhaseState::Judgement { .. } => r.push(ChatGroup::All),
        PhaseState::Evening => r.push(ChatGroup::All),
        PhaseState::Night => {
            proof {
                assert(night_groups@ =~= spec_send_groups(
                    *game,
                    actor_ref as int,
                    night_groups@,
                ));
            }
            return night_groups;
        },
        PhaseState::Obituary => {},
    }
    proof {
        assert(r@ =~= spec_send_groups(*game, actor_ref as int, night_groups@));
    }
    r
}

/// The channels a participant currently receives, as a pure function of
/// phase, alive flag, faction and transient state: the global channel
/// always, the mafia channel for its members, the dead channel for the
/// dead, the jail channel while detained at night, then `extra`.
pub open spec fn spec_receive_groups(g: Game, a: int, extra: Seq<ChatGroup>) -> Seq<ChatGroup> {
    let p = g.players[a];
    seq![ChatGroup::All] + (if spec_faction(p.role_state.spec_role()) == Faction::Mafia {
        seq![ChatGroup::Mafia]
    } else {
        Seq::empty()
    }) + (if !p.alive {
        seq![ChatGroup::Dead]
    } else {
        Seq::empty()
    }) + (if g.phase_machine.current_state is Night && p.night.detained {
        seq![ChatGroup::Jail]
    } else {
        Seq::empty()
    }) + extra
}

/// The channels a participant currently receives.
pub fn get_current_receive_chat_groups(game: &Game, actor_ref: u8, extra: Vec<ChatGroup>) -> (r:
    Vec<ChatGroup>)
    requires
        (actor_ref as int) < game.players@.len(),
    ensures
        r@ == spec_receive_groups(*game, actor_ref as int, extra@),
{
    let p = &game.players[actor_ref as usize];
    let mut r: Vec<ChatGroup> = Vec::new();
    r.push(ChatGroup::All);
    if p.get_role().faction() == Faction::Mafia {
        r.push(ChatGroup::Mafia);
    }
    if !p.alive {
        r.push(ChatGroup::Dead);
    }
    if matches!(game.phase_machine.current_state, PhaseState::Night) && p.night.detained {
        r.push(ChatGroup::Jail);
    }
    let mut rest = extra;
    let ghost extra_view = rest@;
    let ghost base = r@;
    let mut k: usize = 0;
    let n = rest.len();
    proof {
        assert(rest@ =~= extra_view.subrange(0, n as int));
        assert(r@ =~= base + extra_view.subrange(0, 0));
    }
    while rest.len() > 0
        invariant
            n == extra_view.len(),
            k + rest@.len() == n,
            rest@ == extra_view.subrange(k as int, n as int),
            r@ == base + extra_view.subrange(0, k as int),
        decreases rest@.len(),
    {
        let ghost rest_pre = rest@;
        let e = rest.remove(0);
        proof {
            assert(e == rest_pre[0]);
            assert(extra_view.subrange(k as int, n as int)[0] == extra_view[k as int]);
        }
        r.push(e);
        proof {
            assert(extra_view.subrange(0, k + 1 as int) =~= extra_view.subrange(0, k as int).push(
                extra_view[k as int],
            ));
            assert(r@ =~= base + extra_view.subrange(0, k + 1 as int));
            assert(rest@ =~= extra_view.subrange(k + 1 as int, n as int));
        }
        k = k + 1;
    }
    proof {
        assert(extra_view.subrange(0, n as int) =~= extra_view);
        assert(r@ =~= spec_receive_groups(*game, actor_ref as int, extra_view));
    }
    r
}

} // verus!
