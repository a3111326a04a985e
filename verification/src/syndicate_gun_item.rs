//! The syndicate gun: a mafia-held item granting a basic attack at night.

use vstd::prelude::*;

use crate::ability_input::{
    AbilityInput, AbilitySelection, AvailableAbilitySelection, ControllerID, ControllerParameters,
    ControllerParametersMap, spec_selection_player_option,
};
use crate::attack_power::AttackPower;
use crate::game::Game;
use crate::grave::GraveKiller;
use crate::phase::PhaseType;
use crate::resolution::{night_frame, night_model, spec_try_night_kill, NightModel};
use crate::role::{Faction, Priority};
use crate::visit::{Visit, VisitTag};

verus! {

/// Cross-cutting game state for the syndicate gun. At most one participant
/// holds the gun at a time.
#[derive(Clone, Copy, PartialEq, Eq, Structural, Debug)]
pub struct SyndicateGunItem {
    pub player_with_gun: Option<u8>,
}

impl Default for SyndicateGunItem {
    /// At game start nobody holds the gun.
    fn default() -> (s: Self)
        ensures
            s == (SyndicateGunItem { player_with_gun: None }),
    {
        SyndicateGunItem { player_with_gun: None }
    }
}

/// The highest-indexed living mafia member of a roster, if any — who
/// inherits the gun when its holder dies.
pub open spec fn spec_last_living_mafia_upto(players: Seq<crate::player::Player>, k: int) -> Option<
    u8,
>
    decreases k,
{
    if k <= 0 {
        None
    } else if players[k - 1].alive && crate::role::spec_faction(
        players[k - 1].role_state.spec_role(),
    ) == Faction::Mafia {
        Some((k - 1) as u8)
    } else {
        spec_last_living_mafia_upto(players, k - 1)
    }
}

/// What the gun does in one priority bucket: at top priority the holder's
/// stored shot selection becomes one harmful gun-tagged visit; in the Kill
/// bucket every gun-tagged visit resolves as a basic mafia attack, in visit
/// order. Other buckets are untouched.
pub open spec fn spec_gun_priority(m: NightModel, priority: Priority) -> NightModel {
    match priority {
        Priority::TopPriority => {
            match m.gun {
                Some(h) => {
                    match spec_selection_player_option(
                        m.controllers,
                        ControllerID::SyndicateGunItemShoot,
                    ) {
                        Some(Some(t)) => {
                            if (t as int) < m.players.len() {
                                NightModel {
                                    visits: m.visits.push(
                                        Visit {
                                            visitor: h,
                                            target: t,
                                            attack: true,
                                            astral: false,
                                            tag: VisitTag::SyndicateGunItem,
                                        },
                                    ),
                                    ..m
                                }
                            } else {
                                m
                            }
                        },
                        _ => m,
                    }
                },
                None => m,
            }
        },
        Priority::Kill => spec_gun_kills_from(m.visits, m, 0),
        _ => m,
    }
}

/// Resolves every gun-tagged entry of the visit snapshot from position `k`
/// on, in order, as a basic mafia attack.
pub open spec fn spec_gun_kills_from(snapshot: Seq<Visit>, m: NightModel, k: int) -> NightModel
    decreases snapshot.len() - k,
{
    if k < 0 || k >= snapshot.len() {
        m
    } else {
        let m2 = if snapshot[k].tag == VisitTag::SyndicateGunItem {
            spec_try_night_kill(
                m,
                snapshot[k].target as int,
                GraveKiller::Faction(Faction::Mafia),
                AttackPower::Basic,
            )
        } else {
            m
        };
        spec_gun_kills_from(snapshot, m2, k + 1)
    }
}

/// Whether a submitted hand-over input is accepted: it must come from the
/// gun's holder, name the hand-over controller, and select a living mafia
/// member other than the holder.
pub open spec fn spec_gun_give_accepted(g: Game, actor: u8, input: AbilityInput) -> bool {
    &&& g.syndicate_gun_item.player_with_gun == Some(actor)
    &&& input.id == ControllerID::SyndicateGunItemGive
    &&& input.selection matches AbilitySelection::OnePlayerOption { selection: Some(t) }
        && actor != t && (t as int) < g.players@.len() && g.players@[t as int].alive
        && crate::role::spec_faction(g.players@[t as int].role_state.spec_role())
        == Faction::Mafia
}

impl SyndicateGunItem {
    /// Hands the gun to `player`; whoever held it before loses it.
    pub fn give_gun(game: &mut Game, player: u8)
        requires
            old(game).wf(),
            (player as int) < old(game).num_players(),
        ensures
            final(game).wf(),
            final(game).syndicate_gun_item == (SyndicateGunItem {
                player_with_gun: Some(player),
            }),
            final(game).settings == old(game).settings,
            final(game).roles_to_players == old(game).roles_to_players,
            final(game).players == old(game).players,
            final(game).graves == old(game).graves,
            final(game).saved_controllers == old(game).saved_controllers,
            final(game).phase_machine == old(game).phase_machine,
            final(game).ticking == old(game).ticking,
            final(game).visits == old(game).visits,
            final(game).pending_kills == old(game).pending_kills,
            final(game).chat_log == old(game).chat_log,
            final(game).outbox == old(game).outbox,
    {
        game.syndicate_gun_item.player_with_gun = Some(player);
    }

    /// Takes the gun out of play.
    pub fn take_gun(game: &mut Game)
        requires
            old(game).wf(),
        ensures
            final(game).wf(),
            final(game).syndicate_gun_item == (SyndicateGunItem { player_with_gun: None }),
            final(game).settings == old(game).settings,
            final(game).roles_to_players == old(game).roles_to_players,
            final(game).players == old(game).players,
            final(game).graves == old(game).graves,
            final(game).saved_controllers == old(game).saved_controllers,
            final(game).phase_machine == old(game).phase_machine,
            final(game).ticking == old(game).ticking,
            final(game).visits == old(game).visits,
            final(game).pending_kills == old(game).pending_kills,
            final(game).chat_log == old(game).chat_log,
            final(game).outbox == old(game).outbox,
    {
        game.syndicate_gun_item.player_with_gun = None;
    }

    /// When the gun's holder dies, the gun passes to the highest-indexed
    /// living mafia member, or leaves play when none remains.
    pub fn on_any_death(game: &mut Game, player: u8)
        requires
            old(game).wf(),
        ensures
            final(game).wf(),
            final(game).syndicate_gun_item.player_with_gun == if old(
                game,
            ).syndicate_gun_item.player_with_gun == Some(player) {
                spec_last_living_mafia_upto(old(game).players@, old(game).num_players())
            } else {
                old(game).syndicate_gun_item.player_with_gun
            },
            final(game).settings == old(game).settings,
            final(game).roles_to_players == old(game).roles_to_players,
            final(game).players == old(game).players,
            final(game).graves == old(game).graves,
            final(game).saved_controllers == old(game).saved_controllers,
            final(game).phase_machine == old(game).phase_machine,
            final(game).ticking == old(game).ticking,
            final(game).visits == old(game).visits,
            final(game).pending_kills == old(game).pending_kills,
            final(game).chat_log == old(game).chat_log,
            final(game).outbox == old(game).outbox,
    {
        let holder_died = match game.syndicate_gun_item.player_with_gun {
            Some(h) => h == player,
            None => false,
        };
        if !holder_died {
            return;
        }
        let mut heir: Option<u8> = None;
        let mut i: usize = 0;
        while i < game.players.len()
            invariant
                game.wf(),
                i <= game.players@.len(),
                heir == spec_last_living_mafia_upto(game.players@, i as int),
                heir matches Some(h) ==> (h as int) < i,
            decreases game.players@.len() - i,
        {
            if game.players[i].alive && game.players[i].get_role().faction() == Faction::Mafia {
                heir = Some(i as u8);
            }
            i = i + 1;
        }
        game.syndicate_gun_item.player_with_gun = heir;
    }

    /// The gun's night handler for one priority bucket.
    pub fn on_night_priority(game: &mut Game, priority: Priority)
        requires
            old(game).wf(),
        ensures
            final(game).wf(),
            night_frame(*final(game), *old(game)),
            night_model(*final(game)) == spec_gun_priority(night_model(*old(game)), priority),
    {
        match priority {
            Priority::TopPriority => {
                let holder = match game.syndicate_gun_item.player_with_gun {
                    Some(h) => h,
                    None => {
                        return;
                    },
                };
                let picked = game.saved_controllers.get_controller_current_selection_player_option(
                    ControllerID::syndicate_gun_item_shoot(),
                );
                match picked {
                    Some(Some(t)) => {
                        if (t as usize) < game.players.len() {
                            game.visits.push(
                                Visit {
                                    visitor: holder,
                                    target: t,
                                    attack: true,
                                    astral: false,
                                    tag: VisitTag::SyndicateGunItem,
                                },
                            );
                            proof {
                                assert(night_model(*game) =~= spec_gun_priority(
                                    night_model(*old(game)),
                                    priority,
                                ));
                            }
                        }
                    },
                    _ => {},
                }
            },
            Priority::Kill => {
                let ghost snapshot = game.visits@;
                let ghost m0 = night_model(*old(game));
                let n = game.visits.len();
                let mut k: usize = 0;
                while k < n
                    invariant
                        game.wf(),
                        night_frame(*game, *old(game)),
                        n == snapshot.len(),
                        k <= n,
                        game.visits@ == snapshot,
                        night_model(*game) == spec_gun_kills_m(snapshot, m0, k as int),
                    decreases n - k,
                {
                    let v = game.visits[k];
                    if matches!(v.tag, VisitTag::SyndicateGunItem) {
                        game.try_night_kill(
                            v.target,
                            GraveKiller::Faction(Faction::Mafia),
                            AttackPower::Basic,
                        );
                    }
                    proof {
                        lemma_gun_kills_m_step(snapshot, m0, k as int);
                    }
                    k = k + 1;
                }
                proof {
                    lemma_gun_kills_m_complete(snapshot, m0, n as int);
                }
            },
            _ => {},
        }
    }

    /// The holder's submitted give-selection hands the gun to a living
    /// mafia member other than themselves; any other input is ignored.
    pub fn on_validated_ability_input_received(
        game: &mut Game,
        actor_ref: u8,
        ability_input: AbilityInput,
    )
        requires
            old(game).wf(),
        ensures
            final(game).wf(),
            final(game).syndicate_gun_item.player_with_gun == if spec_gun_give_accepted(
                *old(game),
                actor_ref,
                ability_input,
            ) {
                match ability_input.selection {
                    AbilitySelection::OnePlayerOption { selection } => selection,
                    _ => old(game).syndicate_gun_item.player_with_gun,
                }
            } else {
                old(game).syndicate_gun_item.player_with_gun
            },
            final(game).settings == old(game).settings,
            final(game).roles_to_players == old(game).roles_to_players,
            final(game).players == old(game).players,
            final(game).graves == old(game).graves,
            final(game).saved_controllers == old(game).saved_controllers,
            final(game).phase_machine == old(game).phase_machine,
            final(game).ticking == old(game).ticking,
            final(game).visits == old(game).visits,
            final(game).pending_kills == old(game).pending_kills,
            final(game).chat_log == old(game).chat_log,
            final(game).outbox == old(game).outbox,
    {
        let holder = match game.syndicate_gun_item.player_with_gun {
            Some(h) => h,
            None => {
                return;
            },
        };
        if actor_ref != holder {
            return;
        }
        match ability_input.get_player_option_selection_if_id(
            ControllerID::syndicate_gun_item_give(),
        ) {
            Some(Some(target)) => {
                if actor_ref != target && (target as usize) < game.players.len()
                    && game.players[target as usize].alive
                    && game.players[target as usize].get_role().faction() == Faction::Mafia {
                    SyndicateGunItem::give_gun(game, target);
                }
            },
            _ => {},
        }
    }

    /// The gun's controllers while someone holds it: the shot (one living
    /// non-mafia participant, unusable on the first day or while the holder
    /// is detained or dead) and the hand-over (one living mafia member
    /// other than the holder, cleared at obituary). Without a holder there
    /// are no gun controllers.
    pub fn controller_parameters_map(game: &Game) -> (r: ControllerParametersMap)
        requires
            game.wf(),
        ensures
            r.wf(),
            forall|x: ControllerID|
                #[trigger] r.spec_get(x) is Some <==> (old_gun_has_controllers(*game) && (x
                    == ControllerID::SyndicateGunItemShoot || x
                    == ControllerID::SyndicateGunItemGive)),
            old_gun_has_controllers(*game) ==> (r.spec_get(ControllerID::SyndicateGunItemShoot)
                matches Some(p) && (p.available matches AvailableAbilitySelection::OnePlayerOption {
                available,
            } && (forall|x: Option<u8>|
                available@.contains(x) <==> spec_gun_shoot_choice(
                    *game,
                    game.syndicate_gun_item.player_with_gun.unwrap(),
                    x,
                ))) && (p.selection matches
                AbilitySelection::OnePlayerOption { selection: sel } && sel is None)
                && p.grayed_out == (game.phase_machine.day_number <= 1 || !game.players@[
                game.syndicate_gun_item.player_with_gun.unwrap() as int].alive
                || game.players@[
                game.syndicate_gun_item.player_with_gun.unwrap() as int].night.detained)
                && p.reset_on_phase == Some(PhaseType::Obituary)),
            old_gun_has_controllers(*game) ==> (r.spec_get(ControllerID::SyndicateGunItemGive)
                matches Some(p) && (p.available matches AvailableAbilitySelection::OnePlayerOption {
                available,
            } && (forall|x: Option<u8>|
                available@.contains(x) <==> spec_gun_give_choice(
                    *game,
                    game.syndicate_gun_item.player_with_gun.unwrap(),
                    x,
                ))) && (p.selection matches
                AbilitySelection::OnePlayerOption { selection: sel } && sel is None)
                && p.grayed_out == (!game.players@[
                game.syndicate_gun_item.player_with_gun.unwrap() as int].alive || game.players@[
                game.syndicate_gun_item.player_with_gun.unwrap() as int].night.detained)
                && p.reset_on_phase == Some(PhaseType::Obituary)),
    {
        let holder = match game.syndicate_gun_item.player_with_gun {
            Some(h) => h,
            None => {
                return ControllerParametersMap::new();
            },
        };
        let holder_alive = game.players[holder as usize].alive;
        let holder_detained = game.players[holder as usize].night.detained;
        let mut shoot_available: Vec<Option<u8>> = Vec::new();
        let mut give_available: Vec<Option<u8>> = Vec::new();
        let mut i: usize = 0;
        while i < game.players.len()
            invariant
                i <= game.players@.len(),
                game.players@.len() <= 255,
                forall|x: Option<u8>|
                    #[trigger] shoot_available@.contains(x) <==> (x matches Some(q) && (q as int)
                        < i && spec_gun_shoot_choice(*game, holder, x)),
                forall|x: Option<u8>|
                    #[trigger] give_available@.contains(x) <==> (x matches Some(q) && (q as int)
                        < i && spec_gun_give_choice(*game, holder, x)),
            decreases game.players@.len() - i,
        {
            let ghost shoot_pre = shoot_available@;
            let ghost give_pre = give_available@;
            let p = &game.players[i];
            if p.alive && (i as u8) != holder {
                if p.get_role().faction() == Faction::Mafia {
                    give_available.push(Some(i as u8));
                } else {
                    shoot_available.push(Some(i as u8));
                }
            }
            proof {
                assert forall|x: Option<u8>|
                    #[trigger] shoot_available@.contains(x) <==> (x matches Some(q) && (q as int)
                        < i + 1 && spec_gun_shoot_choice(*game, holder, x)) by {
                    crate::ability_input::lemma_contains_push(shoot_pre, Some(i as u8), x);
                }
                assert forall|x: Option<u8>|
                    #[trigger] give_available@.contains(x) <==> (x matches Some(q) && (q as int)
                        < i + 1 && spec_gun_give_choice(*game, holder, x)) by {
                    crate::ability_input::lemma_contains_push(give_pre, Some(i as u8), x);
                }
            }
            i = i + 1;
        }
        let ghost shoot_pre2 = shoot_available@;
        let ghost give_pre2 = give_available@;
        shoot_available.push(None);
        give_available.push(None);
        proof {
            assert forall|x: Option<u8>|
                #[trigger] shoot_available@.contains(x) <==> spec_gun_shoot_choice(
                    *game,
                    holder,
                    x,
                ) by {
                crate::ability_input::lemma_contains_push(shoot_pre2, None, x);
            }
            assert forall|x: Option<u8>|
                #[trigger] give_available@.contains(x) <==> spec_gun_give_choice(
                    *game,
                    holder,
                    x,
                ) by {
                crate::ability_input::lemma_contains_push(give_pre2, None, x);
            }
        }
        let mut owner_shoot: Vec<u8> = Vec::new();
        owner_shoot.push(holder);
        let mut owner_give: Vec<u8> = Vec::new();
        owner_give.push(holder);
        let mut r = ControllerParametersMap::new();
        r.insert_controller(
            ControllerID::syndicate_gun_item_shoot(),
            ControllerParameters {
                available: AvailableAbilitySelection::OnePlayerOption {
                    available: shoot_available,
                },
                selection: AbilitySelection::OnePlayerOption { selection: None },
                grayed_out: game.day_number() <= 1 || !holder_alive || holder_detained,
                reset_on_phase: Some(PhaseType::Obituary),
                allowed_players: owner_shoot,
            },
        );
        r.insert_controller(
            ControllerID::syndicate_gun_item_give(),
            ControllerParameters {
                available: AvailableAbilitySelection::OnePlayerOption {
                    available: give_available,
                },
                selection: AbilitySelection::OnePlayerOption { selection: None },
                grayed_out: !holder_alive || holder_detained,
                reset_on_phase: Some(PhaseType::Obituary),
                allowed_players: owner_give,
            },
        );
        r
    }
}

/// Whether the gun currently declares any controllers: exactly while
/// someone holds it.
pub open spec fn old_gun_has_controllers(g: Game) -> bool {
    g.syndicate_gun_item.player_with_gun is Some
}

/// The choices the gun's shot controller offers: holding fire, or any
/// living non-mafia participant other than the holder.
pub open spec fn spec_gun_shoot_choice(g: Game, holder: u8, x: Option<u8>) -> bool {
    match x {
        None => true,
        Some(q) => {
            &&& (q as int) < g.players@.len()
            &&& g.players@[q as int].alive
            &&& q != holder
            &&& crate::role::spec_faction(g.players@[q as int].role_state.spec_role())
                != Faction::Mafia
        },
    }
}

/// The choices the gun's hand-over controller offers: keeping the gun, or
/// any living mafia member other than the holder.
pub open spec fn spec_gun_give_choice(g: Game, holder: u8, x: Option<u8>) -> bool {
    match x {
        None => true,
        Some(q) => {
            &&& (q as int) < g.players@.len()
            &&& g.players@[q as int].alive
            &&& q != holder
            &&& crate::role::spec_faction(g.players@[q as int].role_state.spec_role())
                == Faction::Mafia
        },
    }
}

/// One step of the gun-kill fold, phrased over the model at step `k`.
pub open spec fn spec_gun_kills_m(snapshot: Seq<Visit>, m0: NightModel, k: int) -> NightModel
    decreases k,
{
    if k <= 0 {
        m0
    } else {
        let prev = spec_gun_kills_m(snapshot, m0, k - 1);
        if snapshot[k - 1].tag == VisitTag::SyndicateGunItem {
            spec_try_night_kill(
                prev,
                snapshot[k - 1].target as int,
                GraveKiller::Faction(Faction::Mafia),
                AttackPower::Basic,
            )
        } else {
            prev
        }
    }
}

/// The forward and backward phrasings of the gun-kill fold agree.
pub proof fn lemma_gun_kills_m_step(snapshot: Seq<Visit>, m0: NightModel, k: int)
    requires
        0 <= k < snapshot.len(),
    ensures
        spec_gun_kills_m(snapshot, m0, k + 1) == if snapshot[k].tag == VisitTag::SyndicateGunItem {
            spec_try_night_kill(
                spec_gun_kills_m(snapshot, m0, k),
                snapshot[k].target as int,
                GraveKiller::Faction(Faction::Mafia),
                AttackPower::Basic,
            )
        } else {
            spec_gun_kills_m(snapshot, m0, k)
        },
{
}

/// The gun's bucket work never clears anyone's roleblock, changes anyone's
/// role, or resizes the roster.
pub proof fn lemma_gun_priority_preserves_roleblock(m: NightModel, priority: Priority, b: int)
    requires
        0 <= b < m.players.len(),
        m.players[b].night.roleblocked,
    ensures
        spec_gun_priority(m, priority).players.len() == m.players.len(),
        spec_gun_priority(m, priority).players[b].night.roleblocked,
        spec_gun_priority(m, priority).players[b].role_state.spec_role() == m.players[
            b].role_state.spec_role(),
{
    match priority {
        Priority::Kill => {
            lemma_gun_kills_preserve_roleblock(m.visits, m, 0, b);
        },
        _ => {},
    }
}

/// Each step of the gun-kill descent only marks targets attacked; no step
/// touches the roleblock flag, anyone's role, or the roster's size.
proof fn lemma_gun_kills_preserve_roleblock(snapshot: Seq<Visit>, m: NightModel, k: int, b: int)
    requires
        0 <= b < m.players.len(),
        m.players[b].night.roleblocked,
    ensures
        spec_gun_kills_from(snapshot, m, k).players.len() == m.players.len(),
        spec_gun_kills_from(snapshot, m, k).players[b].night.roleblocked,
        spec_gun_kills_from(snapshot, m, k).players[b].role_state.spec_role() == m.players[
            b].role_state.spec_role(),
    decreases snapshot.len() - k,
{
    if 0 <= k < snapshot.len() {
        let m2 = if snapshot[k].tag == VisitTag::SyndicateGunItem {
            spec_try_night_kill(
                m,
                snapshot[k].target as int,
                GraveKiller::Faction(Faction::Mafia),
                AttackPower::Basic,
            )
        } else {
            m
        };
        lemma_gun_kills_preserve_roleblock(snapshot, m2, k + 1, b);
    }
}

/// Finishing the descent from the state after `k` step-indexed folds gives
/// the same night as the whole descent.
pub proof fn lemma_gun_kills_unfold(snapshot: Seq<Visit>, m0: NightModel, k: int)
    requires
        0 <= k <= snapshot.len(),
    ensures
        spec_gun_kills_from(snapshot, m0, 0) == spec_gun_kills_from(
            snapshot,
            spec_gun_kills_m(snapshot, m0, k),
            k,
        ),
    decreases k,
{
    if k > 0 {
        lemma_gun_kills_unfold(snapshot, m0, k - 1);
    }
}

/// The step-indexed fold equals the recursive descent used in the bucket
/// spec.
pub proof fn lemma_gun_kills_m_complete(snapshot: Seq<Visit>, m0: NightModel, n: int)
    requires
        n == snapshot.len(),
    ensures
        spec_gun_kills_m(snapshot, m0, n) == spec_gun_kills_from(snapshot, m0, 0),
{
    lemma_gun_kills_unfold(snapshot, m0, n);
}

} // verus!
