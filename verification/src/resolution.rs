//! The night-action resolution pipeline.
//!
//! Every night, each participant's validated selections are converted into
//! tagged visit records, then every role effect executes in a fixed order of
//! priority buckets against the current, mutable game state: an earlier
//! bucket's effects are visible to later buckets within the same night.
//! Attack/defense adjudication enqueues pending deaths, which are committed
//! once, directly after the Kill bucket. Determinism rests on the bucket
//! order and, inside a bucket, on stable participant index order — never on
//! the iteration order of an unordered structure.

use vstd::prelude::*;

use crate::ability_input::{ControllerID, ControllerParameters};
use crate::attack_power::{attack_rank, defense_rank, AttackPower, DefensePower};
use crate::chat::ChatEntryModel;
use crate::game::{graves_view, log_view, Game, PendingKill};
use crate::grave::{Grave, GraveKiller, GraveRecord};
use crate::player::{NightVars, Player};
use crate::role::{common_role, Priority, Role, RoleState};
use crate::visit::{Visit, VisitTag};

verus! {

/// The mathematical value of everything night resolution may read or
/// change: the roster, tonight's visits, the pending deaths, the graves,
/// the chat log, the gun holder, the day number, and the stored controller
/// selections (read only).
#[verifier::ext_equal]
pub ghost struct NightModel {
    pub players: Seq<Player>,
    pub visits: Seq<Visit>,
    pub pending: Seq<PendingKill>,
    pub graves: Seq<GraveRecord>,
    pub log: Seq<ChatEntryModel>,
    pub gun: Option<u8>,
    pub day: u8,
    pub controllers: Seq<(ControllerID, ControllerParameters)>,
}

/// The night model of a game state.
pub open spec fn night_model(g: Game) -> NightModel {
    NightModel {
        players: g.players@,
        visits: g.visits@,
        pending: g.pending_kills@,
        graves: graves_view(g),
        log: log_view(g),
        gun: g.syndicate_gun_item.player_with_gun,
        day: g.phase_machine.day_number,
        controllers: g.saved_controllers.entries@,
    }
}

/// Everything night resolution leaves alone.
pub open spec fn night_frame(a: Game, b: Game) -> bool {
    &&& a.settings == b.settings
    &&& a.roles_to_players == b.roles_to_players
    &&& a.phase_machine == b.phase_machine
    &&& a.ticking == b.ticking
    &&& a.outbox == b.outbox
    &&& a.saved_controllers == b.saved_controllers
}

/// The first of tonight's role-ability visits made by `a`, searching from
/// position `k`.
pub open spec fn spec_first_role_visit_from(visits: Seq<Visit>, a: int, k: int) -> Option<Visit>
    decreases visits.len() - k,
{
    if k < 0 || k >= visits.len() {
        None
    } else if visits[k].visitor == a && visits[k].tag == VisitTag::Role {
        Some(visits[k])
    } else {
        spec_first_role_visit_from(visits, a, k + 1)
    }
}

/// The first of tonight's role-ability visits made by `a`, if any.
pub open spec fn spec_first_role_visit(visits: Seq<Visit>, a: int) -> Option<Visit> {
    spec_first_role_visit_from(visits, a, 0)
}

/// The first of tonight's role-ability visits made by `actor`, if any.
pub fn first_role_visit(game: &Game, actor: u8) -> (r: Option<Visit>)
    ensures
        r == spec_first_role_visit(game.visits@, actor as int),
{
    let mut k: usize = 0;
    while k < game.visits.len()
        invariant
            k <= game.visits@.len(),
            spec_first_role_visit(game.visits@, actor as int) == spec_first_role_visit_from(
                game.visits@,
                actor as int,
                k as int,
            ),
        decreases game.visits@.len() - k,
    {
        let v = game.visits[k];
        if v.visitor == actor && matches!(v.tag, VisitTag::Role) {
            return Some(v);
        }
        k = k + 1;
    }
    None
}

/// A heal never lowers defense: the result is the stronger of the current
/// defense and powerful protection.
pub open spec fn spec_upgrade_defense(d: DefensePower) -> DefensePower {
    if defense_rank(d) >= defense_rank(DefensePower::Powerful) {
        d
    } else {
        DefensePower::Powerful
    }
}

/// Kill adjudication against the target's defense at this exact moment. A
/// successful attack marks the target attacked and enqueues a pending death
/// with its cause; a defended or dead target is left untouched.
pub open spec fn spec_try_night_kill(
    m: NightModel,
    target: int,
    killer: GraveKiller,
    power: AttackPower,
) -> NightModel {
    if 0 <= target < m.players.len() && m.players[target].alive && attack_rank(power)
        > defense_rank(m.players[target].night.defense) {
        NightModel {
            players: m.players.update(
                target,
                Player {
                    night: NightVars { attacked: true, ..m.players[target].night },
                    ..m.players[target]
                },
            ),
            pending: m.pending.push(
                PendingKill { target: m.players[target].index, killer },
            ),
            ..m
        }
    } else {
        m
    }
}

impl Game {
    /// One attacker attacks `target` with `power` tonight. Succeeds exactly
    /// when the attack outranks the target's current defense; success
    /// enqueues a pending death recording `killer` as the cause.
    pub fn try_night_kill(&mut self, target: u8, killer: GraveKiller, power: AttackPower)
        requires
            old(self).wf(),
        ensures
            final(self).wf(),
            night_frame(*final(self), *old(self)),
            night_model(*final(self)) == spec_try_night_kill(
                night_model(*old(self)),
                target as int,
                killer,
                power,
            ),
    {
        let t = target as usize;
        if t < self.players.len() && self.players[t].alive && power.rank()
            > self.players[t].night.defense.rank() {
            let idx = self.players[t].index;
            self.players[t].night.attacked = true;
            self.pending_kills.push(PendingKill { target: idx, killer });
            proof {
                assert(night_model(*self) =~= spec_try_night_kill(
                    night_model(*old(self)),
                    target as int,
                    killer,
                    power,
                ));
            }
        } else {
            proof {
                assert(night_model(*self) =~= spec_try_night_kill(
                    night_model(*old(self)),
                    target as int,
                    killer,
                    power,
                ));
            }
        }
    }
}

/// What one participant's role does to the night in one priority bucket:
/// the closed dispatch over every role the engine knows. Roles with no
/// effect in the bucket leave the night unchanged.
pub open spec fn spec_role_night_action(m: NightModel, a: int, priority: Priority) -> NightModel {
    match m.players[a].role_state {
        RoleState::Consort => if priority is Roleblock {
            crate::role::consort::spec_consort_action(m, a)
        } else {
            m
        },
        RoleState::Sheriff => if priority is Investigative {
            crate::role::sheriff::spec_sheriff_action(m, a)
        } else {
            m
        },
        RoleState::Doctor(_) => if priority is Heal {
            crate::role::doctor::spec_doctor_action(m, a)
        } else {
            m
        },
        RoleState::Mafioso => if priority is Kill {
            crate::role::mafioso::spec_mafioso_action(m, a)
        } else {
            m
        },
        RoleState::Jailor(_) => if priority is Kill {
            crate::role::jailor::spec_jailor_action(m, a)
        } else {
            m
        },
        RoleState::Reporter(_) => if priority is Investigative {
            crate::role::reporter::spec_reporter_action(m, a)
        } else {
            m
        },
        _ => m,
    }
}

/// The visits a single participant's current selection produces: one visit
/// to the first selected target for the roles that visit, harmful for the
/// killing roles; dead participants and non-visiting roles produce none.
pub open spec fn spec_convert_player(p: Player) -> Seq<Visit> {
    if p.alive {
        crate::role::spec_role_convert(p.role_state.spec_role(), p.index, p.chosen_targets@)
    } else {
        Seq::empty()
    }
}

/// The visits of the first `k` participants, in stable index order.
pub open spec fn spec_build_visits_upto(players: Seq<Player>, k: int) -> Seq<Visit>
    decreases k,
{
    if k <= 0 {
        Seq::empty()
    } else {
        spec_build_visits_upto(players, k - 1) + spec_convert_player(players[k - 1])
    }
}

/// All visits produced from the roster's current selections.
pub open spec fn spec_build_visits(players: Seq<Player>) -> Seq<Visit> {
    spec_build_visits_upto(players, players.len() as int)
}

/// The causes pending against `t` among the first `k` pending kills, in
/// resolution order.
pub open spec fn spec_causes_upto(pending: Seq<PendingKill>, t: u8, k: int) -> Seq<GraveKiller>
    decreases k,
{
    if k <= 0 {
        Seq::empty()
    } else {
        let rest = spec_causes_upto(pending, t, k - 1);
        if pending[k - 1].target == t {
            rest.push(pending[k - 1].killer)
        } else {
            rest
        }
    }
}

/// All causes pending against `t`, in resolution order.
pub open spec fn spec_causes(pending: Seq<PendingKill>, t: u8) -> Seq<GraveKiller> {
    spec_causes_upto(pending, t, pending.len() as int)
}

/// Death commitment over the first `k` participants: each living
/// participant with at least one pending cause dies exactly once, with one
/// grave carrying every contributing cause.
pub open spec fn spec_commit_upto(m: NightModel, k: int) -> NightModel
    decreases k,
{
    if k <= 0 {
        m
    } else {
        let prev = spec_commit_upto(m, k - 1);
        let causes = spec_causes(prev.pending, prev.players[k - 1].index);
        if causes.len() > 0 && prev.players[k - 1].alive {
            let survivors = prev.players.update(
                k - 1,
                Player { alive: false, ..prev.players[k - 1] },
            );
            NightModel {
                players: survivors,
                graves: prev.graves.push(
                    GraveRecord {
                        player: prev.players[k - 1].index,
                        role: prev.players[k - 1].role_state.spec_role(),
                        day_number: prev.day,
                        killers: causes,
                    },
                ),
                gun: if prev.gun == Some(prev.players[k - 1].index) {
                    crate::syndicate_gun_item::spec_last_living_mafia_upto(
                        survivors,
                        survivors.len() as int,
                    )
                } else {
                    prev.gun
                },
                ..prev
            }
        } else {
            prev
        }
    }
}

/// All pending deaths committed once, in stable index order, and the
/// pending list emptied.
pub open spec fn spec_commit_deaths(m: NightModel) -> NightModel {
    NightModel { pending: Seq::empty(), ..spec_commit_upto(m, m.players.len() as int) }
}

impl Game {
    /// Rebuilds tonight's visit list from every participant's current
    /// selection, in stable index order, and clears the pending deaths.
    pub fn build_night_visits(&mut self)
        requires
            old(self).wf(),
        ensures
            final(self).wf(),
            night_frame(*final(self), *old(self)),
            night_model(*final(self)) == (NightModel {
                visits: spec_build_visits(old(self).players@),
                pending: Seq::empty(),
                ..night_model(*old(self))
            }),
    {
        let ghost m0 = night_model(*old(self));
        let mut visits: Vec<Visit> = Vec::new();
        let mut i: usize = 0;
        let n = self.players.len();
        while i < n
            invariant
                self.wf(),
                *self == *old(self),
                n == self.players@.len(),
                i <= n,
                visits@ == spec_build_visits_upto(self.players@, i as int),
            decreases n - i,
        {
            if self.players[i].alive {
                let role = self.players[i].get_role();
                let targets = crate::ability_input::copy_u8s(&self.players[i].chosen_targets);
                let mut vi = role.convert_targets_to_visits(self, i as u8, targets);
                proof {
                    assert(self.players@[i as int].index == i as int);
                    assert(vi@ == spec_convert_player(self.players@[i as int]));
                }
                visits.append(&mut vi);
            } else {
                proof {
                    assert(spec_convert_player(self.players@[i as int]) =~= Seq::<Visit>::empty());
                }
            }
            proof {
                assert(visits@ =~= spec_build_visits_upto(self.players@, i + 1 as int));
            }
            i = i + 1;
        }
        proof {
            assert(forall|k: int|
                0 <= k < visits@.len() ==> ((#[trigger] visits@[k]).visitor as int)
                    < self.players@.len() && (visits@[k].target as int) < self.players@.len())
                by {
                lemma_built_visits_wf(self.players@, self.players@.len() as int);
            }
        }
        self.visits = visits;
        self.pending_kills = Vec::new();
        proof {
            assert(night_model(*self) =~= (NightModel {
                visits: spec_build_visits(old(self).players@),
                pending: Seq::empty(),
                ..m0
            }));
        }
    }

    /// Commits every pending death: each living participant with at least
    /// one pending cause dies, producing exactly one grave that records all
    /// contributing causes; a participant already dead is immune to further
    /// death processing. The pending list is then emptied.
    pub fn commit_pending_deaths(&mut self)
        requires
            old(self).wf(),
        ensures
            final(self).wf(),
            night_frame(*final(self), *old(self)),
            night_model(*final(self)) == spec_commit_deaths(night_model(*old(self))),
    {
        let ghost m0 = night_model(*old(self));
        let n = self.players.len();
        let mut i: usize = 0;
        while i < n
            invariant
                self.wf(),
                night_frame(*self, *old(self)),
                n == self.players@.len(),
                i <= n,
                night_model(*self) == spec_commit_upto(m0, i as int),
                self.pending_kills@ == old(self).pending_kills@,
                self.phase_machine == old(self).phase_machine,
            decreases n - i,
        {
            let idx = self.players[i].index;
            proof {
                assert(self.players@[i as int].index == i as int);
            }
            let mut causes: Vec<GraveKiller> = Vec::new();
            let mut k: usize = 0;
            let np = self.pending_kills.len();
            while k < np
                invariant
                    np == self.pending_kills@.len(),
                    k <= np,
                    causes@ == spec_causes_upto(self.pending_kills@, idx, k as int),
                decreases np - k,
            {
                let pk = self.pending_kills[k];
                if pk.target == idx {
                    causes.push(pk.killer);
                }
                proof {
                    assert(causes@ =~= spec_causes_upto(self.pending_kills@, idx, k + 1 as int));
                }
                k = k + 1;
            }
            if causes.len() > 0 && self.players[i].alive {
                let role = self.players[i].get_role();
                let day = self.phase_machine.day_number;
                self.players[i].alive = false;
                let ghost gv = GraveRecord {
                    player: idx,
                    role,
                    day_number: day,
                    killers: causes@,
                };
                self.graves.push(Grave { player: idx, role, day_number: day, killers: causes });
                crate::syndicate_gun_item::SyndicateGunItem::on_any_death(self, idx);
                proof {
                    assert(night_model(*self) =~= spec_commit_upto(m0, i + 1 as int));
                }
            } else {
                proof {
                    assert(night_model(*self) =~= spec_commit_upto(m0, i + 1 as int));
                }
            }
            i = i + 1;
        }
        self.pending_kills = Vec::new();
        proof {
            assert(night_model(*self) =~= spec_commit_deaths(m0));
        }
    }
}

/// The first `k` participants' role actions applied in stable index order
/// within one bucket.
pub open spec fn spec_bucket_players(m: NightModel, priority: Priority, k: int) -> NightModel
    decreases k,
{
    if k <= 0 {
        m
    } else {
        spec_role_night_action(spec_bucket_players(m, priority, k - 1), k - 1, priority)
    }
}

/// One whole priority bucket: every participant's action in stable index
/// order, then the syndicate gun, then — after the Kill bucket only — the
/// one-time death commitment.
pub open spec fn spec_bucket(m: NightModel, priority: Priority) -> NightModel {
    let after_players = spec_bucket_players(m, priority, m.players.len() as int);
    let after_gun = crate::syndicate_gun_item::spec_gun_priority(after_players, priority);
    if priority is Kill {
        spec_commit_deaths(after_gun)
    } else {
        after_gun
    }
}

/// The first `k` buckets of the fixed priority order, applied in order.
pub open spec fn spec_buckets_upto(m: NightModel, k: int) -> NightModel
    decreases k,
{
    if k <= 0 {
        m
    } else {
        spec_bucket(spec_buckets_upto(m, k - 1), crate::role::priority_order()[k - 1])
    }
}

/// One whole night's resolution: selections become visits, the thirteen
/// buckets run in their fixed order, and the transient visit and pending
/// lists are discarded.
pub open spec fn spec_resolve_night(m: NightModel) -> NightModel {
    let prepared = NightModel {
        visits: spec_build_visits(m.players),
        pending: Seq::empty(),
        ..m
    };
    let resolved = spec_buckets_upto(prepared, crate::role::priority_order().len() as int);
    NightModel { visits: Seq::empty(), pending: Seq::empty(), ..resolved }
}

/// No role action changes the roster's size.
pub proof fn lemma_action_preserves_len(m: NightModel, a: int, priority: Priority)
    requires
        0 <= a < m.players.len(),
    ensures
        spec_role_night_action(m, a, priority).players.len() == m.players.len(),
{
    let m2 = spec_role_night_action(m, a, priority);
    match m.players[a].role_state {
        RoleState::Consort => {
            assert(m2.players.len() == m.players.len());
        },
        RoleState::Sheriff => {
            assert(m2.players.len() == m.players.len());
        },
        RoleState::Doctor(_) => {
            assert(m2.players.len() == m.players.len());
        },
        RoleState::Mafioso => {
            assert(m2.players.len() == m.players.len());
        },
        RoleState::Jailor(_) => {
            assert(m2.players.len() == m.players.len());
        },
        RoleState::Reporter(_) => {
            assert(m2.players.len() == m.players.len());
        },
        _ => {},
    }
}

impl Game {
    /// Resolves one night: converts every validated selection into visits,
    /// executes all role effects bucket by bucket in the fixed priority
    /// order against the current mutable state, commits pending deaths once
    /// after the Kill bucket, and discards the night's transient records.
    /// The whole outcome is a function of the starting night model alone.
    pub fn resolve_night(&mut self)
        requires
            old(self).wf(),
        ensures
            final(self).wf(),
            night_frame(*final(self), *old(self)),
            night_model(*final(self)) == spec_resolve_night(night_model(*old(self))),
    {
        let ghost g0 = *old(self);
        let ghost m0 = night_model(*old(self));
        self.build_night_visits();
        let ghost m1 = night_model(*self);
        proof {
            assert(m1 == (NightModel {
                visits: spec_build_visits(m0.players),
                pending: Seq::empty(),
                ..m0
            }));
        }
        let priorities = crate::role::Priority::values();
        let mut pi: usize = 0;
        while pi < priorities.len()
            invariant
                self.wf(),
                night_frame(*self, g0),
                priorities@ == crate::role::priority_order(),
                pi <= priorities@.len(),
                night_model(*self) == spec_buckets_upto(m1, pi as int),
            decreases priorities@.len() - pi,
        {
            let pr = priorities[pi];
            let ghost mb = night_model(*self);
            let n = self.players.len();
            let mut i: usize = 0;
            while i < n
                invariant
                    self.wf(),
                    night_frame(*self, g0),
                    n == self.players@.len(),
                    i <= n,
                    night_model(*self) == spec_bucket_players(mb, pr, i as int),
                decreases n - i,
            {
                let role = self.players[i].get_role();
                role.do_night_action(self, i as u8, pr);
                proof {
                    lemma_action_preserves_len(spec_bucket_players(mb, pr, i as int), i as int, pr);
                }
                i = i + 1;
            }
            proof {
                assert(mb.players.len() == n);
                assert(night_model(*self) == spec_bucket_players(mb, pr, mb.players.len() as int));
            }
            crate::syndicate_gun_item::SyndicateGunItem::on_night_priority(self, pr);
            if matches!(pr, Priority::Kill) {
                self.commit_pending_deaths();
            }
            proof {
                assert(night_model(*self) == spec_bucket(mb, pr));
                assert(crate::role::priority_order()[pi as int] == pr);
                assert(night_model(*self) == spec_buckets_upto(m1, pi + 1 as int));
            }
            pi = pi + 1;
        }
        self.visits = Vec::new();
        self.pending_kills = Vec::new();
        proof {
            assert(priorities@.len() == 13);
            assert(night_model(*self) =~= spec_resolve_night(m0));
        }
    }
}

/// Law: night resolution is deterministic. The resolved night is a
/// function of the starting night model alone — the role assignments, the
/// stored selections and the transient state — so identical inputs give
/// bit-identical grave lists and identical transient end states. The
/// executable pipeline is pinned to this function by `resolve_night`'s
/// contract.
pub proof fn lemma_night_resolution_deterministic(m1: NightModel, m2: NightModel)
    requires
        m1 == m2,
    ensures
        spec_resolve_night(m1) == spec_resolve_night(m2),
{
}

/// Law, first half: a roleblock, once set, stays set for the rest of the
/// night — no role action, by anyone, in any bucket, clears the flag — and
/// the blocked participant keeps their role and the roster keeps its size.
pub proof fn lemma_action_preserves_roleblock(m: NightModel, a: int, priority: Priority, b: int)
    requires
        0 <= a < m.players.len(),
        0 <= b < m.players.len(),
        m.players[b].night.roleblocked,
    ensures
        spec_role_night_action(m, a, priority).players.len() == m.players.len(),
        spec_role_night_action(m, a, priority).players[b].night.roleblocked,
        spec_role_night_action(m, a, priority).players[b].role_state.spec_role()
            == m.players[b].role_state.spec_role(),
{
    lemma_action_preserves_len(m, a, priority);
    let m2 = spec_role_night_action(m, a, priority);
    match m.players[a].role_state {
        RoleState::Consort => {
            assert(m2.players[b].night.roleblocked);
        },
        RoleState::Sheriff => {
            assert(m2.players[b].night.roleblocked);
        },
        RoleState::Doctor(_) => {
            assert(m2.players[b].night.roleblocked);
        },
        RoleState::Mafioso => {
            assert(m2.players[b].night.roleblocked);
        },
        RoleState::Jailor(_) => {
            assert(m2.players[b].night.roleblocked);
        },
        RoleState::Reporter(_) => {
            assert(m2.players[b].night.roleblocked);
        },
        _ => {},
    }
}

/// Law, second half: a roleblocked participant whose role can be blocked
/// does nothing in any bucket of the same night — their action leaves the
/// night exactly as it found it, for the Kill and Investigative buckets as
/// for every other.
pub proof fn lemma_roleblock_blocks_same_night(m: NightModel, b: int, priority: Priority)
    requires
        0 <= b < m.players.len(),
        m.players[b].night.roleblocked,
        crate::role::spec_roleblockable(m.players[b].role_state.spec_role()),
    ensures
        spec_role_night_action(m, b, priority) == m,
{
    let m2 = spec_role_night_action(m, b, priority);
    match m.players[b].role_state {
        RoleState::Sheriff => {
            assert(m2 == m);
        },
        RoleState::Doctor(_) => {
            assert(m2 == m);
        },
        RoleState::Mafioso => {
            assert(m2 == m);
        },
        RoleState::Reporter(_) => {
            assert(m2 == m);
        },
        _ => {},
    }
}

/// The roleblock flag survives a whole bucket's player fold.
pub proof fn lemma_bucket_players_preserve_roleblock(
    m: NightModel,
    priority: Priority,
    k: int,
    b: int,
)
    requires
        k <= m.players.len(),
        0 <= b < m.players.len(),
        m.players[b].night.roleblocked,
    ensures
        spec_bucket_players(m, priority, k).players.len() == m.players.len(),
        spec_bucket_players(m, priority, k).players[b].night.roleblocked,
        spec_bucket_players(m, priority, k).players[b].role_state.spec_role() == m.players[
            b].role_state.spec_role(),
    decreases k,
{
    if k > 0 {
        lemma_bucket_players_preserve_roleblock(m, priority, k - 1, b);
        lemma_action_preserves_roleblock(spec_bucket_players(m, priority, k - 1), k - 1, priority, b);
    }
}

/// Death commitment only clears alive flags; no step touches the roleblock
/// flag, anyone's role, or the roster's size.
pub proof fn lemma_commit_preserves_roleblock(m: NightModel, k: int, b: int)
    requires
        k <= m.players.len(),
        0 <= b < m.players.len(),
        m.players[b].night.roleblocked,
    ensures
        spec_commit_upto(m, k).players.len() == m.players.len(),
        spec_commit_upto(m, k).players[b].night.roleblocked,
        spec_commit_upto(m, k).players[b].role_state.spec_role() == m.players[
            b].role_state.spec_role(),
    decreases k,
{
    if k > 0 {
        lemma_commit_preserves_roleblock(m, k - 1, b);
    }
}

/// Law, completing the roleblock story for one bucket: a whole priority
/// bucket — every participant's action, the gun's work, and (after Kill)
/// the death commitment — never clears a roleblock, changes the blocked
/// participant's role, or resizes the roster.
pub proof fn lemma_bucket_preserves_roleblock(m: NightModel, priority: Priority, b: int)
    requires
        0 <= b < m.players.len(),
        m.players[b].night.roleblocked,
    ensures
        spec_bucket(m, priority).players.len() == m.players.len(),
        spec_bucket(m, priority).players[b].night.roleblocked,
        spec_bucket(m, priority).players[b].role_state.spec_role() == m.players[
            b].role_state.spec_role(),
{
    let after_players = spec_bucket_players(m, priority, m.players.len() as int);
    lemma_bucket_players_preserve_roleblock(m, priority, m.players.len() as int, b);
    let after_gun = crate::syndicate_gun_item::spec_gun_priority(after_players, priority);
    crate::syndicate_gun_item::lemma_gun_priority_preserves_roleblock(after_players, priority, b);
    if priority is Kill {
        lemma_commit_preserves_roleblock(after_gun, after_gun.players.len() as int, b);
        assert(spec_bucket(m, priority) == (NightModel {
            pending: Seq::empty(),
            ..spec_commit_upto(after_gun, after_gun.players.len() as int)
        }));
    }
}

/// Law: a roleblock applied in one bucket persists through every later
/// bucket of the same night — the flag set by the Roleblock bucket is
/// still in force when the Kill and Investigative buckets run, so together
/// with `lemma_roleblock_blocks_same_night` the blocked participant's
/// later-bucket effects are all no-ops.
pub proof fn lemma_roleblock_persists_through_buckets(m: NightModel, k: int, b: int)
    requires
        0 <= k,
        0 <= b < m.players.len(),
        m.players[b].night.roleblocked,
    ensures
        spec_buckets_upto(m, k).players.len() == m.players.len(),
        spec_buckets_upto(m, k).players[b].night.roleblocked,
        spec_buckets_upto(m, k).players[b].role_state.spec_role() == m.players[
            b].role_state.spec_role(),
    decreases k,
{
    if k > 0 {
        lemma_roleblock_persists_through_buckets(m, k - 1, b);
        lemma_bucket_preserves_roleblock(
            spec_buckets_upto(m, k - 1),
            crate::role::priority_order()[k - 1],
            b,
        );
    }
}

/// Every visit built from the roster points back into the roster.
pub proof fn lemma_built_visits_wf(players: Seq<Player>, k: int)
    requires
        forall|i: int| 0 <= i < players.len() ==> ((#[trigger] players[i]).index as int) == i,
        forall|i: int|
            0 <= i < players.len() ==> crate::game::player_refs_wf(
                #[trigger] players[i],
                players.len() as int,
            ),
        k <= players.len(),
    ensures
        forall|j: int|
            0 <= j < spec_build_visits_upto(players, k).len() ==> ((#[trigger]
            spec_build_visits_upto(players, k)[j]).visitor as int) < players.len() && (
            spec_build_visits_upto(players, k)[j].target as int) < players.len(),
    decreases k,
{
    if k > 0 {
        lemma_built_visits_wf(players, k - 1);
        let prev = spec_build_visits_upto(players, k - 1);
        let mine = spec_convert_player(players[k - 1]);
        assert forall|j: int|
            0 <= j < spec_build_visits_upto(players, k).len() implies ((#[trigger]
        spec_build_visits_upto(players, k)[j]).visitor as int) < players.len() && (
        spec_build_visits_upto(players, k)[j].target as int) < players.len() by {
            if j < prev.len() {
                assert(spec_build_visits_upto(players, k)[j] == prev[j]);
            } else {
                assert(spec_build_visits_upto(players, k)[j] == mine[j - prev.len()]);
                if mine.len() > 0 {
                    assert(players[k - 1].chosen_targets@.len() > 0);
                    assert(((players[k - 1].chosen_targets@[0]) as int) < players.len());
                }
            }
        }
    }
}

} // verus!
