//! The closed set of roles, their declared constants and their mutable state.

pub mod chronokaiser;
pub mod common_role;
pub mod consort;
pub mod doctor;
pub mod jailor;
pub mod mafioso;
pub mod mayor;
pub mod medium;
pub mod reporter;
pub mod sheriff;
pub mod amnesiac;

use vstd::prelude::*;

use crate::attack_power::DefensePower;
use crate::end_game_condition::EndGameCondition;
use crate::phase::PhaseType;
use self::chronokaiser::Chronokaiser;
use self::doctor::Doctor;
use self::jailor::Jailor;
use self::mayor::Mayor;
use self::reporter::Reporter;

verus! {

/// The faction a role belongs to.
#[derive(Clone, Copy, PartialEq, Eq, Structural, Debug)]
pub enum Faction {
    Town,
    Mafia,
    Neutral,
}

/// A fixed-order stage of night resolution. All roles acting in a bucket
/// execute before the next bucket begins; the declaration order below is the
/// execution order, from highest to lowest precedence.
#[derive(Clone, Copy, PartialEq, Eq, Structural, Debug)]
pub enum Priority {
    TopPriority,
    Unswappable,
    Transporter,
    Control,
    Necromancy,
    Roleblock,
    Deception,
    Trickster,
    Bodyguard,
    Heal,
    Kill,
    Investigative,
    StealMessages,
}

impl Priority {
    /// All priority buckets, highest precedence first.
    pub fn values() -> (v: Vec<Priority>)
        ensures
            v@ == priority_order(),
    {
        let mut v: Vec<Priority> = Vec::new();
        v.push(Priority::TopPriority);
        v.push(Priority::Unswappable);
        v.push(Priority::Transporter);
        v.push(Priority::Control);
        v.push(Priority::Necromancy);
        v.push(Priority::Roleblock);
        v.push(Priority::Deception);
        v.push(Priority::Trickster);
        v.push(Priority::Bodyguard);
        v.push(Priority::Heal);
        v.push(Priority::Kill);
        v.push(Priority::Investigative);
        v.push(Priority::StealMessages);
        proof {
            assert(v@ =~= priority_order());
        }
        v
    }
}

/// The bucket execution order, highest precedence first.
pub open spec fn priority_order() -> Seq<Priority> {
    seq![
        Priority::TopPriority,
        Priority::Unswappable,
        Priority::Transporter,
        Priority::Control,
        Priority::Necromancy,
        Priority::Roleblock,
        Priority::Deception,
        Priority::Trickster,
        Priority::Bodyguard,
        Priority::Heal,
        Priority::Kill,
        Priority::Investigative,
        Priority::StealMessages,
    ]
}

/// The closed set of roles known to the engine.
#[derive(Clone, Copy, PartialEq, Eq, Structural, Debug)]
pub enum Role {
    Jailor,
    Mayor,
    Sheriff,
    Doctor,
    Medium,
    Reporter,
    Consort,
    Mafioso,
    Chronokaiser,
    Amnesiac,
}

/// A role together with its mutable, role-specific fields.
#[derive(Clone, Copy, PartialEq, Eq, Structural, Debug)]
pub enum RoleState {
    Jailor(Jailor),
    Mayor(Mayor),
    Sheriff,
    Doctor(Doctor),
    Medium,
    Reporter(Reporter),
    Consort,
    Mafioso,
    Chronokaiser(Chronokaiser),
    Amnesiac,
}

impl Role {
    /// All roles the engine knows.
    pub fn values() -> (v: Vec<Role>)
        ensures
            v@ == seq![
                Role::Jailor,
                Role::Mayor,
                Role::Sheriff,
                Role::Doctor,
                Role::Medium,
                Role::Reporter,
                Role::Consort,
                Role::Mafioso,
                Role::Chronokaiser,
                Role::Amnesiac,
            ],
    {
        let mut v: Vec<Role> = Vec::new();
        v.push(Role::Jailor);
        v.push(Role::Mayor);
        v.push(Role::Sheriff);
        v.push(Role::Doctor);
        v.push(Role::Medium);
        v.push(Role::Reporter);
        v.push(Role::Consort);
        v.push(Role::Mafioso);
        v.push(Role::Chronokaiser);
        v.push(Role::Amnesiac);
        proof {
            assert(v@ =~= seq![
                Role::Jailor,
                Role::Mayor,
                Role::Sheriff,
                Role::Doctor,
                Role::Medium,
                Role::Reporter,
                Role::Consort,
                Role::Mafioso,
                Role::Chronokaiser,
                Role::Amnesiac,
            ]);
        }
        v
    }

    /// The role-specific state a participant starts the game with.
    pub fn default_data(&self) -> (s: RoleState)
        ensures
            s == spec_default_data(*self),
    {
        match self {
            Role::Jailor => RoleState::Jailor(Jailor {
                jailed_target_ref: None,
                executions_remaining: 3,
            }),
            Role::Mayor => RoleState::Mayor(Mayor { revealed: false }),
            Role::Sheriff => RoleState::Sheriff,
            Role::Doctor => RoleState::Doctor(Doctor {
                self_heals_remaining: 1,
                target_healed_ref: None,
            }),
            Role::Medium => RoleState::Medium,
            Role::Reporter => RoleState::Reporter(Reporter { interviewed_target: None }),
            Role::Consort => RoleState::Consort,
            Role::Mafioso => RoleState::Mafioso,
            Role::Chronokaiser => RoleState::Chronokaiser(Chronokaiser {}),
            Role::Amnesiac => RoleState::Amnesiac,
        }
    }

    /// Whether a sheriff's investigation reports this role as suspicious.
    pub fn suspicious(&self) -> (r: bool)
        ensures
            r == spec_suspicious(*self),
    {
        matches!(self, Role::Consort | Role::Mafioso)
    }

    /// Whether a roleblock prevents this role's night ability.
    pub fn roleblockable(&self) -> (r: bool)
        ensures
            r == spec_roleblockable(*self),
    {
        !matches!(self, Role::Jailor | Role::Consort)
    }

    /// The defense power this role holds at the start of every night.
    pub fn defense(&self) -> (d: DefensePower)
        ensures
            d == spec_role_defense(*self),
    {
        DefensePower::NoDefense
    }

    /// The faction this role belongs to.
    pub fn faction(&self) -> (f: Faction)
        ensures
            f == spec_faction(*self),
    {
        match self {
            Role::Consort | Role::Mafioso => Faction::Mafia,
            Role::Chronokaiser | Role::Amnesiac => Faction::Neutral,
            _ => Faction::Town,
        }
    }

    /// How many participants may hold this role in one game, if capped.
    pub fn maximum_count(&self) -> (c: Option<u8>)
        ensures
            c == spec_maximum_count(*self),
    {
        match self {
            Role::Jailor | Role::Mayor | Role::Reporter => Some(1),
            _ => None,
        }
    }

    /// The win-condition classification of a living holder of this role.
    pub fn end_game_condition(&self) -> (c: EndGameCondition)
        ensures
            c == spec_end_game_condition(*self),
    {
        match self {
            Role::Consort | Role::Mafioso => EndGameCondition::Mafia,
            Role::Chronokaiser => EndGameCondition::Solo,
            Role::Amnesiac => EndGameCondition::Unaligned,
            _ => EndGameCondition::Town,
        }
    }

    /// How many simultaneous night targets this role may select.
    pub fn max_targets(&self) -> (n: u8)
        ensures
            n == spec_max_targets(*self),
    {
        match self {
            Role::Sheriff | Role::Doctor | Role::Consort | Role::Mafioso | Role::Jailor => 1,
            _ => 0,
        }
    }
}

/// The role-specific state a participant starts the game with.
pub open spec fn spec_default_data(role: Role) -> RoleState {
    match role {
        Role::Jailor => RoleState::Jailor(Jailor {
            jailed_target_ref: None,
            executions_remaining: 3,
        }),
        Role::Mayor => RoleState::Mayor(Mayor { revealed: false }),
        Role::Sheriff => RoleState::Sheriff,
        Role::Doctor => RoleState::Doctor(Doctor {
            self_heals_remaining: 1,
            target_healed_ref: None,
        }),
        Role::Medium => RoleState::Medium,
        Role::Reporter => RoleState::Reporter(Reporter { interviewed_target: None }),
        Role::Consort => RoleState::Consort,
        Role::Mafioso => RoleState::Mafioso,
        Role::Chronokaiser => RoleState::Chronokaiser(Chronokaiser {}),
        Role::Amnesiac => RoleState::Amnesiac,
    }
}

/// Whether a sheriff's investigation reports this role as suspicious.
pub open spec fn spec_suspicious(role: Role) -> bool {
    role == Role::Consort || role == Role::Mafioso
}

/// Whether a roleblock prevents this role's night ability.
pub open spec fn spec_roleblockable(role: Role) -> bool {
    !(role == Role::Jailor || role == Role::Consort)
}

/// The defense power this role holds at the start of every night.
pub open spec fn spec_role_defense(role: Role) -> DefensePower {
    DefensePower::NoDefense
}

/// The faction this role belongs to.
pub open spec fn spec_faction(role: Role) -> Faction {
    match role {
        Role::Consort | Role::Mafioso => Faction::Mafia,
        Role::Chronokaiser | Role::Amnesiac => Faction::Neutral,
        _ => Faction::Town,
    }
}

/// How many participants may hold this role in one game, if capped.
pub open spec fn spec_maximum_count(role: Role) -> Option<u8> {
    match role {
        Role::Jailor | Role::Mayor | Role::Reporter => Some(1u8),
        _ => None,
    }
}

/// The win-condition classification of a living holder of this role.
pub open spec fn spec_end_game_condition(role: Role) -> EndGameCondition {
    match role {
        Role::Consort | Role::Mafioso => EndGameCondition::Mafia,
        Role::Chronokaiser => EndGameCondition::Solo,
        Role::Amnesiac => EndGameCondition::Unaligned,
        _ => EndGameCondition::Town,
    }
}

/// How many simultaneous night targets this role may select.
pub open spec fn spec_max_targets(role: Role) -> u8 {
    match role {
        Role::Sheriff | Role::Doctor | Role::Consort | Role::Mafioso | Role::Jailor => 1u8,
        _ => 0u8,
    }
}

/// The visits a role produces from a selection list: the visiting roles
/// make one visit to the first selected target, harmful for the killers;
/// every other role makes none.
pub open spec fn spec_role_convert(role: Role, actor: u8, targets: Seq<u8>) -> Seq<crate::visit::Visit> {
    match role {
        Role::Sheriff => common_role::spec_convert_targets(actor, targets, false),
        Role::Consort => common_role::spec_convert_targets(actor, targets, false),
        Role::Doctor => common_role::spec_convert_targets(actor, targets, false),
        Role::Mafioso => common_role::spec_convert_targets(actor, targets, true),
        Role::Jailor => common_role::spec_convert_targets(actor, targets, true),
        _ => Seq::empty(),
    }
}

/// Whether a role may select `t` as a night target, given the current game
/// state. Roles without a night selection admit no target.
pub open spec fn spec_role_can_night_target(g: crate::game::Game, a: int, t: int) -> bool {
    match g.players[a].role_state {
        RoleState::Sheriff => crate::role::sheriff::spec_can_night_target(g, a, t),
        RoleState::Consort => crate::role::consort::spec_can_night_target(g, a, t),
        RoleState::Doctor(_) => crate::role::doctor::spec_can_night_target(g, a, t),
        RoleState::Mafioso => crate::role::mafioso::spec_can_night_target(g, a, t),
        RoleState::Jailor(js) => js.spec_can_select(g, a, t),
        _ => false,
    }
}

/// Whether a role may use its day ability on `t` right now. Roles without
/// a day ability admit no target.
pub open spec fn spec_role_can_day_target(g: crate::game::Game, a: int, t: int) -> bool {
    match g.players[a].role_state {
        RoleState::Jailor(js) => js.spec_can_day_target(g, a, t),
        RoleState::Mayor(ms) => ms.spec_can_day_target(g, a, t),
        _ => false,
    }
}

/// What a role's day action does. Roles without a day ability change
/// nothing.
pub open spec fn spec_role_day_action(
    m: crate::resolution::NightModel,
    g: crate::game::Game,
    a: int,
    t: int,
) -> crate::resolution::NightModel {
    match g.players[a].role_state {
        RoleState::Jailor(js) => crate::resolution::NightModel {
            players: m.players.update(
                a,
                crate::player::Player {
                    role_state: RoleState::Jailor(
                        crate::role::jailor::Jailor {
                            jailed_target_ref: if js.jailed_target_ref == Some(t as u8) {
                                None
                            } else {
                                Some(t as u8)
                            },
                            executions_remaining: js.executions_remaining,
                        },
                    ),
                    ..m.players[a]
                },
            ),
            ..m
        },
        RoleState::Mayor(_) => crate::role::mayor::spec_mayor_reveal(m, a),
        _ => m,
    }
}

/// What a role's phase-start hook does to the night model.
pub open spec fn spec_role_phase_start(
    m: crate::resolution::NightModel,
    a: int,
    phase: PhaseType,
) -> crate::resolution::NightModel {
    match m.players[a].role_state {
        RoleState::Jailor(_) => crate::role::jailor::spec_jailor_phase_start(m, a, phase),
        RoleState::Reporter(_) => crate::role::reporter::spec_reporter_phase_start(m, a, phase),
        RoleState::Chronokaiser(_) => crate::role::chronokaiser::spec_chrono_phase_message(
            m,
            a,
            phase,
        ),
        _ => m,
    }
}

/// The phase clock after a role's phase-start hook: only a living
/// chronokaiser changes it.
pub open spec fn spec_role_phase_time(g: crate::game::Game, a: int) -> u32 {
    if g.players[a].role_state.spec_role() == Role::Chronokaiser && g.players[a].alive {
        crate::role::chronokaiser::spec_chrono_scaled_time(
            g.phase_machine.time_remaining,
            g.phase_machine.day_number,
        )
    } else {
        g.phase_machine.time_remaining
    }
}

/// The channels a participant may currently speak in, by role.
pub open spec fn spec_role_send_groups(g: crate::game::Game, a: int) -> Seq<crate::chat::ChatGroup> {
    match g.players[a].role_state {
        RoleState::Jailor(_) => common_role::spec_send_groups(
            g,
            a,
            if crate::role::jailor::spec_any_detained(g) {
                seq![crate::chat::ChatGroup::Jail]
            } else {
                Seq::empty()
            },
        ),
        RoleState::Reporter(rs) => common_role::spec_send_groups(
            g,
            a,
            if g.phase_machine.current_state.spec_is_night() && g.players[a].alive && (
            rs.interviewed_target matches Some(t) && (t as int) < g.players@.len() && g.players[
                t as int].alive) {
                seq![crate::chat::ChatGroup::Interview]
            } else {
                Seq::empty()
            },
        ),
        RoleState::Consort => common_role::spec_send_groups(
            g,
            a,
            seq![crate::chat::ChatGroup::Mafia],
        ),
        RoleState::Mafioso => common_role::spec_send_groups(
            g,
            a,
            seq![crate::chat::ChatGroup::Mafia],
        ),
        RoleState::Medium => common_role::spec_send_groups(
            g,
            a,
            seq![crate::chat::ChatGroup::Dead],
        ),
        _ => common_role::spec_send_groups(g, a, Seq::empty()),
    }
}

/// The channels a participant currently receives, by role.
pub open spec fn spec_role_receive_groups(g: crate::game::Game, a: int) -> Seq<
    crate::chat::ChatGroup,
> {
    match g.players[a].role_state {
        RoleState::Jailor(_) => common_role::spec_receive_groups(
            g,
            a,
            if g.phase_machine.current_state.spec_is_night() && g.players[a].alive
                && crate::role::jailor::spec_any_detained(g) {
                seq![crate::chat::ChatGroup::Jail]
            } else {
                Seq::empty()
            },
        ),
        RoleState::Reporter(rs) => common_role::spec_receive_groups(
            g,
            a,
            if g.phase_machine.current_state.spec_is_night() && g.players[a].alive && (
            rs.interviewed_target matches Some(t) && (t as int) < g.players@.len() && g.players[
                t as int].alive) {
                seq![crate::chat::ChatGroup::Interview]
            } else {
                Seq::empty()
            },
        ),
        RoleState::Medium => common_role::spec_receive_groups(
            g,
            a,
            if g.phase_machine.current_state.spec_is_night() && g.players[a].alive {
                seq![crate::chat::ChatGroup::Dead]
            } else {
                Seq::empty()
            },
        ),
        _ => common_role::spec_receive_groups(g, a, Seq::empty()),
    }
}

impl Role {
    /// Dispatch: the visits this role produces from a selection list.
    pub fn convert_targets_to_visits(&self, game: &crate::game::Game, actor_ref: u8, target_refs:
        Vec<u8>) -> (r: Vec<crate::visit::Visit>)
        ensures
            r@ == spec_role_convert(*self, actor_ref, target_refs@),
    {
        match self {
            Role::Sheriff => crate::role::sheriff::convert_targets_to_visits(
                game,
                actor_ref,
                target_refs,
            ),
            Role::Consort => crate::role::consort::convert_targets_to_visits(
                game,
                actor_ref,
                target_refs,
            ),
            Role::Doctor => crate::role::doctor::convert_targets_to_visits(
                game,
                actor_ref,
                target_refs,
            ),
            Role::Mafioso => crate::role::mafioso::convert_targets_to_visits(
                game,
                actor_ref,
                target_refs,
            ),
            Role::Jailor => common_role::convert_targets_to_visits(actor_ref, &target_refs, true),
            _ => Vec::new(),
        }
    }

    /// Dispatch: this role's handler for one night-resolution bucket.
    pub fn do_night_action(&self, game: &mut crate::game::Game, actor_ref: u8, priority: Priority)
        requires
            old(game).wf(),
            (actor_ref as int) < old(game).num_players(),
            old(game).players@[actor_ref as int].role_state.spec_role() == *self,
        ensures
            final(game).wf(),
            crate::resolution::night_frame(*final(game), *old(game)),
            crate::resolution::night_model(*final(game))
                == crate::resolution::spec_role_night_action(
                crate::resolution::night_model(*old(game)),
                actor_ref as int,
                priority,
            ),
    {
        let state = game.players[actor_ref as usize].role_state;
        match state {
            RoleState::Consort => crate::role::consort::do_night_action(game, actor_ref, priority),
            RoleState::Sheriff => crate::role::sheriff::do_night_action(game, actor_ref, priority),
            RoleState::Doctor(_) => crate::role::doctor::do_night_action(
                game,
                actor_ref,
                priority,
            ),
            RoleState::Mafioso => crate::role::mafioso::do_night_action(game, actor_ref, priority),
            RoleState::Jailor(js) => js.do_night_action(game, actor_ref, priority),
            RoleState::Reporter(rs) => rs.do_night_action(game, actor_ref, priority),
            _ => {},
        }
    }

    /// Dispatch: whether this role may select `target_ref` tonight.
    pub fn can_night_target(&self, game: &crate::game::Game, actor_ref: u8, target_ref: u8) -> (r:
        bool)
        requires
            (actor_ref as int) < game.players@.len(),
            (target_ref as int) < game.players@.len(),
            game.players@[actor_ref as int].role_state.spec_role() == *self,
        ensures
            r == spec_role_can_night_target(*game, actor_ref as int, target_ref as int),
    {
        let state = game.players[actor_ref as usize].role_state;
        match state {
            RoleState::Sheriff => crate::role::sheriff::can_night_target(
                game,
                actor_ref,
                target_ref,
            ),
            RoleState::Consort => crate::role::consort::can_night_target(
                game,
                actor_ref,
                target_ref,
            ),
            RoleState::Doctor(_) => crate::role::doctor::can_night_target(
                game,
                actor_ref,
                target_ref,
            ),
            RoleState::Mafioso => crate::role::mafioso::can_night_target(
                game,
                actor_ref,
                target_ref,
            ),
            RoleState::Jailor(js) => js.can_select(game, actor_ref, target_ref),
            _ => false,
        }
    }

    /// Dispatch: whether this role may use its day ability on `target_ref`.
    pub fn can_day_target(&self, game: &crate::game::Game, actor_ref: u8, target_ref: u8) -> (r:
        bool)
        requires
            (actor_ref as int) < game.players@.len(),
            (target_ref as int) < game.players@.len(),
            game.players@[actor_ref as int].role_state.spec_role() == *self,
        ensures
            r == spec_role_can_day_target(*game, actor_ref as int, target_ref as int),
    {
        let state = game.players[actor_ref as usize].role_state;
        match state {
            RoleState::Jailor(js) => js.can_day_target(game, actor_ref, target_ref),
            RoleState::Mayor(ms) => ms.can_day_target(game, actor_ref, target_ref),
            _ => false,
        }
    }

    /// Dispatch: this role's day action.
    pub fn do_day_action(&self, game: &mut crate::game::Game, actor_ref: u8, target_ref: u8)
        requires
            old(game).wf(),
            (actor_ref as int) < old(game).num_players(),
            (target_ref as int) < old(game).num_players(),
            old(game).players@[actor_ref as int].role_state.spec_role() == *self,
        ensures
            final(game).wf(),
            crate::resolution::night_frame(*final(game), *old(game)),
            crate::resolution::night_model(*final(game)) == spec_role_day_action(
                crate::resolution::night_model(*old(game)),
                *old(game),
                actor_ref as int,
                target_ref as int,
            ),
    {
        let state = game.players[actor_ref as usize].role_state;
        match state {
            RoleState::Jailor(js) => {
                js.do_day_action(game, actor_ref, target_ref);
                proof {
                    assert(crate::resolution::night_model(*game) =~= spec_role_day_action(
                        crate::resolution::night_model(*old(game)),
                        *old(game),
                        actor_ref as int,
                        target_ref as int,
                    ));
                }
            },
            RoleState::Mayor(ms) => ms.do_day_action(game, actor_ref, target_ref),
            _ => {},
        }
    }

    /// Dispatch: this role's phase-start hook.
    pub fn on_phase_start(&self, game: &mut crate::game::Game, actor_ref: u8, phase: PhaseType)
        requires
            old(game).wf(),
            (actor_ref as int) < old(game).num_players(),
            old(game).players@[actor_ref as int].role_state.spec_role() == *self,
        ensures
            final(game).wf(),
            final(game).settings == old(game).settings,
            final(game).roles_to_players == old(game).roles_to_players,
            final(game).ticking == old(game).ticking,
            final(game).outbox == old(game).outbox,
            final(game).saved_controllers == old(game).saved_controllers,
            final(game).phase_machine.current_state == old(game).phase_machine.current_state,
            final(game).phase_machine.day_number == old(game).phase_machine.day_number,
            crate::resolution::night_model(*final(game)) == spec_role_phase_start(
                crate::resolution::night_model(*old(game)),
                actor_ref as int,
                phase,
            ),
            final(game).phase_machine.time_remaining == spec_role_phase_time(
                *old(game),
                actor_ref as int,
            ),
    {
        let state = game.players[actor_ref as usize].role_state;
        match state {
            RoleState::Jailor(js) => js.on_phase_start(game, actor_ref, phase),
            RoleState::Reporter(rs) => rs.on_phase_start(game, actor_ref, phase),
            RoleState::Chronokaiser(cs) => cs.on_phase_start(game, actor_ref, phase),
            RoleState::Consort => crate::role::consort::on_phase_start(game, actor_ref, phase),
            RoleState::Sheriff => crate::role::sheriff::on_phase_start(game, actor_ref, phase),
            _ => {},
        }
    }

    /// Dispatch: the channels this role's holder may currently speak in.
    pub fn get_current_send_chat_groups(&self, game: &crate::game::Game, actor_ref: u8) -> (r: Vec<
        crate::chat::ChatGroup,
    >)
        requires
            game.wf(),
            (actor_ref as int) < game.players@.len(),
            game.players@[actor_ref as int].role_state.spec_role() == *self,
        ensures
            r@ == spec_role_send_groups(*game, actor_ref as int),
    {
        let state = game.players[actor_ref as usize].role_state;
        match state {
            RoleState::Jailor(js) => js.get_current_send_chat_groups(game, actor_ref),
            RoleState::Reporter(rs) => rs.get_current_send_chat_groups(game, actor_ref),
            RoleState::Consort => crate::role::consort::get_current_chat_groups(game, actor_ref),
            RoleState::Mafioso => {
                let mut night_groups: Vec<crate::chat::ChatGroup> = Vec::new();
                night_groups.push(crate::chat::ChatGroup::Mafia);
                common_role::get_current_send_chat_groups(game, actor_ref, night_groups)
            },
            RoleState::Medium => crate::role::medium::get_current_chat_groups(game, actor_ref),
            RoleState::Sheriff => crate::role::sheriff::get_current_chat_groups(game, actor_ref),
            _ => {
                let night_groups: Vec<crate::chat::ChatGroup> = Vec::new();
                common_role::get_current_send_chat_groups(game, actor_ref, night_groups)
            },
        }
    }

    /// Dispatch: the channels this role's holder currently receives.
    pub fn get_current_receive_chat_groups(&self, game: &crate::game::Game, actor_ref: u8) -> (r:
        Vec<crate::chat::ChatGroup>)
        requires
            game.wf(),
            (actor_ref as int) < game.players@.len(),
            game.players@[actor_ref as int].role_state.spec_role() == *self,
        ensures
            r@ == spec_role_receive_groups(*game, actor_ref as int),
    {
        let state = game.players[actor_ref as usize].role_state;
        match state {
            RoleState::Jailor(js) => js.get_current_receive_chat_groups(game, actor_ref),
            RoleState::Reporter(rs) => rs.get_current_receive_chat_groups(game, actor_ref),
            RoleState::Medium => crate::role::medium::get_current_receive_chat_groups(
                game,
                actor_ref,
            ),
            _ => {
                let extra: Vec<crate::chat::ChatGroup> = Vec::new();
                common_role::get_current_receive_chat_groups(game, actor_ref, extra)
            },
        }
    }
}

/// A role's starting state carries that role's own tag.
pub proof fn lemma_default_data_role(r: Role)
    ensures
        spec_default_data(r).spec_role() == r,
{
    match r {
        Role::Jailor => {},
        Role::Mayor => {},
        Role::Sheriff => {},
        Role::Doctor => {},
        Role::Medium => {},
        Role::Reporter => {},
        Role::Consort => {},
        Role::Mafioso => {},
        Role::Chronokaiser => {},
        Role::Amnesiac => {},
    }
}

/// The uses a one-shot resource has left after a sequence of resolved
/// attempts: each attempt that finds uses remaining spends exactly one;
/// an attempt with none left spends nothing. The count is a natural
/// number, so it can never go negative.
pub open spec fn spec_uses_left(n: nat, attempts: Seq<bool>) -> nat
    decreases attempts.len(),
{
    if attempts.len() == 0 {
        n
    } else {
        let prev = spec_uses_left(n, attempts.drop_last());
        if attempts.last() && prev > 0 {
            (prev - 1) as nat
        } else {
            prev
        }
    }
}

/// Law: a one-shot resource is monotonically non-increasing — another
/// resolved attempt never leaves more uses than before.
pub proof fn lemma_one_shot_monotone(n: nat, attempts: Seq<bool>, more: bool)
    ensures
        spec_uses_left(n, attempts.push(more)) <= spec_uses_left(n, attempts),
{
    assert(attempts.push(more).drop_last() =~= attempts);
}

/// Law: an ability declared with `n` uses can be successfully attempted at
/// most `n` times across the game — the spent uses never exceed the
/// declared budget, and what is left never exceeds it either.
pub proof fn lemma_one_shot_bounded(n: nat, attempts: Seq<bool>)
    ensures
        spec_uses_left(n, attempts) <= n,
    decreases attempts.len(),
{
    if attempts.len() > 0 {
        lemma_one_shot_bounded(n, attempts.drop_last());
    }
}

/// Law: no night action, by anyone, in any bucket, ever increases a
/// one-shot resource: a jailor's remaining executions and a doctor's
/// remaining self-heals only decrease.
pub proof fn lemma_one_shot_resources_never_increase(
    m: crate::resolution::NightModel,
    a: int,
    priority: Priority,
    b: int,
)
    requires
        0 <= a < m.players.len(),
        0 <= b < m.players.len(),
    ensures
        m.players[b].role_state matches RoleState::Jailor(js1) ==> (
        crate::resolution::spec_role_night_action(m, a, priority).players[b].role_state matches
            RoleState::Jailor(js2) && js2.executions_remaining <= js1.executions_remaining),
        m.players[b].role_state matches RoleState::Doctor(ds1) ==> (
        crate::resolution::spec_role_night_action(m, a, priority).players[b].role_state matches
            RoleState::Doctor(ds2) && ds2.self_heals_remaining <= ds1.self_heals_remaining),
{
    let m2 = crate::resolution::spec_role_night_action(m, a, priority);
    match m.players[a].role_state {
        RoleState::Consort => {},
        RoleState::Sheriff => {},
        RoleState::Doctor(_) => {},
        RoleState::Mafioso => {},
        RoleState::Jailor(_) => {},
        RoleState::Reporter(_) => {},
        _ => {},
    }
}

/// Law: chat visibility is a pure function of the phase, the alive flags
/// and the transient state: two game values that agree on the phase and
/// the roster admit exactly the same speakable channels for everyone.
pub proof fn lemma_chat_visibility_pure(g1: crate::game::Game, g2: crate::game::Game, a: int)
    requires
        g1.players@ == g2.players@,
        g1.phase_machine.current_state == g2.phase_machine.current_state,
    ensures
        spec_role_send_groups(g1, a) == spec_role_send_groups(g2, a),
        spec_role_receive_groups(g1, a) == spec_role_receive_groups(g2, a),
{
    assert(crate::role::jailor::spec_any_detained(g1) == crate::role::jailor::spec_any_detained(
        g2,
    )) by {
        if crate::role::jailor::spec_any_detained(g1) {
            let w = choose|p: int|
                0 <= p < g1.players@.len() && (#[trigger] g1.players@[p]).night.detained;
            assert(g2.players@[w].night.detained);
        }
        if crate::role::jailor::spec_any_detained(g2) {
            let w = choose|p: int|
                0 <= p < g2.players@.len() && (#[trigger] g2.players@[p]).night.detained;
            assert(g1.players@[w].night.detained);
        }
    }
}

impl RoleState {
    /// The role tag of this role state.
    pub open spec fn spec_role(&self) -> Role {
        match self {
            RoleState::Jailor(..) => Role::Jailor,
            RoleState::Mayor(..) => Role::Mayor,
            RoleState::Sheriff => Role::Sheriff,
            RoleState::Doctor(..) => Role::Doctor,
            RoleState::Medium => Role::Medium,
            RoleState::Reporter(..) => Role::Reporter,
            RoleState::Consort => Role::Consort,
            RoleState::Mafioso => Role::Mafioso,
            RoleState::Chronokaiser(..) => Role::Chronokaiser,
            RoleState::Amnesiac => Role::Amnesiac,
        }
    }

    /// The role tag of this role state.
    #[verifier::when_used_as_spec(spec_role)]
    pub fn role(&self) -> (r: Role)
        ensures
            r == self.spec_role(),
    {
        match self {
            RoleState::Jailor(..) => Role::Jailor,
            RoleState::Mayor(..) => Role::Mayor,
            RoleState::Sheriff => Role::Sheriff,
            RoleState::Doctor(..) => Role::Doctor,
            RoleState::Medium => Role::Medium,
            RoleState::Reporter(..) => Role::Reporter,
            RoleState::Consort => Role::Consort,
            RoleState::Mafioso => Role::Mafioso,
            RoleState::Chronokaiser(..) => Role::Chronokaiser,
            RoleState::Amnesiac => Role::Amnesiac,
        }
    }
}

} // verus!
