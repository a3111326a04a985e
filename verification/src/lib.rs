//! Rules engine for a turn-based, hidden-role social-deduction game.
//!
//! A fixed roster of participants cycles through day/night phases. During the
//! night every living participant may secretly select targets for a
//! role-specific ability; all selected actions are resolved deterministically,
//! in a fixed priority order, into visible outcomes (deaths, information
//! reveals, status effects) before the next day begins.
//!
//! The crate covers the phase state machine, the ability-targeting validation
//! layer, the priority-ordered night resolution pipeline, the win/end-state
//! evaluator and the derived chat-visibility computation. Network transport,
//! lobbies and persistence are left to the embedding application.

pub mod ability_input;
pub mod attack_power;
pub mod chat;
pub mod end_game_condition;
pub mod event;
pub mod game;
pub mod grave;
pub mod on_client_message;
pub mod packet;
pub mod phase;
pub mod player;
pub mod resolution;
pub mod rng;
pub mod role;
pub mod settings;
pub mod syndicate_gun_item;
pub mod verdict;
pub mod visit;
