//! Outbound notifications to the transport layer.
//!
//! The engine never performs I/O: it appends packets to the game's outbox,
//! in emission order, and the embedding application forwards them. Delivery
//! order to a participant therefore matches emission order.

use vstd::prelude::*;

use crate::game::GameOverReason;
use crate::phase::PhaseType;

verus! {

/// One outbound broadcast notification.
#[derive(Debug)]
pub enum ToClientPacket {
    /// The current nomination tally: votes received, per participant index.
    PlayerVotes { votes_for_player: Vec<u8> },
    PlayerOnTrial { player_index: u8 },
    GameOver { reason: GameOverReason },
    PhaseChange { phase: PhaseType, day_number: u8 },
}

/// The mathematical value of one outbound packet.
pub ghost enum PacketModel {
    PlayerVotes { votes_for_player: Seq<u8> },
    PlayerOnTrial { player_index: u8 },
    GameOver { reason: GameOverReason },
    PhaseChange { phase: PhaseType, day_number: u8 },
}

impl View for ToClientPacket {
    type V = PacketModel;

    open spec fn view(&self) -> PacketModel {
        match self {
            ToClientPacket::PlayerVotes { votes_for_player } => PacketModel::PlayerVotes {
                votes_for_player: votes_for_player@,
            },
            ToClientPacket::PlayerOnTrial { player_index } => PacketModel::PlayerOnTrial {
                player_index: *player_index,
            },
            ToClientPacket::GameOver { reason } => PacketModel::GameOver { reason: *reason },
            ToClientPacket::PhaseChange { phase, day_number } => PacketModel::PhaseChange {
                phase: *phase,
                day_number: *day_number,
            },
        }
    }
}

} // verus!
