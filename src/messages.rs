use vstd::prelude::*;

use crate::chess_structs::{InfoMessage, InteractionType};

verus! {

/// The message shown after a move with the given outcome; for a
/// super-effective hit it tells whether the piece that hit may move again.
pub open spec fn message_for(interaction_type: InteractionType, moves_available: bool) -> Option<InfoMessage> {
    match interaction_type {
        InteractionType::SuperEffective => if moves_available {
            Some(InfoMessage::SuperEffective)
        } else {
            Some(InfoMessage::SuperEffectiveNoMovesAvailable)
        },
        InteractionType::NoEffect => Some(InfoMessage::NoEffect),
        InteractionType::NotVeryEffective => Some(InfoMessage::NotVeryEffective),
        _ => None,
    }
}

impl InfoMessage {
    pub fn get_message_from_interaction_type(interaction_type: InteractionType, moves_available: bool) -> (r: Option<InfoMessage>)
        ensures
            r == message_for(interaction_type, moves_available),
    {
        match (interaction_type, moves_available) {
            (InteractionType::SuperEffective, true) => Some(InfoMessage::SuperEffective),
            (InteractionType::SuperEffective, false) => Some(InfoMessage::SuperEffectiveNoMovesAvailable),
            (InteractionType::NoEffect, _) => Some(InfoMessage::NoEffect),
            (InteractionType::NotVeryEffective, _) => Some(InfoMessage::NotVeryEffective),
            _ => None,
        }
    }
}

} // verus!
