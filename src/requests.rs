use vstd::prelude::*;

use crate::chess_structs::ChessState;

verus! {

/// Parameters for starting a game.
pub struct StartGame {
    pub name: String,
    pub local_play: bool,
    pub critical_hits: bool,
    pub misses: bool,
}

/// Names the game a request is about.
pub struct GetGame {
    pub name: String,
}

/// Asks for the moves of the piece on (row, col).
pub struct GetMoves {
    pub name: String,
    pub row: usize,
    pub col: usize,
}

/// The kind chosen for a pending promotion.
pub struct SelectPawnPromotionPiece {
    pub name: String,
    pub piece_str: String,
}

/// A move asked for by a player.
#[derive(Debug)]
pub struct UserMove {
    pub name: String,
    pub from_row: usize,
    pub from_col: usize,
    pub to_row: usize,
    pub to_col: usize,
}

pub struct SerializeObject {
    pub result: Option<usize>,
}

/// Whether a move was accepted, and the state after it.
pub struct MoveResponse {
    pub is_valid: bool,
    pub chess_state: ChessState,
}

} // verus!
