use vstd::prelude::*;

use crate::chess_structs::{Capture, ChessPieceType, Move, Piece, PokemonType};

verus! {

/// An en passant capture by the pawn `piece_type` from (from_row, from_col)
/// to (to_row, to_col), taking the enemy pawn on (captured_pawn_row,
/// captured_pawn_col).
pub open spec fn en_passant_capture(
    from_row: usize,
    from_col: usize,
    to_row: usize,
    to_col: usize,
    captured_pawn_row: usize,
    captured_pawn_col: usize,
    piece_type: ChessPieceType,
) -> Move {
    Move {
        piece_type,
        from_row,
        from_col,
        to_row,
        to_col,
        type_interaction: None,
        capture: Some(
            Capture {
                row: captured_pawn_row,
                col: captured_pawn_col,
                piece: Piece {
                    piece_type: if piece_type == ChessPieceType::WhitePawn {
                        ChessPieceType::BlackPawn
                    } else {
                        ChessPieceType::WhitePawn
                    },
                    pokemon_type: PokemonType::NoType,
                },
            },
        ),
        castle: None,
    }
}

impl Move {
    /// Builds an en passant move; the move is taken to be legal.
    pub fn new_en_passant(
        from_row: usize,
        from_col: usize,
        to_row: usize,
        to_col: usize,
        captured_pawn_row: usize,
        captured_pawn_col: usize,
        piece_type: ChessPieceType,
    ) -> (r: Self)
        ensures
            r == en_passant_capture(
                from_row,
                from_col,
                to_row,
                to_col,
                captured_pawn_row,
                captured_pawn_col,
                piece_type,
            ),
    {
        Move {
            piece_type,
            from_row,
            from_col,
            to_row,
            to_col,
            type_interaction: None,
            capture: Some(
                Capture {
                    row: captured_pawn_row,
                    col: captured_pawn_col,
                    piece: Piece {
                        piece_type: if piece_type == ChessPieceType::WhitePawn {
                            ChessPieceType::BlackPawn
                        } else {
                            ChessPieceType::WhitePawn
                        },
                        pokemon_type: PokemonType::NoType,
                    },
                },
            ),
            castle: None,
        }
    }
}

} // verus!
