use vstd::prelude::*;

use crate::chess_structs::{ChessBoard, ChessHistory, ChessPieceType, InteractionType, Move, Player};

verus! {

/// The history after `m` is played: `m` becomes the last move, and a king or
/// rook that moves loses its castling rights for good.
pub open spec fn history_after(h: ChessHistory, m: Move) -> ChessHistory {
    ChessHistory {
        last_move: Some(m),
        has_white_king_moved: h.has_white_king_moved || m.piece_type == ChessPieceType::WhiteKing,
        has_black_king_moved: h.has_black_king_moved || m.piece_type == ChessPieceType::BlackKing,
        has_white_queen_side_rook_moved: h.has_white_queen_side_rook_moved || (m.piece_type
            == ChessPieceType::WhiteRook && m.from_col == 0),
        has_white_king_side_rook_moved: h.has_white_king_side_rook_moved || (m.piece_type
            == ChessPieceType::WhiteRook && m.from_col == 7),
        has_black_queen_side_rook_moved: h.has_black_queen_side_rook_moved || (m.piece_type
            == ChessPieceType::BlackRook && m.from_col == 0),
        has_black_king_side_rook_moved: h.has_black_king_side_rook_moved || (m.piece_type
            == ChessPieceType::BlackRook && m.from_col == 7),
    }
}

pub open spec fn kingside_rights(h: ChessHistory, is_white: bool) -> bool {
    if is_white {
        !h.has_white_king_moved && !h.has_white_king_side_rook_moved
    } else {
        !h.has_black_king_moved && !h.has_black_king_side_rook_moved
    }
}

pub open spec fn queenside_rights(h: ChessHistory, is_white: bool) -> bool {
    if is_white {
        !h.has_white_king_moved && !h.has_white_queen_side_rook_moved
    } else {
        !h.has_black_king_moved && !h.has_black_queen_side_rook_moved
    }
}

/// The square of a pawn that has just advanced two squares from its starting
/// rank, if the last move was one.
pub open spec fn en_passant_square(h: ChessHistory) -> Option<(usize, usize)> {
    match h.last_move {
        Some(m) => {
            let two_squares = m.from_row == m.to_row + 2 || m.to_row == m.from_row + 2;
            let initial = (m.piece_type == ChessPieceType::WhitePawn && m.from_row == 1) || (
            m.piece_type == ChessPieceType::BlackPawn && m.from_row == 6);
            if two_squares && initial {
                Some((m.to_row, m.to_col))
            } else {
                None
            }
        },
        None => None,
    }
}

/// Where the piece that just hit super-effectively landed, if the last move
/// was such a hit.
pub open spec fn super_effective_square(h: ChessHistory) -> Option<(usize, usize)> {
    match h.last_move {
        Some(m) => if m.type_interaction == Some(InteractionType::SuperEffective) {
            Some((m.to_row, m.to_col))
        } else {
            None
        },
        None => None,
    }
}

/// The last move took a pawn to the farthest rank and the pawn is still
/// standing: a mutual destruction or a hit that bounced off leaves nothing
/// to promote.
pub open spec fn promotion_pending(h: ChessHistory) -> bool {
    match h.last_move {
        Some(m) => ((m.piece_type == ChessPieceType::WhitePawn && m.to_row == 7) || (m.piece_type
            == ChessPieceType::BlackPawn && m.to_row == 0)) && m.type_interaction != Some(
            InteractionType::NotVeryEffective,
        ) && m.type_interaction != Some(InteractionType::NoEffect),
        None => false,
    }
}

impl ChessHistory {
    pub fn new() -> (r: Self)
        ensures
            r.last_move is None,
            kingside_rights(r, true) && kingside_rights(r, false),
            queenside_rights(r, true) && queenside_rights(r, false),
    {
        ChessHistory {
            last_move: None,
            has_white_king_moved: false,
            has_black_king_moved: false,
            has_white_queen_side_rook_moved: false,
            has_white_king_side_rook_moved: false,
            has_black_queen_side_rook_moved: false,
            has_black_king_side_rook_moved: false,
        }
    }

    pub fn add_move(&mut self, m: Move)
        ensures
            *final(self) == history_after(*old(self), m),
    {
        if m.piece_type == ChessPieceType::WhiteKing {
            self.has_white_king_moved = true;
        }
        if m.piece_type == ChessPieceType::BlackKing {
            self.has_black_king_moved = true;
        }
        if m.piece_type == ChessPieceType::WhiteRook {
            if m.from_col == 0 {
                self.has_white_queen_side_rook_moved = true;
            }
            if m.from_col == 7 {
                self.has_white_king_side_rook_moved = true;
            }
        }
        if m.piece_type == ChessPieceType::BlackRook {
            if m.from_col == 0 {
                self.has_black_queen_side_rook_moved = true;
            }
            if m.from_col == 7 {
                self.has_black_king_side_rook_moved = true;
            }
        }
        self.last_move = Some(m);
    }

    pub fn can_castle_kingside(&self, is_white: bool) -> (r: bool)
        ensures
            r == kingside_rights(*self, is_white),
    {
        if is_white {
            !self.has_white_king_moved && !self.has_white_king_side_rook_moved
        } else {
            !self.has_black_king_moved && !self.has_black_king_side_rook_moved
        }
    }

    pub fn can_castle_queenside(&self, is_white: bool) -> (r: bool)
        ensures
            r == queenside_rights(*self, is_white),
    {
        if is_white {
            !self.has_white_king_moved && !self.has_white_queen_side_rook_moved
        } else {
            !self.has_black_king_moved && !self.has_black_queen_side_rook_moved
        }
    }

    pub fn last_move_enables_en_passant(&self) -> (r: Option<(usize, usize)>)
        ensures
            r == en_passant_square(*self),
    {
        match self.last_move {
            Some(m) => {
                let two_squares = (m.from_row >= 2 && m.from_row - 2 == m.to_row) || (m.to_row
                    >= 2 && m.to_row - 2 == m.from_row);
                let initial = (m.piece_type == ChessPieceType::WhitePawn && m.from_row == 1) || (
                m.piece_type == ChessPieceType::BlackPawn && m.from_row == 6);
                if two_squares && initial {
                    Some((m.to_row, m.to_col))
                } else {
                    None
                }
            },
            None => None,
        }
    }

    pub fn last_move_super_effective(&self) -> (r: Option<(usize, usize)>)
        ensures
            r == super_effective_square(*self),
    {
        match self.last_move {
            Some(m) => {
                if m.type_interaction == Some(InteractionType::SuperEffective) {
                    Some((m.to_row, m.to_col))
                } else {
                    None
                }
            },
            None => None,
        }
    }

    pub fn last_move_requires_pawn_promotion(&self) -> (r: bool)
        ensures
            r == promotion_pending(*self),
    {
        match self.last_move {
            Some(m) => {
                let reached_last_rank = (m.piece_type == ChessPieceType::WhitePawn && m.to_row
                    == 7) || (m.piece_type == ChessPieceType::BlackPawn && m.to_row == 0);
                reached_last_rank && m.type_interaction != Some(InteractionType::NotVeryEffective)
                    && m.type_interaction != Some(InteractionType::NoEffect)
            },
            None => false,
        }
    }

    pub fn last_move(&self) -> (r: Option<Move>)
        ensures
            r == self.last_move,
    {
        self.last_move
    }
}

impl Player {
    /// The player who moves after the last move: the same one after a
    /// super-effective hit, the other one otherwise.
    pub fn other_player_considering_board(&self, chessboard: &ChessBoard) -> (r: Player)
        ensures
            r == (if super_effective_square(chessboard.history) is Some {
                *self
            } else {
                crate::chess_structs::opponent(*self)
            }),
    {
        match chessboard.history.last_move_super_effective() {
            Some(_) => *self,
            None => self.other_player(),
        }
    }
}

} // verus!
