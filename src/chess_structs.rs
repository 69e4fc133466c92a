use vstd::prelude::*;

verus! {

pub const BOARD_SIZE: usize = 8;

pub const WHITE_EN_PASSANT_ROW: usize = 4;

pub const BLACK_EN_PASSANT_ROW: usize = 3;

/// A square's content: what stands there and its elemental affinity.
#[derive(Debug, Clone, Copy, PartialEq, Eq, Structural)]
pub struct Piece {
    pub piece_type: ChessPieceType,
    pub pokemon_type: PokemonType,
}

/// Derived flags of the move log: the last move, and whether each king and
/// each rook has left its corner.
#[derive(Debug, Clone, Copy, PartialEq, Eq, Structural)]
pub struct ChessHistory {
    pub last_move: Option<Move>,
    pub has_white_king_moved: bool,
    pub has_black_king_moved: bool,
    pub has_white_queen_side_rook_moved: bool,
    pub has_white_king_side_rook_moved: bool,
    pub has_black_queen_side_rook_moved: bool,
    pub has_black_king_side_rook_moved: bool,
}

/// The 8x8 grid, row 0 being White's back rank, and its history.
#[derive(Debug, Clone, Copy, PartialEq)]
pub struct ChessBoard {
    pub board: [[Piece; BOARD_SIZE]; BOARD_SIZE],
    pub history: ChessHistory,
}

/// A game in progress: the board, whose turn it is, and what the last move
/// left behind for the players to see.
#[derive(Debug, Clone, Copy, PartialEq)]
pub struct ChessState {
    pub chessboard: ChessBoard,
    pub player: Player,
    pub winner: Winner,
    pub info_message: Option<InfoMessage>,
    pub require_piece_selection: bool,
    pub turn_count: usize,
}

#[derive(Debug, Clone, Copy, PartialEq, Eq, Structural)]
pub enum InfoMessage {
    SuperEffective,
    SuperEffectiveNoMovesAvailable,
    NotVeryEffective,
    NoEffect,
}

#[derive(Debug, Clone, Copy, PartialEq, Eq, Structural)]
pub enum Player {
    White,
    Black,
}

#[derive(Debug, Clone, Copy, PartialEq, Eq, Structural)]
pub enum Winner {
    White,
    Black,
    Tie,
    NoneYet,
}

/// A move of one piece, with what it captures and the rook that goes with a
/// castle.
#[derive(Debug, Clone, Copy, PartialEq, Eq, Structural)]
pub struct Move {
    pub piece_type: ChessPieceType,
    pub from_row: usize,
    pub from_col: usize,
    pub to_row: usize,
    pub to_col: usize,
    pub type_interaction: Option<InteractionType>,
    pub capture: Option<Capture>,
    pub castle: Option<Castle>,
}

pub struct Position {
    pub row: usize,
    pub col: usize,
}

/// The rook's relocation that accompanies a castling king move.
#[derive(Debug, Clone, Copy, PartialEq, Eq, Structural)]
pub struct Castle {
    pub rook_from_row: usize,
    pub rook_from_col: usize,
    pub rook_to_row: usize,
    pub rook_to_col: usize,
}

/// The square a move captures on (not always its destination: en passant)
/// and the piece that stood there.
#[derive(Debug, Clone, Copy, PartialEq, Eq, Structural)]
pub struct Capture {
    pub row: usize,
    pub col: usize,
    pub piece: Piece,
}

#[derive(Debug, Clone, Copy, PartialEq, Eq, Structural)]
pub enum ChessPieceType {
    Empty,
    WhitePawn,
    WhiteKnight,
    WhiteBishop,
    WhiteRook,
    WhiteQueen,
    WhiteKing,
    BlackPawn,
    BlackKnight,
    BlackBishop,
    BlackRook,
    BlackQueen,
    BlackKing,
}

#[derive(Debug, Clone, Copy, PartialEq, Eq, Structural)]
pub enum InteractionType {
    SuperEffective,
    NotVeryEffective,
    NoEffect,
    Normal,
    Empty,
}

#[derive(Debug, Clone, Copy, PartialEq, Eq, Structural)]
pub enum PokemonType {
    Normal,
    Fire,
    Water,
    Electric,
    Grass,
    Ice,
    Fighting,
    Poison,
    Ground,
    Flying,
    Psychic,
    Bug,
    Rock,
    GhostType,
    Dragon,
    Dark,
    Steel,
    Fairy,
    NoType,
}

/// The pieces that belong to White.
pub open spec fn white_kind(k: ChessPieceType) -> bool {
    match k {
        ChessPieceType::WhitePawn | ChessPieceType::WhiteKnight | ChessPieceType::WhiteBishop
        | ChessPieceType::WhiteRook | ChessPieceType::WhiteQueen | ChessPieceType::WhiteKing => true,
        _ => false,
    }
}

/// Whether a square's content counts as `player`'s: White's pieces for White;
/// for Black, everything else, the empty square included.
pub open spec fn kind_of_player(k: ChessPieceType, player: Player) -> bool {
    white_kind(k) == (player == Player::White)
}

pub open spec fn opponent(p: Player) -> Player {
    match p {
        Player::White => Player::Black,
        Player::Black => Player::White,
    }
}

pub open spec fn winner_of(p: Player) -> Winner {
    match p {
        Player::White => Winner::White,
        Player::Black => Winner::Black,
    }
}

/// The piece kind a promotion choice names for `player`, or the empty kind
/// for a name that is none of the six.
pub open spec fn kind_named(name: Seq<char>, player: Player) -> ChessPieceType {
    let white = player == Player::White;
    if name == "Pawn"@ {
        if white { ChessPieceType::WhitePawn } else { ChessPieceType::BlackPawn }
    } else if name == "Knight"@ {
        if white { ChessPieceType::WhiteKnight } else { ChessPieceType::BlackKnight }
    } else if name == "Bishop"@ {
        if white { ChessPieceType::WhiteBishop } else { ChessPieceType::BlackBishop }
    } else if name == "Rook"@ {
        if white { ChessPieceType::WhiteRook } else { ChessPieceType::BlackRook }
    } else if name == "Queen"@ {
        if white { ChessPieceType::WhiteQueen } else { ChessPieceType::BlackQueen }
    } else if name == "King"@ {
        if white { ChessPieceType::WhiteKing } else { ChessPieceType::BlackKing }
    } else {
        ChessPieceType::Empty
    }
}

impl ChessPieceType {
    /// The piece kind named by `piece_string` ("Pawn", "Knight", "Bishop",
    /// "Rook", "Queen" or "King") in `player`'s colour; the empty kind for any
    /// other text.
    pub fn select_piece_from_string_and_player(piece_string: &str, player: Player) -> (r: ChessPieceType)
        ensures
            r == kind_named(piece_string@, player),
    {
        let name = piece_string.to_owned();
        let white = match player {
            Player::White => true,
            Player::Black => false,
        };
        if name == "Pawn".to_owned() {
            if white { ChessPieceType::WhitePawn } else { ChessPieceType::BlackPawn }
        } else if name == "Knight".to_owned() {
            if white { ChessPieceType::WhiteKnight } else { ChessPieceType::BlackKnight }
        } else if name == "Bishop".to_owned() {
            if white { ChessPieceType::WhiteBishop } else { ChessPieceType::BlackBishop }
        } else if name == "Rook".to_owned() {
            if white { ChessPieceType::WhiteRook } else { ChessPieceType::BlackRook }
        } else if name == "Queen".to_owned() {
            if white { ChessPieceType::WhiteQueen } else { ChessPieceType::BlackQueen }
        } else if name == "King".to_owned() {
            if white { ChessPieceType::WhiteKing } else { ChessPieceType::BlackKing }
        } else {
            ChessPieceType::Empty
        }
    }
}

impl Winner {
    pub fn from_player(player: Player) -> (r: Self)
        ensures
            r == winner_of(player),
    {
        match player {
            Player::White => Self::White,
            Player::Black => Self::Black,
        }
    }
}

impl Player {
    pub fn other_player(&self) -> (r: Player)
        ensures
            r == opponent(*self),
    {
        match self {
            Player::White => Player::Black,
            Player::Black => Player::White,
        }
    }
}

} // verus!
