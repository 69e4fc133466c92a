use vstd::prelude::*;

use crate::chess_history::{en_passant_square, kingside_rights, queenside_rights};
use crate::chess_structs::{
    kind_of_player, opponent, white_kind, Capture, Castle, ChessBoard, ChessPieceType, Move,
    Piece, Player, PokemonType,
};

verus! {

pub open spec fn in_bounds(r: int, c: int) -> bool {
    0 <= r < 8 && 0 <= c < 8
}

/// The content of square (r, c).
pub open spec fn square(b: ChessBoard, r: int, c: int) -> Piece {
    b.board[r][c]
}

pub open spec fn empty_piece() -> Piece {
    Piece { piece_type: ChessPieceType::Empty, pokemon_type: PokemonType::NoType }
}

/// Every square a move names lies on the board.
pub open spec fn move_wf(m: Move) -> bool {
    &&& m.from_row < 8 && m.from_col < 8 && m.to_row < 8 && m.to_col < 8
    &&& match m.capture {
        Some(cp) => cp.row < 8 && cp.col < 8,
        None => true,
    }
    &&& match m.castle {
        Some(cs) => cs.rook_from_row < 8 && cs.rook_from_col < 8 && cs.rook_to_row < 8
            && cs.rook_to_col < 8,
        None => true,
    }
}

pub open spec fn all_wf(ms: Seq<Move>) -> bool {
    forall|k: int| 0 <= k < ms.len() ==> move_wf(#[trigger] ms[k])
}

/// A move onto an empty square.
pub open spec fn quiet_move(k: ChessPieceType, fr: int, fc: int, tr: int, tc: int) -> Move {
    Move {
        piece_type: k,
        from_row: fr as usize,
        from_col: fc as usize,
        to_row: tr as usize,
        to_col: tc as usize,
        type_interaction: None,
        capture: None,
        castle: None,
    }
}

/// A move to (tr, tc) that takes the piece `p` standing on (cr, cc).
pub open spec fn capturing_move(
    k: ChessPieceType,
    fr: int,
    fc: int,
    tr: int,
    tc: int,
    cr: int,
    cc: int,
    p: Piece,
) -> Move {
    Move {
        piece_type: k,
        from_row: fr as usize,
        from_col: fc as usize,
        to_row: tr as usize,
        to_col: tc as usize,
        type_interaction: None,
        capture: Some(Capture { row: cr as usize, col: cc as usize, piece: p }),
        castle: None,
    }
}

pub open spec fn castling_move(k: ChessPieceType, r: int, c: int, tc: int, rook_from: int, rook_to: int) -> Move {
    Move {
        piece_type: k,
        from_row: r as usize,
        from_col: c as usize,
        to_row: r as usize,
        to_col: tc as usize,
        type_interaction: None,
        capture: None,
        castle: Some(
            Castle {
                rook_from_row: r as usize,
                rook_from_col: rook_from as usize,
                rook_to_row: r as usize,
                rook_to_col: rook_to as usize,
            },
        ),
    }
}

/// Both are pieces, of opposite colours.
pub open spec fn enemies(a: ChessPieceType, b: ChessPieceType) -> bool {
    a != ChessPieceType::Empty && b != ChessPieceType::Empty && white_kind(a) != white_kind(b)
}

/// The move of a knight or king by the offset (dr, dc): onto an empty square,
/// or taking a piece of the other colour.
pub open spec fn step_target(k: ChessPieceType, r: int, c: int, b: ChessBoard, dr: int, dc: int) -> Seq<Move> {
    let tr = r + dr;
    let tc = c + dc;
    if in_bounds(tr, tc) {
        let t = square(b, tr, tc);
        if t.piece_type == ChessPieceType::Empty {
            seq![quiet_move(k, r, c, tr, tc)]
        } else if white_kind(t.piece_type) != white_kind(k) {
            seq![capturing_move(k, r, c, tr, tc, tr, tc, t)]
        } else {
            seq![]
        }
    } else {
        seq![]
    }
}

pub open spec fn unit_dir(dr: int, dc: int) -> bool {
    -1 <= dr <= 1 && -1 <= dc <= 1 && (dr != 0 || dc != 0)
}

pub open spec fn ray_measure(dr: int, dc: int, tr: int, tc: int) -> int {
    (if dr > 0 {
        8 - tr
    } else if dr < 0 {
        tr + 1
    } else {
        0
    }) + (if dc > 0 {
        8 - tc
    } else if dc < 0 {
        tc + 1
    } else {
        0
    })
}

/// The moves of a sliding piece on (r, c) along direction (dr, dc), from the
/// square (tr, tc) on: every empty square, then the first occupied one if it
/// holds a piece of the other colour.
pub open spec fn ray_from(
    k: ChessPieceType,
    r: int,
    c: int,
    b: ChessBoard,
    dr: int,
    dc: int,
    tr: int,
    tc: int,
) -> Seq<Move>
    decreases ray_measure(dr, dc, tr, tc),
{
    if !unit_dir(dr, dc) || !in_bounds(tr, tc) {
        seq![]
    } else {
        let t = square(b, tr, tc);
        if t.piece_type == ChessPieceType::Empty {
            seq![quiet_move(k, r, c, tr, tc)] + ray_from(k, r, c, b, dr, dc, tr + dr, tc + dc)
        } else if white_kind(t.piece_type) != white_kind(k) {
            seq![capturing_move(k, r, c, tr, tc, tr, tc, t)]
        } else {
            seq![]
        }
    }
}

pub open spec fn ray(k: ChessPieceType, r: int, c: int, b: ChessBoard, dr: int, dc: int) -> Seq<Move> {
    ray_from(k, r, c, b, dr, dc, r + dr, c + dc)
}

pub open spec fn rook_spec(k: ChessPieceType, r: int, c: int, b: ChessBoard) -> Seq<Move> {
    ray(k, r, c, b, 1, 0) + ray(k, r, c, b, -1, 0) + ray(k, r, c, b, 0, 1) + ray(k, r, c, b, 0, -1)
}

pub open spec fn bishop_spec(k: ChessPieceType, r: int, c: int, b: ChessBoard) -> Seq<Move> {
    ray(k, r, c, b, 1, 1) + ray(k, r, c, b, 1, -1) + ray(k, r, c, b, -1, 1) + ray(k, r, c, b, -1, -1)
}

pub open spec fn queen_spec(k: ChessPieceType, r: int, c: int, b: ChessBoard) -> Seq<Move> {
    rook_spec(k, r, c, b) + bishop_spec(k, r, c, b)
}

pub open spec fn knight_spec(k: ChessPieceType, r: int, c: int, b: ChessBoard) -> Seq<Move> {
    step_target(k, r, c, b, -2, 1) + step_target(k, r, c, b, -1, 2) + step_target(k, r, c, b, 1, 2)
        + step_target(k, r, c, b, 2, 1) + step_target(k, r, c, b, 2, -1) + step_target(
        k,
        r,
        c,
        b,
        1,
        -2,
    ) + step_target(k, r, c, b, -1, -2) + step_target(k, r, c, b, -2, -1)
}

/// The king's one-square moves, without castling.
pub open spec fn king_step_spec(k: ChessPieceType, r: int, c: int, b: ChessBoard) -> Seq<Move> {
    step_target(k, r, c, b, -1, -1) + step_target(k, r, c, b, -1, 0) + step_target(
        k,
        r,
        c,
        b,
        -1,
        1,
    ) + step_target(k, r, c, b, 0, 1) + step_target(k, r, c, b, 1, 1) + step_target(
        k,
        r,
        c,
        b,
        1,
        0,
    ) + step_target(k, r, c, b, 1, -1) + step_target(k, r, c, b, 0, -1)
}

pub open spec fn pawn_dir(k: ChessPieceType) -> int {
    if k == ChessPieceType::WhitePawn {
        1
    } else {
        -1
    }
}

/// A pawn's diagonal capture onto (tr, tc).
pub open spec fn pawn_diagonal(k: ChessPieceType, r: int, c: int, b: ChessBoard, tr: int, tc: int) -> Seq<Move> {
    if in_bounds(tr, tc) && enemies(square(b, tr, tc).piece_type, k) {
        seq![capturing_move(k, r, c, tr, tc, tr, tc, square(b, tr, tc))]
    } else {
        seq![]
    }
}

pub open spec fn enemy_pawn(k: ChessPieceType) -> ChessPieceType {
    if k == ChessPieceType::WhitePawn {
        ChessPieceType::BlackPawn
    } else {
        ChessPieceType::WhitePawn
    }
}

/// The en passant capture of a pawn on (r, c): offered only right after an
/// enemy pawn advanced two squares to a square beside it, and only while that
/// pawn still stands there. The pawn lands behind it and takes it on its
/// own square.
pub open spec fn en_passant_spec(k: ChessPieceType, r: int, c: int, b: ChessBoard) -> Seq<Move> {
    match en_passant_square(b.history) {
        Some((er, ec)) => {
            let tr = r + pawn_dir(k);
            if er == r && (ec == c + 1 || ec == c - 1) && in_bounds(tr, ec as int) && in_bounds(
                r,
                ec as int,
            ) && square(b, r, ec as int).piece_type == enemy_pawn(k) {
                seq![capturing_move(k, r, c, tr, ec as int, r, ec as int, square(b, r, ec as int))]
            } else {
                seq![]
            }
        },
        None => seq![],
    }
}

/// A pawn's moves: one step forward onto an empty square, the two diagonal
/// captures, en passant, and two steps forward from the starting rank over
/// two empty squares. Attacks alone leave out the forward steps, which
/// cannot take anything.
pub open spec fn pawn_spec(k: ChessPieceType, r: int, c: int, b: ChessBoard, attacks_only: bool) -> Seq<Move> {
    let dir = pawn_dir(k);
    let fwd = r + dir;
    let one = if !attacks_only && in_bounds(fwd, c) && square(b, fwd, c).piece_type
        == ChessPieceType::Empty {
        seq![quiet_move(k, r, c, fwd, c)]
    } else {
        seq![]
    };
    let starting = (k == ChessPieceType::WhitePawn && r == 1) || (k != ChessPieceType::WhitePawn
        && r == 6);
    let two = if !attacks_only && starting && in_bounds(r + 2 * dir, c) && square(b, fwd, c).piece_type
        == ChessPieceType::Empty && square(b, r + 2 * dir, c).piece_type == ChessPieceType::Empty {
        seq![quiet_move(k, r, c, r + 2 * dir, c)]
    } else {
        seq![]
    };
    one + pawn_diagonal(k, r, c, b, fwd, c - 1) + pawn_diagonal(k, r, c, b, fwd, c + 1)
        + en_passant_spec(k, r, c, b) + two
}

pub open spec fn player_of(k: ChessPieceType) -> Player {
    if white_kind(k) {
        Player::White
    } else {
        Player::Black
    }
}

pub open spec fn rook_of(p: Player) -> ChessPieceType {
    match p {
        Player::White => ChessPieceType::WhiteRook,
        Player::Black => ChessPieceType::BlackRook,
    }
}

/// The moves that threaten a square: every move but a pawn's forward steps
/// and castling.
pub open spec fn attack_moves(k: ChessPieceType, r: int, c: int, b: ChessBoard) -> Seq<Move> {
    match k {
        ChessPieceType::WhitePawn | ChessPieceType::BlackPawn => pawn_spec(k, r, c, b, true),
        ChessPieceType::WhiteKnight | ChessPieceType::BlackKnight => knight_spec(k, r, c, b),
        ChessPieceType::WhiteBishop | ChessPieceType::BlackBishop => bishop_spec(k, r, c, b),
        ChessPieceType::WhiteRook | ChessPieceType::BlackRook => rook_spec(k, r, c, b),
        ChessPieceType::WhiteQueen | ChessPieceType::BlackQueen => queen_spec(k, r, c, b),
        ChessPieceType::WhiteKing | ChessPieceType::BlackKing => king_step_spec(k, r, c, b),
        ChessPieceType::Empty => seq![],
    }
}

/// One of the moves ends on (r, c).
pub open spec fn reaches(ms: Seq<Move>, r: int, c: int) -> bool {
    exists|k: int| 0 <= k < ms.len() && (#[trigger] ms[k]).to_row == r && ms[k].to_col == c
}

/// The piece on (i, j) belongs to `attacker` and one of its attacking moves
/// ends on (r, c).
pub open spec fn attacks_square(b: ChessBoard, i: int, j: int, r: int, c: int, attacker: Player) -> bool {
    let p = square(b, i, j).piece_type;
    &&& p != ChessPieceType::Empty
    &&& kind_of_player(p, attacker)
    &&& reaches(attack_moves(p, i, j, b), r, c)
}

/// Some piece of `player`'s opponent threatens (r, c).
pub open spec fn square_attacked(b: ChessBoard, r: int, c: int, player: Player) -> bool {
    exists|i: int, j: int| in_bounds(i, j) && #[trigger] attacks_square(b, i, j, r, c, opponent(player))
}

/// Castling on the king's side is allowed for `player` on `row`: neither the
/// king nor that rook has moved, the rook stands in its corner, the squares
/// between are empty, and the two squares the king crosses and lands on are
/// not threatened.
pub open spec fn kingside_castle_ok(b: ChessBoard, row: int, player: Player) -> bool {
    &&& kingside_rights(b.history, player == Player::White)
    &&& 0 <= row < 8
    &&& square(b, row, 7).piece_type == rook_of(player)
    &&& square(b, row, 5).piece_type == ChessPieceType::Empty
    &&& square(b, row, 6).piece_type == ChessPieceType::Empty
    &&& !square_attacked(b, row, 5, player)
    &&& !square_attacked(b, row, 6, player)
}

/// Castling on the queen's side: the three squares between king and rook are
/// empty, and the two the king crosses and lands on are not threatened.
pub open spec fn queenside_castle_ok(b: ChessBoard, row: int, player: Player) -> bool {
    &&& queenside_rights(b.history, player == Player::White)
    &&& 0 <= row < 8
    &&& square(b, row, 0).piece_type == rook_of(player)
    &&& square(b, row, 1).piece_type == ChessPieceType::Empty
    &&& square(b, row, 2).piece_type == ChessPieceType::Empty
    &&& square(b, row, 3).piece_type == ChessPieceType::Empty
    &&& !square_attacked(b, row, 2, player)
    &&& !square_attacked(b, row, 3, player)
}

/// A king's moves: its steps, then castling on either side where allowed.
pub open spec fn king_spec(k: ChessPieceType, r: int, c: int, b: ChessBoard) -> Seq<Move> {
    let kingside = if c == 4 && kingside_castle_ok(b, r, player_of(k)) {
        seq![castling_move(k, r, c, c + 2, 7, 5)]
    } else {
        seq![]
    };
    let queenside = if c == 4 && queenside_castle_ok(b, r, player_of(k)) {
        seq![castling_move(k, r, c, c - 2, 0, 3)]
    } else {
        seq![]
    };
    king_step_spec(k, r, c, b) + kingside + queenside
}

/// Every pseudo-legal move of a piece of kind `k` on (r, c).
pub open spec fn piece_moves(k: ChessPieceType, r: int, c: int, b: ChessBoard) -> Seq<Move> {
    match k {
        ChessPieceType::WhitePawn | ChessPieceType::BlackPawn => pawn_spec(k, r, c, b, false),
        ChessPieceType::WhiteKing | ChessPieceType::BlackKing => king_spec(k, r, c, b),
        _ => attack_moves(k, r, c, b),
    }
}

pub open spec fn generated_moves(k: ChessPieceType, r: int, c: int, b: ChessBoard, attacks_only: bool) -> Seq<Move> {
    if attacks_only {
        attack_moves(k, r, c, b)
    } else {
        piece_moves(k, r, c, b)
    }
}

impl Piece {
    pub fn empty() -> (r: Self)
        ensures
            r == empty_piece(),
    {
        Self { piece_type: ChessPieceType::Empty, pokemon_type: PokemonType::NoType }
    }
}

impl ChessPieceType {
    pub fn is_valid_position(to_row: i32, to_col: i32) -> (r: bool)
        ensures
            r == in_bounds(to_row as int, to_col as int),
    {
        let row_valid: bool = to_row >= 0 && to_row < 8;
        let col_valid: bool = to_col >= 0 && to_col < 8;
        row_valid && col_valid
    }

    pub fn is_white(&self) -> (r: bool)
        ensures
            r == white_kind(*self),
    {
        match self {
            ChessPieceType::WhitePawn | ChessPieceType::WhiteKnight | ChessPieceType::WhiteBishop
            | ChessPieceType::WhiteRook | ChessPieceType::WhiteQueen | ChessPieceType::WhiteKing => true,
            _ => false,
        }
    }

    pub fn is_king(&self) -> (r: bool)
        ensures
            r == (*self == ChessPieceType::WhiteKing || *self == ChessPieceType::BlackKing),
    {
        *self == ChessPieceType::WhiteKing || *self == ChessPieceType::BlackKing
    }

    pub fn is_opposite_color(&self, other: ChessPieceType) -> (r: bool)
        ensures
            r == (white_kind(*self) != white_kind(other)),
    {
        self.is_white() != other.is_white()
    }

    pub fn is_piece_and_opposite_color(&self, other: ChessPieceType) -> (r: bool)
        ensures
            r == enemies(*self, other),
    {
        other != ChessPieceType::Empty && *self != ChessPieceType::Empty && self.is_white()
            != other.is_white()
    }

    pub fn get_valid_or_empty(row: i32, col: i32, board: &ChessBoard) -> (r: Option<ChessPieceType>)
        ensures
            r == (if in_bounds(row as int, col as int) {
                Some(square(*board, row as int, col as int).piece_type)
            } else {
                None
            }),
    {
        if Self::is_valid_position(row, col) {
            return Some(board.board[row as usize][col as usize].piece_type);
        }
        None
    }

    /// Appends the knight or king move by the offset (dr, dc), if there is one.
    fn push_step(
        &self,
        row: usize,
        col: usize,
        board: &ChessBoard,
        dr: i32,
        dc: i32,
        moves: &mut Vec<Move>,
    )
        requires
            row < 8,
            col < 8,
            -2 <= dr <= 2,
            -2 <= dc <= 2,
            all_wf(old(moves)@),
        ensures
            final(moves)@ == old(moves)@ + step_target(
                *self,
                row as int,
                col as int,
                *board,
                dr as int,
                dc as int,
            ),
            all_wf(final(moves)@),
    {
        let ghost start = moves@;
        let to_row: i32 = row as i32 + dr;
        let to_col: i32 = col as i32 + dc;
        if Self::is_valid_position(to_row, to_col) {
            let target = board.board[to_row as usize][to_col as usize];
            if target.piece_type == ChessPieceType::Empty {
                moves.push(
                    Move {
                        piece_type: *self,
                        from_row: row,
                        from_col: col,
                        to_row: to_row as usize,
                        to_col: to_col as usize,
                        type_interaction: None,
                        capture: None,
                        castle: None,
                    },
                );
            } else if target.piece_type.is_opposite_color(*self) {
                moves.push(
                    Move {
                        piece_type: *self,
                        from_row: row,
                        from_col: col,
                        to_row: to_row as usize,
                        to_col: to_col as usize,
                        type_interaction: None,
                        capture: Some(
                            Capture { row: to_row as usize, col: to_col as usize, piece: target },
                        ),
                        castle: None,
                    },
                );
            }
        }
        assert(moves@ =~= start + step_target(
            *self,
            row as int,
            col as int,
            *board,
            dr as int,
            dc as int,
        ));
    }

    /// Appends the moves of a sliding piece along the direction (dr, dc).
    fn push_ray(
        &self,
        row: usize,
        col: usize,
        board: &ChessBoard,
        dr: i32,
        dc: i32,
        moves: &mut Vec<Move>,
    )
        requires
            row < 8,
            col < 8,
            unit_dir(dr as int, dc as int),
            all_wf(old(moves)@),
        ensures
            final(moves)@ == old(moves)@ + ray(*self, row as int, col as int, *board, dr as int, dc as int),
            all_wf(final(moves)@),
    {
        let ghost start = moves@;
        let ghost k = *self;
        let ghost total = ray(k, row as int, col as int, *board, dr as int, dc as int);
        let mut new_row: i32 = row as i32 + dr;
        let mut new_col: i32 = col as i32 + dc;
        loop
            invariant_except_break
                moves@ + ray_from(k, row as int, col as int, *board, dr as int, dc as int, new_row as int, new_col as int)
                    == start + total,
            invariant
                row < 8,
                col < 8,
                unit_dir(dr as int, dc as int),
                -1 <= new_row <= 8,
                -1 <= new_col <= 8,
                k == *self,
                all_wf(moves@),
            ensures
                moves@ == start + total,
            decreases ray_measure(dr as int, dc as int, new_row as int, new_col as int),
        {
            if !Self::is_valid_position(new_row, new_col) {
                assert(moves@ + seq![] =~= moves@);
                break;
            }
            let target = board.board[new_row as usize][new_col as usize];
            if target.piece_type == ChessPieceType::Empty {
                let m = Move {
                    piece_type: *self,
                    from_row: row,
                    from_col: col,
                    to_row: new_row as usize,
                    to_col: new_col as usize,
                    type_interaction: None,
                    capture: None,
                    castle: None,
                };
                let ghost before = moves@;
                let ghost rest = ray_from(k, row as int, col as int, *board, dr as int, dc as int, new_row + dr, new_col + dc);
                moves.push(m);
                assert(before + (seq![m] + rest) =~= moves@ + rest);
                new_row = new_row + dr;
                new_col = new_col + dc;
            } else {
                if self.is_opposite_color(target.piece_type) {
                    let ghost before = moves@;
                    moves.push(
                        Move {
                            piece_type: *self,
                            from_row: row,
                            from_col: col,
                            to_row: new_row as usize,
                            to_col: new_col as usize,
                            type_interaction: None,
                            capture: Some(
                                Capture {
                                    row: new_row as usize,
                                    col: new_col as usize,
                                    piece: target,
                                },
                            ),
                            castle: None,
                        },
                    );
                    assert(moves@ =~= before + seq![moves@.last()]);
                } else {
                    assert(moves@ + seq![] =~= moves@);
                }
                break;
            }
        }
    }

    pub fn knight_moves(&self, row: usize, col: usize, board: &ChessBoard) -> (r: Vec<Move>)
        requires
            row < 8,
            col < 8,
        ensures
            r@ == knight_spec(*self, row as int, col as int, *board),
            all_wf(r@),
    {
        let mut moves: Vec<Move> = Vec::new();
        self.push_step(row, col, board, -2, 1, &mut moves);
        self.push_step(row, col, board, -1, 2, &mut moves);
        self.push_step(row, col, board, 1, 2, &mut moves);
        self.push_step(row, col, board, 2, 1, &mut moves);
        self.push_step(row, col, board, 2, -1, &mut moves);
        self.push_step(row, col, board, 1, -2, &mut moves);
        self.push_step(row, col, board, -1, -2, &mut moves);
        self.push_step(row, col, board, -2, -1, &mut moves);
        assert(moves@ =~= knight_spec(*self, row as int, col as int, *board));
        moves
    }

    pub fn rook_moves(&self, row: usize, col: usize, board: &ChessBoard) -> (r: Vec<Move>)
        requires
            row < 8,
            col < 8,
        ensures
            r@ == rook_spec(*self, row as int, col as int, *board),
            all_wf(r@),
    {
        let mut moves: Vec<Move> = Vec::new();
        self.push_ray(row, col, board, 1, 0, &mut moves);
        self.push_ray(row, col, board, -1, 0, &mut moves);
        self.push_ray(row, col, board, 0, 1, &mut moves);
        self.push_ray(row, col, board, 0, -1, &mut moves);
        assert(moves@ =~= rook_spec(*self, row as int, col as int, *board));
        moves
    }

    pub fn bishop_moves(&self, row: usize, col: usize, board: &ChessBoard) -> (r: Vec<Move>)
        requires
            row < 8,
            col < 8,
        ensures
            r@ == bishop_spec(*self, row as int, col as int, *board),
            all_wf(r@),
    {
        let mut moves: Vec<Move> = Vec::new();
        self.push_ray(row, col, board, 1, 1, &mut moves);
        self.push_ray(row, col, board, 1, -1, &mut moves);
        self.push_ray(row, col, board, -1, 1, &mut moves);
        self.push_ray(row, col, board, -1, -1, &mut moves);
        assert(moves@ =~= bishop_spec(*self, row as int, col as int, *board));
        moves
    }

    pub fn queen_moves(&self, row: usize, col: usize, board: &ChessBoard) -> (r: Vec<Move>)
        requires
            row < 8,
            col < 8,
        ensures
            r@ == queen_spec(*self, row as int, col as int, *board),
            all_wf(r@),
    {
        let mut moves: Vec<Move> = Vec::new();
        let mut straight = self.rook_moves(row, col, board);
        let mut diagonal = self.bishop_moves(row, col, board);
        moves.append(&mut straight);
        moves.append(&mut diagonal);
        assert(moves@ =~= queen_spec(*self, row as int, col as int, *board));
        moves
    }

    fn enemy_pawn(&self) -> (r: ChessPieceType)
        ensures
            r == enemy_pawn(*self),
    {
        if *self == ChessPieceType::WhitePawn {
            ChessPieceType::BlackPawn
        } else {
            ChessPieceType::WhitePawn
        }
    }

    pub fn en_passant_move(&self, row: usize, col: usize, board: &ChessBoard) -> (r: Vec<Move>)
        requires
            row < 8,
            col < 8,
        ensures
            r@ == en_passant_spec(*self, row as int, col as int, *board),
            all_wf(r@),
    {
        let mut moves: Vec<Move> = Vec::new();
        let direction: i32 = if *self == ChessPieceType::WhitePawn {
            1
        } else {
            -1
        };
        if let Some((en_passant_row, en_passant_col)) = board.history.last_move_enables_en_passant() {
            let beside = en_passant_col == col + 1 || (col > 0 && en_passant_col == col - 1);
            let target_row: i32 = row as i32 + direction;
            if en_passant_row == row && beside && 0 <= target_row && target_row < 8
                && en_passant_col < 8 {
                let victim = board.board[row][en_passant_col];
                if victim.piece_type == self.enemy_pawn() {
                    moves.push(
                        Move {
                            piece_type: *self,
                            from_row: row,
                            from_col: col,
                            to_row: target_row as usize,
                            to_col: en_passant_col,
                            type_interaction: None,
                            capture: Some(
                                Capture { row: row, col: en_passant_col, piece: victim },
                            ),
                            castle: None,
                        },
                    );
                }
            }
        }
        assert(moves@ =~= en_passant_spec(*self, row as int, col as int, *board));
        moves
    }

    /// Appends a pawn's diagonal capture onto (to_row, to_col), if there is one.
    fn push_pawn_diagonal(
        &self,
        row: usize,
        col: usize,
        board: &ChessBoard,
        to_row: i32,
        to_col: i32,
        moves: &mut Vec<Move>,
    )
        requires
            row < 8,
            col < 8,
            -1 <= to_row <= 8,
            -1 <= to_col <= 8,
            all_wf(old(moves)@),
        ensures
            final(moves)@ == old(moves)@ + pawn_diagonal(
                *self,
                row as int,
                col as int,
                *board,
                to_row as int,
                to_col as int,
            ),
            all_wf(final(moves)@),
    {
        let ghost start = moves@;
        if Self::is_valid_position(to_row, to_col) {
            let piece = board.board[to_row as usize][to_col as usize];
            if piece.piece_type.is_piece_and_opposite_color(*self) {
                moves.push(
                    Move {
                        piece_type: *self,
                        from_row: row,
                        from_col: col,
                        to_row: to_row as usize,
                        to_col: to_col as usize,
                        type_interaction: None,
                        capture: Some(
                            Capture { row: to_row as usize, col: to_col as usize, piece },
                        ),
                        castle: None,
                    },
                );
            }
        }
        assert(moves@ =~= start + pawn_diagonal(
            *self,
            row as int,
            col as int,
            *board,
            to_row as int,
            to_col as int,
        ));
    }

    pub fn pawn_moves(&self, row: usize, col: usize, board: &ChessBoard, only_capture_moves: bool) -> (r: Vec<Move>)
        requires
            *self == ChessPieceType::WhitePawn || *self == ChessPieceType::BlackPawn,
            row < 8,
            col < 8,
        ensures
            r@ == pawn_spec(*self, row as int, col as int, *board, only_capture_moves),
            all_wf(r@),
    {
        let ghost k = *self;
        let ghost (r, c, b) = (row as int, col as int, *board);
        let mut moves: Vec<Move> = Vec::new();
        let is_white = *self == ChessPieceType::WhitePawn;
        let direction: i32 = if is_white {
            1
        } else {
            -1
        };
        let to_row: i32 = row as i32 + direction;
        let ghost one = if !only_capture_moves && in_bounds(to_row as int, c) && square(b, to_row as int, c).piece_type
            == ChessPieceType::Empty {
            seq![quiet_move(k, r, c, to_row as int, c)]
        } else {
            seq![]
        };
        if !only_capture_moves && Self::is_valid_position(to_row, col as i32)
            && board.board[to_row as usize][col].piece_type == ChessPieceType::Empty {
            moves.push(
                Move {
                    piece_type: *self,
                    from_row: row,
                    from_col: col,
                    to_row: to_row as usize,
                    to_col: col,
                    type_interaction: None,
                    capture: None,
                    castle: None,
                },
            );
        }
        assert(moves@ =~= one);
        self.push_pawn_diagonal(row, col, board, to_row, col as i32 - 1, &mut moves);
        self.push_pawn_diagonal(row, col, board, to_row, col as i32 + 1, &mut moves);
        let mut en_passant = self.en_passant_move(row, col, board);
        moves.append(&mut en_passant);
        let ghost before_two = moves@;
        let is_starting_position = (is_white && row == 1) || (!is_white && row == 6);
        if !only_capture_moves && is_starting_position {
            let to_row_double_move: i32 = row as i32 + 2 * direction;
            if Self::is_valid_position(to_row_double_move, col as i32)
                && board.board[to_row as usize][col].piece_type == ChessPieceType::Empty
                && board.board[to_row_double_move as usize][col].piece_type
                == ChessPieceType::Empty {
                moves.push(
                    Move {
                        piece_type: *self,
                        from_row: row,
                        from_col: col,
                        to_row: to_row_double_move as usize,
                        to_col: col,
                        type_interaction: None,
                        capture: None,
                        castle: None,
                    },
                );
            }
        }
        assert(moves@ =~= pawn_spec(k, r, c, b, only_capture_moves));
        moves
    }

    pub fn king_moves(&self, row: usize, col: usize, board: &ChessBoard, only_capture_moves: bool) -> (r: Vec<Move>)
        requires
            row < 8,
            col < 8,
        ensures
            r@ == (if only_capture_moves {
                king_step_spec(*self, row as int, col as int, *board)
            } else {
                king_spec(*self, row as int, col as int, *board)
            }),
            all_wf(r@),
        decreases (if only_capture_moves {
            1int
        } else {
            11int
        }),
    {
        let mut moves: Vec<Move> = Vec::new();
        self.push_step(row, col, board, -1, -1, &mut moves);
        self.push_step(row, col, board, -1, 0, &mut moves);
        self.push_step(row, col, board, -1, 1, &mut moves);
        self.push_step(row, col, board, 0, 1, &mut moves);
        self.push_step(row, col, board, 1, 1, &mut moves);
        self.push_step(row, col, board, 1, 0, &mut moves);
        self.push_step(row, col, board, 1, -1, &mut moves);
        self.push_step(row, col, board, 0, -1, &mut moves);
        let ghost steps = moves@;
        assert(steps =~= king_step_spec(*self, row as int, col as int, *board));
        if only_capture_moves {
            return moves;
        }
        let player = if self.is_white() {
            Player::White
        } else {
            Player::Black
        };
        let kingside = col == 4 && board.can_castle_kingside(row, player);
        if kingside {
            moves.push(
                Move {
                    piece_type: *self,
                    from_row: row,
                    from_col: col,
                    to_row: row,
                    to_col: col + 2,
                    type_interaction: None,
                    capture: None,
                    castle: Some(
                        Castle { rook_from_row: row, rook_from_col: 7, rook_to_row: row, rook_to_col: 5 },
                    ),
                },
            );
        }
        let ghost with_kingside = moves@;
        let queenside = col == 4 && board.can_castle_queenside(row, player);
        if queenside {
            moves.push(
                Move {
                    piece_type: *self,
                    from_row: row,
                    from_col: col,
                    to_row: row,
                    to_col: col - 2,
                    type_interaction: None,
                    capture: None,
                    castle: Some(
                        Castle { rook_from_row: row, rook_from_col: 0, rook_to_row: row, rook_to_col: 3 },
                    ),
                },
            );
        }
        assert(moves@ =~= king_spec(*self, row as int, col as int, *board));
        moves
    }

    /// The moves of this piece standing on (row, col): all of them, or only
    /// those that threaten a square (no pawn advance, no castling).
    pub fn available_moves(&self, row: usize, col: usize, board: &ChessBoard, only_capture_moves: bool) -> (r: Vec<Move>)
        requires
            row < 8,
            col < 8,
        ensures
            r@ == generated_moves(*self, row as int, col as int, *board, only_capture_moves),
            all_wf(r@),
        decreases (if only_capture_moves {
            2int
        } else {
            12int
        }),
    {
        match self {
            ChessPieceType::WhitePawn | ChessPieceType::BlackPawn => {
                self.pawn_moves(row, col, board, only_capture_moves)
            },
            ChessPieceType::WhiteKnight | ChessPieceType::BlackKnight => {
                self.knight_moves(row, col, board)
            },
            ChessPieceType::WhiteBishop | ChessPieceType::BlackBishop => {
                self.bishop_moves(row, col, board)
            },
            ChessPieceType::WhiteRook | ChessPieceType::BlackRook => {
                self.rook_moves(row, col, board)
            },
            ChessPieceType::WhiteQueen | ChessPieceType::BlackQueen => {
                self.queen_moves(row, col, board)
            },
            ChessPieceType::WhiteKing | ChessPieceType::BlackKing => {
                self.king_moves(row, col, board, only_capture_moves)
            },
            ChessPieceType::Empty => Vec::new(),
        }
    }
}

} // verus!
