use vstd::prelude::*;

use crate::chess_history::{
    history_after, kingside_rights, queenside_rights, super_effective_square,
};
use crate::chess_structs::{
    kind_named, kind_of_player, opponent, white_kind, winner_of, Capture, ChessBoard, ChessHistory,
    ChessPieceType, InteractionType, Move, Piece, Player, PokemonType, Winner,
};
use crate::pieces::{
    all_wf, attack_moves, attacks_square, empty_piece, generated_moves, kingside_castle_ok,
    move_wf, queenside_castle_ok, reaches, rook_of, square, square_attacked,
};
use crate::pokemon_types::matchup;
use rand::seq::SliceRandom;

verus! {

/// `m` tagged with the outcome of a piece of affinity `aff` moving onto its
/// destination.
pub open spec fn with_interaction(b: ChessBoard, aff: PokemonType, m: Move) -> Move {
    Move {
        type_interaction: Some(
            matchup(aff, square(b, m.to_row as int, m.to_col as int).pokemon_type),
        ),
        ..m
    }
}

pub open spec fn annotate(b: ChessBoard, aff: PokemonType, ms: Seq<Move>) -> Seq<Move> {
    ms.map_values(|m: Move| with_interaction(b, aff, m))
}

/// The moves of the piece on (r, c), tagged with their outcomes, or none if it
/// is not `player`'s.
pub open spec fn unfiltered_moves(b: ChessBoard, r: int, c: int, player: Player, attacks_only: bool) -> Seq<Move> {
    let p = square(b, r, c);
    if kind_of_player(p.piece_type, player) {
        annotate(b, p.pokemon_type, generated_moves(p.piece_type, r, c, b, attacks_only))
    } else {
        seq![]
    }
}

/// The piece that hit super-effectively on the last move, when it is
/// `player`'s: its square is the only one `player` may move from.
pub open spec fn bonus_square(b: ChessBoard, player: Player) -> Option<(usize, usize)> {
    match super_effective_square(b.history) {
        Some((sr, sc)) => if sr < 8 && sc < 8 && square(b, sr as int, sc as int).piece_type
            != ChessPieceType::Empty && kind_of_player(
            square(b, sr as int, sc as int).piece_type,
            player,
        ) {
            Some((sr, sc))
        } else {
            None
        },
        None => None,
    }
}

pub open spec fn starts_on(pos: (usize, usize)) -> spec_fn(Move) -> bool {
    |m: Move| m.from_row == pos.0 && m.from_col == pos.1
}

/// The moves `player` may make with the piece on (r, c), before the test for
/// leaving one's own king in check.
pub open spec fn possible_moves(b: ChessBoard, r: int, c: int, player: Player) -> Seq<Move> {
    let ms = unfiltered_moves(b, r, c, player, false);
    match bonus_square(b, player) {
        Some(pos) => ms.filter(starts_on(pos)),
        None => ms,
    }
}

/// The first of the moves that ends on (r, c).
pub open spec fn first_to(ms: Seq<Move>, r: int, c: int) -> Option<Move>
    decreases ms.len(),
{
    if ms.len() == 0 {
        None
    } else if ms[0].to_row == r && ms[0].to_col == c {
        Some(ms[0])
    } else {
        first_to(ms.drop_first(), r, c)
    }
}

/// The board as rows of squares.
pub open spec fn grid(b: ChessBoard) -> Seq<Seq<Piece>> {
    b.board@.map_values(|row: [Piece; 8]| row@)
}

pub open spec fn put(g: Seq<Seq<Piece>>, r: int, c: int, p: Piece) -> Seq<Seq<Piece>> {
    g.update(r, g[r].update(c, p))
}

/// A move carried out in full: the captured square is emptied, a castling
/// rook is moved, and the piece leaves its square for its destination.
pub open spec fn relocated(g: Seq<Seq<Piece>>, m: Move) -> Seq<Seq<Piece>> {
    let piece = g[m.from_row as int][m.from_col as int];
    let g1 = match m.capture {
        Some(cp) => put(g, cp.row as int, cp.col as int, empty_piece()),
        None => g,
    };
    let g2 = match m.castle {
        Some(cs) => put(
            put(
                g1,
                cs.rook_to_row as int,
                cs.rook_to_col as int,
                g1[cs.rook_from_row as int][cs.rook_from_col as int],
            ),
            cs.rook_from_row as int,
            cs.rook_from_col as int,
            empty_piece(),
        ),
        None => g1,
    };
    put(put(g2, m.to_row as int, m.to_col as int, piece), m.from_row as int, m.from_col as int, empty_piece())
}

/// What a move does to the squares, by its outcome: mutual destruction, a
/// hit that bounces off and changes nothing, or the move carried out.
pub open spec fn resolved(g: Seq<Seq<Piece>>, m: Move) -> Seq<Seq<Piece>> {
    match m.type_interaction {
        Some(InteractionType::NotVeryEffective) => put(
            put(g, m.from_row as int, m.from_col as int, empty_piece()),
            m.to_row as int,
            m.to_col as int,
            empty_piece(),
        ),
        Some(InteractionType::NoEffect) => g,
        _ => relocated(g, m),
    }
}

/// `nb` is `b` after `player` moves the piece on (fr, fc) to (tr, tc): the
/// first available move to that square is resolved and recorded, and if there
/// is none nothing changes.
pub open spec fn board_moved(b: ChessBoard, nb: ChessBoard, fr: int, fc: int, tr: int, tc: int, player: Player) -> bool {
    match first_to(possible_moves(b, fr, fc, player), tr, tc) {
        Some(m) => grid(nb) == resolved(grid(b), m) && nb.history == history_after(b.history, m),
        None => nb == b,
    }
}

/// The board after `player` moves the piece on (fr, fc) to (tr, tc).
pub open spec fn moved_board(b: ChessBoard, fr: int, fc: int, tr: int, tc: int, player: Player) -> ChessBoard {
    choose|nb: ChessBoard| board_moved(b, nb, fr, fc, tr, tc, player)
}

/// Every board holds a piece value, possibly the empty one, on each of its
/// sixty-four squares: eight rows of eight.
pub proof fn lemma_board_fully_populated(b: ChessBoard)
    ensures
        grid(b).len() == 8,
        forall|r: int| 0 <= r < 8 ==> (#[trigger] grid(b)[r]).len() == 8,
{
    assert forall|r: int| 0 <= r < 8 implies (#[trigger] grid(b)[r]).len() == 8 by {
        assert(grid(b)[r] == b.board@[r]@);
    }
}

/// Asking twice for the moves of a piece on an unchanged board gives the
/// same list: `possible_moves_for_piece` returns `possible_moves` of its
/// arguments, whatever came before.
pub proof fn lemma_possible_moves_repeatable(
    b: ChessBoard,
    r: int,
    c: int,
    player: Player,
    first: Seq<Move>,
    second: Seq<Move>,
)
    requires
        first == possible_moves(b, r, c, player),
        second == possible_moves(b, r, c, player),
    ensures
        first == second,
{
}

/// A board is determined by its squares and its history.
proof fn lemma_board_determined(x: ChessBoard, y: ChessBoard)
    requires
        grid(x) == grid(y),
        x.history == y.history,
    ensures
        x == y,
{
    assert forall|i: int| 0 <= i < 8 implies x.board@[i] == y.board@[i] by {
        assert(grid(x)[i] == x.board@[i]@);
        assert(grid(y)[i] == y.board@[i]@);
    }
    assert(x.board@ =~= y.board@);
    assert(x.board == y.board);
}

proof fn lemma_first_to(ms: Seq<Move>, r: int, c: int)
    ensures
        (first_to(ms, r, c) is Some) == reaches(ms, r, c),
        first_to(ms, r, c) matches Some(m) ==> m.to_row == r && m.to_col == c && (all_wf(ms)
            ==> move_wf(m)),
    decreases ms.len(),
{
    if ms.len() > 0 {
        let rest = ms.drop_first();
        lemma_first_to(rest, r, c);
        if reaches(rest, r, c) {
            let k = choose|k: int| 0 <= k < rest.len() && (#[trigger] rest[k]).to_row == r && rest[k].to_col == c;
            assert(ms[k + 1] == rest[k]);
        }
        if reaches(ms, r, c) && !(ms[0].to_row == r && ms[0].to_col == c) {
            let k = choose|k: int| 0 <= k < ms.len() && (#[trigger] ms[k]).to_row == r && ms[k].to_col == c;
            assert(rest[k - 1] == ms[k]);
        }
        if all_wf(ms) {
            assert(all_wf(rest)) by {
                assert forall|k: int| 0 <= k < rest.len() implies move_wf(#[trigger] rest[k]) by {
                    assert(rest[k] == ms[k + 1]);
                }
            }
        }
    }
}

proof fn lemma_filter_wf(ms: Seq<Move>, pred: spec_fn(Move) -> bool)
    requires
        all_wf(ms),
    ensures
        all_wf(ms.filter(pred)),
    decreases ms.len(),
{
    reveal(Seq::filter);
    if ms.len() > 0 {
        let init = ms.drop_last();
        assert(all_wf(init)) by {
            assert forall|k: int| 0 <= k < init.len() implies move_wf(#[trigger] init[k]) by {
                assert(init[k] == ms[k]);
            }
        }
        lemma_filter_wf(init, pred);
        assert(move_wf(ms[ms.len() - 1]));
    }
}

/// The first square, in row-major order from index `n` on, that holds a king
/// of `player`'s.
pub open spec fn king_from(b: ChessBoard, player: Player, n: int) -> Option<(usize, usize)>
    decreases 64 - n,
{
    if n < 0 || n >= 64 {
        None
    } else {
        let k = square(b, n / 8, n % 8).piece_type;
        if (k == ChessPieceType::WhiteKing || k == ChessPieceType::BlackKing) && kind_of_player(k, player) {
            Some(((n / 8) as usize, (n % 8) as usize))
        } else {
            king_from(b, player, n + 1)
        }
    }
}

pub open spec fn king_square(b: ChessBoard, player: Player) -> Option<(usize, usize)> {
    king_from(b, player, 0)
}

pub open spec fn in_check(b: ChessBoard, player: Player) -> bool {
    match king_square(b, player) {
        Some((r, c)) => square_attacked(b, r as int, c as int, player),
        None => false,
    }
}

/// The outcome of the game with `current` to move: a tie when both kings are
/// gone, a win for the side whose king remains when one is gone, and a loss
/// for `current` when its king is threatened and cannot move itself.
pub open spec fn winner_spec(b: ChessBoard, current: Player) -> Winner {
    let other = opponent(current);
    match (king_square(b, current), king_square(b, other)) {
        (None, None) => Winner::Tie,
        (Some(_), None) => winner_of(current),
        (None, Some(_)) => winner_of(other),
        (Some((kr, kc)), Some(_)) => if square_attacked(b, kr as int, kc as int, current)
            && unfiltered_moves(b, kr as int, kc as int, current, true).len() == 0 {
            winner_of(other)
        } else {
            Winner::NoneYet
        },
    }
}

/// Why a promotion to the kind named `name` fails, if it does: no move has
/// been played, the name is not that of a kind a pawn may become, or the last
/// move ends off the board.
pub open spec fn promotion_error(b: ChessBoard, name: Seq<char>, player: Player) -> Option<Seq<char>> {
    match b.history.last_move {
        None => Some("No last move"@),
        Some(m) => if !promotion_kind(kind_named(name, player)) {
            Some("Invalid promotion choice"@)
        } else if m.to_row >= 8 || m.to_col >= 8 {
            Some("Last move is off the board"@)
        } else {
            None
        },
    }
}

/// `nb` is `b` with the piece on the last move's destination turned into the
/// named kind, its affinity kept.
pub open spec fn promoted(b: ChessBoard, nb: ChessBoard, name: Seq<char>, player: Player) -> bool {
    match b.history.last_move {
        Some(m) => nb.history == b.history && grid(nb) == put(
            grid(b),
            m.to_row as int,
            m.to_col as int,
            Piece {
                piece_type: kind_named(name, player),
                pokemon_type: square(b, m.to_row as int, m.to_col as int).pokemon_type,
            },
        ),
        None => false,
    }
}

/// Kinds a pawn may be promoted to.
pub open spec fn promotion_kind(k: ChessPieceType) -> bool {
    k != ChessPieceType::Empty && k != ChessPieceType::WhiteKing && k != ChessPieceType::BlackKing
}

/// The kind on (r, c) at the start of a game.
pub open spec fn start_kind(r: int, c: int) -> ChessPieceType {
    if r == 0 || r == 7 {
        let white = r == 0;
        if c == 0 || c == 7 {
            if white { ChessPieceType::WhiteRook } else { ChessPieceType::BlackRook }
        } else if c == 1 || c == 6 {
            if white { ChessPieceType::WhiteKnight } else { ChessPieceType::BlackKnight }
        } else if c == 2 || c == 5 {
            if white { ChessPieceType::WhiteBishop } else { ChessPieceType::BlackBishop }
        } else if c == 3 {
            if white { ChessPieceType::WhiteQueen } else { ChessPieceType::BlackQueen }
        } else {
            if white { ChessPieceType::WhiteKing } else { ChessPieceType::BlackKing }
        }
    } else if r == 1 {
        ChessPieceType::WhitePawn
    } else if r == 6 {
        ChessPieceType::BlackPawn
    } else {
        ChessPieceType::Empty
    }
}

/// The affinity on (r, c) at the start of a game whose affinities are taken
/// from the back of `w` for White and of `bl` for Black: the back rank from
/// left to right, then the pawns.
pub open spec fn start_affinity(w: Seq<PokemonType>, bl: Seq<PokemonType>, r: int, c: int) -> PokemonType {
    if r == 0 {
        w[w.len() - 1 - c]
    } else if r == 1 {
        w[w.len() - 9 - c]
    } else if r == 6 {
        bl[bl.len() - 9 - c]
    } else if r == 7 {
        bl[bl.len() - 1 - c]
    } else {
        PokemonType::NoType
    }
}

pub open spec fn start_piece(w: Seq<PokemonType>, bl: Seq<PokemonType>, r: int, c: int) -> Piece {
    Piece { piece_type: start_kind(r, c), pokemon_type: start_affinity(w, bl, r, c) }
}

/// The starting position with every piece of the Normal affinity.
pub open spec fn normal_start_piece(r: int, c: int) -> Piece {
    Piece {
        piece_type: start_kind(r, c),
        pokemon_type: if start_kind(r, c) == ChessPieceType::Empty {
            PokemonType::NoType
        } else {
            PokemonType::Normal
        },
    }
}

/// The starting position: every piece on its square with a real affinity,
/// the other squares empty, and no move played.
pub open spec fn starting_board(b: ChessBoard) -> bool {
    &&& fresh_history(b.history)
    &&& forall|i: int, j: int|
        0 <= i < 8 && 0 <= j < 8 ==> (#[trigger] square(b, i, j)).piece_type == start_kind(i, j) && (
        square(b, i, j).pokemon_type == PokemonType::NoType <==> start_kind(i, j) == ChessPieceType::Empty)
}

pub open spec fn fresh_history(h: ChessHistory) -> bool {
    h.last_move is None && kingside_rights(h, true) && kingside_rights(h, false) && queenside_rights(h, true)
        && queenside_rights(h, false)
}

/// An affinity's name cut or padded to four characters.
pub open spec fn affinity_label(t: PokemonType) -> Seq<char> {
    match t {
        PokemonType::Normal => "Norm"@,
        PokemonType::Fire => "Fire"@,
        PokemonType::Water => "Wate"@,
        PokemonType::Electric => "Elec"@,
        PokemonType::Grass => "Gras"@,
        PokemonType::Ice => "Ice "@,
        PokemonType::Fighting => "Figh"@,
        PokemonType::Poison => "Pois"@,
        PokemonType::Ground => "Grou"@,
        PokemonType::Flying => "Flyi"@,
        PokemonType::Psychic => "Psyc"@,
        PokemonType::Bug => "Bug "@,
        PokemonType::Rock => "Rock"@,
        PokemonType::GhostType => "Ghos"@,
        PokemonType::Dragon => "Drag"@,
        PokemonType::Dark => "Dark"@,
        PokemonType::Steel => "Stee"@,
        PokemonType::Fairy => "Fair"@,
        PokemonType::NoType => "NoTy"@,
    }
}

pub open spec fn color_text(k: ChessPieceType) -> Seq<char> {
    if k == ChessPieceType::Empty {
        " "@
    } else if white_kind(k) {
        "W"@
    } else {
        "B"@
    }
}

pub open spec fn kind_text(k: ChessPieceType) -> Seq<char> {
    match k {
        ChessPieceType::Empty => ""@,
        ChessPieceType::WhitePawn | ChessPieceType::BlackPawn => "P"@,
        ChessPieceType::WhiteKnight | ChessPieceType::BlackKnight => "N"@,
        ChessPieceType::WhiteBishop | ChessPieceType::BlackBishop => "B"@,
        ChessPieceType::WhiteRook | ChessPieceType::BlackRook => "R"@,
        ChessPieceType::WhiteQueen | ChessPieceType::BlackQueen => "Q"@,
        ChessPieceType::WhiteKing | ChessPieceType::BlackKing => "K"@,
    }
}

/// A square as text: colour, kind, a space, and the affinity label (blank for
/// an empty square).
pub open spec fn piece_text(p: Piece) -> Seq<char> {
    let label = if p.piece_type == ChessPieceType::Empty {
        "     "@
    } else {
        affinity_label(p.pokemon_type)
    };
    color_text(p.piece_type) + kind_text(p.piece_type) + " "@ + label
}

/// The first `n` squares of row `i`, each framed by bars.
pub open spec fn cells_text(b: ChessBoard, i: int, n: int) -> Seq<char>
    decreases n,
{
    if n <= 0 {
        Seq::empty()
    } else {
        cells_text(b, i, n - 1) + "|"@ + piece_text(square(b, i, n - 1)) + "| "@
    }
}

pub open spec fn separator_text() -> Seq<char> {
    "-------------------------------------------------------------------------------\n"@
}

/// The top `n` rows, from row 7 down, each followed by a separator line.
pub open spec fn rows_text(b: ChessBoard, n: int) -> Seq<char>
    decreases n,
{
    if n <= 0 {
        Seq::empty()
    } else {
        rows_text(b, n - 1) + cells_text(b, 8 - n, 8) + "\n"@ + separator_text()
    }
}

/// The board as text, Black's back rank on top.
pub open spec fn board_text(b: ChessBoard) -> Seq<char> {
    separator_text() + rows_text(b, 8) + "\n"@
}

proof fn lemma_king_from_in_bounds(b: ChessBoard, player: Player, n: int)
    ensures
        king_from(b, player, n) matches Some((r, c)) ==> r < 8 && c < 8,
    decreases 64 - n,
{
    if 0 <= n < 64 {
        lemma_king_from_in_bounds(b, player, n + 1);
    }
}

/// Tagging moves with outcomes keeps their destinations.
proof fn lemma_annotate_reaches(b: ChessBoard, aff: PokemonType, ms: Seq<Move>, r: int, c: int)
    ensures
        reaches(annotate(b, aff, ms), r, c) == reaches(ms, r, c),
{
    let t = annotate(b, aff, ms);
    if reaches(ms, r, c) {
        let k = choose|k: int| 0 <= k < ms.len() && (#[trigger] ms[k]).to_row == r && ms[k].to_col == c;
        assert(t[k].to_row == r && t[k].to_col == c);
    }
    if reaches(t, r, c) {
        let k = choose|k: int| 0 <= k < t.len() && (#[trigger] t[k]).to_row == r && t[k].to_col == c;
        assert(ms[k].to_row == r && ms[k].to_col == c);
    }
}

/// Whether one of the moves ends on (row, col).
fn reaches_square(moves: &Vec<Move>, row: usize, col: usize) -> (r: bool)
    ensures
        r == reaches(moves@, row as int, col as int),
{
    let mut k: usize = 0;
    while k < moves.len()
        invariant
            k <= moves@.len(),
            forall|x: int| 0 <= x < k ==> !((#[trigger] moves@[x]).to_row == row && moves@[x].to_col == col),
        decreases moves@.len() - k,
    {
        if moves[k].to_row == row && moves[k].to_col == col {
            return true;
        }
        k += 1;
    }
    false
}

/// The first of the moves that ends on (row, col).
fn first_move_to(moves: &Vec<Move>, row: usize, col: usize) -> (r: Option<Move>)
    ensures
        r == first_to(moves@, row as int, col as int),
{
    let ghost ms = moves@;
    assert(ms.subrange(0, ms.len() as int) =~= ms);
    let mut k: usize = 0;
    while k < moves.len()
        invariant
            k <= ms.len(),
            ms == moves@,
            first_to(ms, row as int, col as int) == first_to(
                ms.subrange(k as int, ms.len() as int),
                row as int,
                col as int,
            ),
        decreases ms.len() - k,
    {
        let m = moves[k];
        let ghost sub = ms.subrange(k as int, ms.len() as int);
        assert(sub[0] == m);
        if m.to_row == row && m.to_col == col {
            return Some(m);
        }
        assert(sub.drop_first() =~= ms.subrange(k as int + 1, ms.len() as int));
        k += 1;
    }
    None
}

/// Relies on rand's `SliceRandom::shuffle` with the thread-local generator:
/// it reorders the items and neither adds nor drops any.
#[verifier::external_body]
fn shuffled(v: Vec<PokemonType>) -> (r: Vec<PokemonType>)
    ensures
        r@.to_multiset() == v@.to_multiset(),
{
    let mut v = v;
    v.shuffle(&mut rand::thread_rng());
    v
}

/// Takes the last affinity off the list.
fn take_last(types: &mut Vec<PokemonType>) -> (r: PokemonType)
    requires
        old(types)@.len() > 0,
    ensures
        r == old(types)@.last(),
        final(types)@ == old(types)@.drop_last(),
{
    match types.pop() {
        Some(t) => t,
        None => PokemonType::NoType,
    }
}

/// The eighteen affinities a piece can carry, in declaration order.
fn all_affinities() -> (r: Vec<PokemonType>)
    ensures
        r@.len() == 18,
        forall|t: PokemonType| r@.contains(t) ==> t != PokemonType::NoType,
{
    let v = vec![
        PokemonType::Normal,
        PokemonType::Fire,
        PokemonType::Water,
        PokemonType::Electric,
        PokemonType::Grass,
        PokemonType::Ice,
        PokemonType::Fighting,
        PokemonType::Poison,
        PokemonType::Ground,
        PokemonType::Flying,
        PokemonType::Psychic,
        PokemonType::Bug,
        PokemonType::Rock,
        PokemonType::GhostType,
        PokemonType::Dragon,
        PokemonType::Dark,
        PokemonType::Steel,
        PokemonType::Fairy,
    ];
    assert forall|t: PokemonType| v@.contains(t) implies t != PokemonType::NoType by {
        let k = choose|k: int| 0 <= k < v@.len() && v@[k] == t;
    }
    v
}

impl ChessBoard {
    /// A board in the starting position whose pieces carry affinities taken
    /// from a random ordering of the eighteen, one ordering per side.
    pub fn new() -> (r: Self)
        ensures
            starting_board(r),
    {
        Self::initialize_board()
    }

    /// A board in the starting position where every piece has the Normal
    /// affinity, so that every capture is an ordinary one.
    pub fn new_normal_type_only() -> (r: Self)
        ensures
            fresh_history(r.history),
            forall|i: int, j: int|
                0 <= i < 8 && 0 <= j < 8 ==> #[trigger] square(r, i, j) == normal_start_piece(i, j),
    {
        Self::initialize_board_all_normal()
    }

    fn initialize_board_all_normal() -> (r: Self)
        ensures
            fresh_history(r.history),
            forall|i: int, j: int|
                0 <= i < 8 && 0 <= j < 8 ==> #[trigger] square(r, i, j) == normal_start_piece(i, j),
    {
        let white_types = vec![PokemonType::Normal; 16];
        let black_types = vec![PokemonType::Normal; 16];
        let board = Self::create_board_with_types(white_types, black_types);
        ChessBoard { board, history: ChessHistory::new() }
    }

    fn initialize_board() -> (r: Self)
        ensures
            starting_board(r),
    {
        let white_choices = all_affinities();
        let black_choices = all_affinities();
        let ghost (wc, bc) = (white_choices@, black_choices@);
        let white_types = shuffled(white_choices);
        let black_types = shuffled(black_choices);
        let ghost (w, bl) = (white_types@, black_types@);
        proof {
            w.to_multiset_ensures();
            bl.to_multiset_ensures();
            wc.to_multiset_ensures();
            bc.to_multiset_ensures();
        }
        let board = Self::create_board_with_types(white_types, black_types);
        let r = ChessBoard { board, history: ChessHistory::new() };
        assert forall|i: int, j: int| 0 <= i < 8 && 0 <= j < 8 && start_kind(i, j) != ChessPieceType::Empty implies
            (#[trigger] square(r, i, j)).pokemon_type != PokemonType::NoType by {
            let t = square(r, i, j).pokemon_type;
            let (seq_, idx) = if i <= 1 {
                (w, if i == 0 { w.len() - 1 - j } else { w.len() - 9 - j })
            } else {
                (bl, if i == 7 { bl.len() - 1 - j } else { bl.len() - 9 - j })
            };
            assert(seq_[idx] == t);
            assert(seq_.contains(t));
            if i <= 1 {
                assert(w.to_multiset().count(t) > 0);
                assert(wc.to_multiset().count(t) > 0);
                assert(wc.contains(t));
            } else {
                assert(bl.to_multiset().count(t) > 0);
                assert(bc.to_multiset().count(t) > 0);
                assert(bc.contains(t));
            }
        }
        r
    }

    fn create_board_with_types(mut white_types: Vec<PokemonType>, mut black_types: Vec<PokemonType>) -> (r: [[Piece; 8]; 8])
        requires
            white_types@.len() >= 16,
            black_types@.len() >= 16,
        ensures
            forall|i: int, j: int|
                0 <= i < 8 && 0 <= j < 8 ==> #[trigger] r[i][j] == start_piece(white_types@, black_types@, i, j),
    {
        let ghost (w, bl) = (white_types@, black_types@);
        let empty_piece = Piece::empty();
        let mut board = [[empty_piece; 8]; 8];
        let mut back_rank = [empty_piece; 8];
        let white_back = [
            ChessPieceType::WhiteRook,
            ChessPieceType::WhiteKnight,
            ChessPieceType::WhiteBishop,
            ChessPieceType::WhiteQueen,
            ChessPieceType::WhiteKing,
            ChessPieceType::WhiteBishop,
            ChessPieceType::WhiteKnight,
            ChessPieceType::WhiteRook,
        ];
        let black_back = [
            ChessPieceType::BlackRook,
            ChessPieceType::BlackKnight,
            ChessPieceType::BlackBishop,
            ChessPieceType::BlackQueen,
            ChessPieceType::BlackKing,
            ChessPieceType::BlackBishop,
            ChessPieceType::BlackKnight,
            ChessPieceType::BlackRook,
        ];
        for col in 0..8
            invariant
                white_types@ == w.subrange(0, w.len() - col),
                w.len() >= 16,
                white_back@ == seq![
                    ChessPieceType::WhiteRook,
                    ChessPieceType::WhiteKnight,
                    ChessPieceType::WhiteBishop,
                    ChessPieceType::WhiteQueen,
                    ChessPieceType::WhiteKing,
                    ChessPieceType::WhiteBishop,
                    ChessPieceType::WhiteKnight,
                    ChessPieceType::WhiteRook,
                ],
                forall|j: int| 0 <= j < col ==> #[trigger] back_rank[j] == start_piece(w, bl, 0, j),
        {
            back_rank[col] = Piece { piece_type: white_back[col], pokemon_type: take_last(&mut white_types) };
            assert(white_types@ =~= w.subrange(0, w.len() - col - 1));
        }
        board[0] = back_rank;
        let mut pawns = [empty_piece; 8];
        for col in 0..8
            invariant
                white_types@ == w.subrange(0, w.len() - 8 - col),
                w.len() >= 16,
                forall|j: int| 0 <= j < col ==> #[trigger] pawns[j] == start_piece(w, bl, 1, j),
        {
            pawns[col] = Piece { piece_type: ChessPieceType::WhitePawn, pokemon_type: take_last(&mut white_types) };
            assert(white_types@ =~= w.subrange(0, w.len() - 8 - col - 1));
        }
        board[1] = pawns;
        for col in 0..8
            invariant
                black_types@ == bl.subrange(0, bl.len() - col),
                bl.len() >= 16,
                black_back@ == seq![
                    ChessPieceType::BlackRook,
                    ChessPieceType::BlackKnight,
                    ChessPieceType::BlackBishop,
                    ChessPieceType::BlackQueen,
                    ChessPieceType::BlackKing,
                    ChessPieceType::BlackBishop,
                    ChessPieceType::BlackKnight,
                    ChessPieceType::BlackRook,
                ],
                forall|j: int| 0 <= j < col ==> #[trigger] back_rank[j] == start_piece(w, bl, 7, j),
        {
            back_rank[col] = Piece { piece_type: black_back[col], pokemon_type: take_last(&mut black_types) };
            assert(black_types@ =~= bl.subrange(0, bl.len() - col - 1));
        }
        board[7] = back_rank;
        for col in 0..8
            invariant
                black_types@ == bl.subrange(0, bl.len() - 8 - col),
                bl.len() >= 16,
                forall|j: int| 0 <= j < col ==> #[trigger] pawns[j] == start_piece(w, bl, 6, j),
        {
            pawns[col] = Piece { piece_type: ChessPieceType::BlackPawn, pokemon_type: take_last(&mut black_types) };
            assert(black_types@ =~= bl.subrange(0, bl.len() - 8 - col - 1));
        }
        board[6] = pawns;
        board
    }

    fn affinity_label(t: PokemonType) -> (r: &'static str)
        ensures
            r@ == affinity_label(t),
    {
        match t {
            PokemonType::Normal => "Norm",
            PokemonType::Fire => "Fire",
            PokemonType::Water => "Wate",
            PokemonType::Electric => "Elec",
            PokemonType::Grass => "Gras",
            PokemonType::Ice => "Ice ",
            PokemonType::Fighting => "Figh",
            PokemonType::Poison => "Pois",
            PokemonType::Ground => "Grou",
            PokemonType::Flying => "Flyi",
            PokemonType::Psychic => "Psyc",
            PokemonType::Bug => "Bug ",
            PokemonType::Rock => "Rock",
            PokemonType::GhostType => "Ghos",
            PokemonType::Dragon => "Drag",
            PokemonType::Dark => "Dark",
            PokemonType::Steel => "Stee",
            PokemonType::Fairy => "Fair",
            PokemonType::NoType => "NoTy",
        }
    }

    fn format_piece(piece: Piece) -> (r: String)
        ensures
            r@ == piece_text(piece),
    {
        let color = if piece.piece_type == ChessPieceType::Empty {
            " "
        } else if piece.piece_type.is_white() {
            "W"
        } else {
            "B"
        };
        let chess_type = match piece.piece_type {
            ChessPieceType::Empty => "",
            ChessPieceType::WhitePawn | ChessPieceType::BlackPawn => "P",
            ChessPieceType::WhiteKnight | ChessPieceType::BlackKnight => "N",
            ChessPieceType::WhiteBishop | ChessPieceType::BlackBishop => "B",
            ChessPieceType::WhiteRook | ChessPieceType::BlackRook => "R",
            ChessPieceType::WhiteQueen | ChessPieceType::BlackQueen => "Q",
            ChessPieceType::WhiteKing | ChessPieceType::BlackKing => "K",
        };
        let label = if piece.piece_type == ChessPieceType::Empty {
            "     "
        } else {
            Self::affinity_label(piece.pokemon_type)
        };
        let mut text = String::new();
        text.append(color);
        text.append(chess_type);
        text.append(" ");
        text.append(label);
        text
    }

    /// The board as text, one line per row from Black's back rank down,
    /// with separator lines between.
    pub fn display_board_str(&self) -> (r: String)
        ensures
            r@ == board_text(*self),
    {
        let separator = "-------------------------------------------------------------------------------\n";
        let mut result = String::new();
        result.append(separator);
        let mut n: usize = 0;
        while n < 8
            invariant
                n <= 8,
                separator@ == separator_text(),
                result@ == separator_text() + rows_text(*self, n as int),
            decreases 8 - n,
        {
            let i = 7 - n;
            let ghost before = result@;
            let mut j: usize = 0;
            while j < 8
                invariant
                    n < 8,
                    i == 7 - n,
                    j <= 8,
                    result@ == before + cells_text(*self, i as int, j as int),
                decreases 8 - j,
            {
                let piece = self.board[i][j];
                let cell = Self::format_piece(piece);
                result.append("|");
                result.append(cell.as_str());
                result.append("| ");
                j += 1;
            }
            result.append("\n");
            result.append(separator);
            n += 1;
        }
        result.append("\n");
        result
    }

    pub fn get_piece(&self, row: usize, col: usize) -> (r: Piece)
        requires
            row < 8,
            col < 8,
        ensures
            r == square(*self, row as int, col as int),
    {
        self.board[row][col]
    }

    fn piece_same_as_player(piece: Piece, player: &Player) -> (r: bool)
        ensures
            r == kind_of_player(piece.piece_type, *player),
    {
        piece.piece_type.is_white() == (*player == Player::White)
    }

    fn rook_of(player: Player) -> (r: ChessPieceType)
        ensures
            r == rook_of(player),
    {
        match player {
            Player::White => ChessPieceType::WhiteRook,
            Player::Black => ChessPieceType::BlackRook,
        }
    }

    pub fn can_castle_kingside(&self, row: usize, player: Player) -> (r: bool)
        requires
            row < 8,
        ensures
            r == kingside_castle_ok(*self, row as int, player),
        decreases 10int,
    {
        if !self.history.can_castle_kingside(player == Player::White) {
            return false;
        }
        if self.get_piece(row, 7).piece_type != Self::rook_of(player) {
            return false;
        }
        if self.get_piece(row, 5).piece_type != ChessPieceType::Empty || self.get_piece(
            row,
            6,
        ).piece_type != ChessPieceType::Empty {
            return false;
        }
        !self.location_under_attack(row, 5, player) && !self.location_under_attack(row, 6, player)
    }

    pub fn can_castle_queenside(&self, row: usize, player: Player) -> (r: bool)
        requires
            row < 8,
        ensures
            r == queenside_castle_ok(*self, row as int, player),
        decreases 10int,
    {
        if !self.history.can_castle_queenside(player == Player::White) {
            return false;
        }
        if self.get_piece(row, 0).piece_type != Self::rook_of(player) {
            return false;
        }
        if self.get_piece(row, 1).piece_type != ChessPieceType::Empty || self.get_piece(
            row,
            2,
        ).piece_type != ChessPieceType::Empty || self.get_piece(row, 3).piece_type
            != ChessPieceType::Empty {
            return false;
        }
        !self.location_under_attack(row, 2, player) && !self.location_under_attack(row, 3, player)
    }

    /// Whether a piece of `player`'s opponent threatens (row, col).
    pub fn location_under_attack(&self, row: usize, col: usize, player: Player) -> (r: bool)
        ensures
            r == square_attacked(*self, row as int, col as int, player),
        decreases 5int,
    {
        let enemy = player.other_player();
        let mut i: usize = 0;
        while i < 8
            invariant
                i <= 8,
                enemy == opponent(player),
                forall|a: int, c: int|
                    0 <= a < i && 0 <= c < 8 ==> !#[trigger] attacks_square(
                        *self,
                        a,
                        c,
                        row as int,
                        col as int,
                        enemy,
                    ),
            decreases 8 - i,
        {
            let mut j: usize = 0;
            while j < 8
                invariant
                    i < 8,
                    j <= 8,
                    enemy == opponent(player),
                    forall|a: int, c: int|
                        (0 <= a < i && 0 <= c < 8) || (a == i && 0 <= c < j) ==> !#[trigger] attacks_square(
                            *self,
                            a,
                            c,
                            row as int,
                            col as int,
                            enemy,
                        ),
                decreases 8 - j,
            {
                let piece = self.get_piece(i, j);
                if piece.piece_type != ChessPieceType::Empty && Self::piece_same_as_player(
                    piece,
                    &enemy,
                ) {
                    let moves = self.possible_moves_for_piece_unfiltered(i, j, enemy, true);
                    proof {
                        lemma_annotate_reaches(
                            *self,
                            piece.pokemon_type,
                            attack_moves(piece.piece_type, i as int, j as int, *self),
                            row as int,
                            col as int,
                        );
                    }
                    if reaches_square(&moves, row, col) {
                        assert(attacks_square(*self, i as int, j as int, row as int, col as int, enemy));
                        return true;
                    }
                }
                j += 1;
            }
            i += 1;
        }
        false
    }

    pub fn possible_moves_for_piece(&self, row: usize, col: usize, player: Player) -> (r: Vec<Move>)
        requires
            row < 8,
            col < 8,
        ensures
            r@ == possible_moves(*self, row as int, col as int, player),
            all_wf(r@),
    {
        let moves = self.possible_moves_for_piece_unfiltered(row, col, player, false);
        if let Some(position) = self.history.last_move_super_effective() {
            let (sr, sc) = position;
            if sr < 8 && sc < 8 {
                let hitter = self.get_piece(sr, sc);
                if hitter.piece_type != ChessPieceType::Empty && Self::piece_same_as_player(
                    hitter,
                    &player,
                ) {
                    proof {
                        lemma_filter_wf(moves@, starts_on(position));
                    }
                    return Self::filter_moves_if_super_effective(moves, position);
                }
            }
        }
        moves
    }

    fn filter_moves_if_super_effective(moves: Vec<Move>, position: (usize, usize)) -> (r: Vec<Move>)
        ensures
            r@ == moves@.filter(starts_on(position)),
    {
        let mut filtered_moves: Vec<Move> = Vec::new();
        let mut k: usize = 0;
        while k < moves.len()
            invariant
                k <= moves@.len(),
                filtered_moves@ == moves@.subrange(0, k as int).filter(starts_on(position)),
            decreases moves@.len() - k,
        {
            let m = moves[k];
            proof {
                let pre = moves@.subrange(0, k as int + 1);
                assert(pre.drop_last() =~= moves@.subrange(0, k as int));
                reveal(Seq::filter);
            }
            if m.from_row == position.0 && m.from_col == position.1 {
                filtered_moves.push(m);
            }
            k += 1;
        }
        assert(moves@.subrange(0, moves@.len() as int) =~= moves@);
        filtered_moves
    }

    /// Whether `player` may move the piece on (from_row, from_col) to
    /// (to_row, to_col), before the test for leaving one's own king in check.
    pub fn is_move_valid(
        &self,
        from_row: usize,
        from_col: usize,
        to_row: usize,
        to_col: usize,
        player: Player,
    ) -> (r: bool)
        requires
            from_row < 8,
            from_col < 8,
        ensures
            r == reaches(possible_moves(*self, from_row as int, from_col as int, player), to_row as int, to_col as int),
            r ==> to_row < 8 && to_col < 8,
    {
        let possible_moves = self.possible_moves_for_piece(from_row, from_col, player);
        let r = reaches_square(&possible_moves, to_row, to_col);
        proof {
            if r {
                let ms = possible_moves@;
                let k = choose|k: int| 0 <= k < ms.len() && (#[trigger] ms[k]).to_row == to_row && ms[k].to_col == to_col;
                assert(move_wf(ms[k]));
            }
        }
        r
    }

    fn find_move(
        &self,
        from_row: usize,
        from_col: usize,
        to_row: usize,
        to_col: usize,
        player: Player,
    ) -> (r: Option<Move>)
        requires
            from_row < 8,
            from_col < 8,
        ensures
            r == first_to(possible_moves(*self, from_row as int, from_col as int, player), to_row as int, to_col as int),
            r matches Some(m) ==> move_wf(m),
    {
        let possible_moves = self.possible_moves_for_piece(from_row, from_col, player);
        proof {
            lemma_first_to(possible_moves@, to_row as int, to_col as int);
        }
        first_move_to(&possible_moves, to_row, to_col)
    }

    /// Writes `p` on (row, col).
    fn set_square(&mut self, row: usize, col: usize, p: Piece)
        requires
            row < 8,
            col < 8,
        ensures
            grid(*final(self)) == put(grid(*old(self)), row as int, col as int, p),
            final(self).history == old(self).history,
    {
        self.board[row][col] = p;
        assert(grid(*self) =~~= put(grid(*old(self)), row as int, col as int, p));
    }

    /// Empties the square the capture names, which for en passant is not the
    /// destination.
    pub fn capture_piece(&mut self, capture: Capture, _move_to_execute: Move)
        requires
            capture.row < 8,
            capture.col < 8,
        ensures
            grid(*final(self)) == put(grid(*old(self)), capture.row as int, capture.col as int, empty_piece()),
            final(self).history == old(self).history,
    {
        self.set_square(capture.row, capture.col, Piece::empty());
    }

    fn capture_piece_if_applicable(&mut self, move_to_execute: &Move)
        requires
            move_wf(*move_to_execute),
        ensures
            grid(*final(self)) == (match move_to_execute.capture {
                Some(cp) => put(grid(*old(self)), cp.row as int, cp.col as int, empty_piece()),
                None => grid(*old(self)),
            }),
            final(self).history == old(self).history,
    {
        if let Some(capture) = move_to_execute.capture {
            self.capture_piece(capture, *move_to_execute);
        }
    }

    fn handle_castling_if_applicable(&mut self, move_to_execute: &Move)
        requires
            move_wf(*move_to_execute),
        ensures
            grid(*final(self)) == (match move_to_execute.castle {
                Some(cs) => put(
                    put(
                        grid(*old(self)),
                        cs.rook_to_row as int,
                        cs.rook_to_col as int,
                        grid(*old(self))[cs.rook_from_row as int][cs.rook_from_col as int],
                    ),
                    cs.rook_from_row as int,
                    cs.rook_from_col as int,
                    empty_piece(),
                ),
                None => grid(*old(self)),
            }),
            final(self).history == old(self).history,
    {
        if let Some(castle) = move_to_execute.castle {
            let rook = self.get_piece(castle.rook_from_row, castle.rook_from_col);
            self.set_square(castle.rook_to_row, castle.rook_to_col, rook);
            self.set_square(castle.rook_from_row, castle.rook_from_col, Piece::empty());
        }
    }

    fn handle_captures_and_special_moves(&mut self, move_to_execute: &Move)
        requires
            move_wf(*move_to_execute),
        ensures
            grid(*final(self)) == ({
                let g = grid(*old(self));
                let m = *move_to_execute;
                let g1 = match m.capture {
                    Some(cp) => put(g, cp.row as int, cp.col as int, empty_piece()),
                    None => g,
                };
                match m.castle {
                    Some(cs) => put(
                        put(
                            g1,
                            cs.rook_to_row as int,
                            cs.rook_to_col as int,
                            g1[cs.rook_from_row as int][cs.rook_from_col as int],
                        ),
                        cs.rook_from_row as int,
                        cs.rook_from_col as int,
                        empty_piece(),
                    ),
                    None => g1,
                }
            }),
            final(self).history == old(self).history,
    {
        self.capture_piece_if_applicable(move_to_execute);
        self.handle_castling_if_applicable(move_to_execute);
    }

    /// Carries out `m` on a copy of the board and records it.
    fn execute_move(&self, m: Move) -> (r: ChessBoard)
        requires
            move_wf(m),
        ensures
            grid(r) == resolved(grid(*self), m),
            r.history == crate::chess_history::history_after(self.history, m),
    {
        let mut new_board = *self;
        let piece = self.get_piece(m.from_row, m.from_col);
        match m.type_interaction {
            Some(InteractionType::NotVeryEffective) => {
                new_board.set_square(m.from_row, m.from_col, Piece::empty());
                new_board.set_square(m.to_row, m.to_col, Piece::empty());
            },
            Some(InteractionType::NoEffect) => {},
            _ => {
                new_board.handle_captures_and_special_moves(&m);
                new_board.set_square(m.to_row, m.to_col, piece);
                new_board.set_square(m.from_row, m.from_col, Piece::empty());
            },
        }
        new_board.history.add_move(m);
        new_board
    }

    /// The board after `player` moves the piece on (from_row, from_col) to
    /// (to_row, to_col); the board unchanged if that move is not available.
    pub fn move_piece(
        &self,
        from_row: usize,
        from_col: usize,
        to_row: usize,
        to_col: usize,
        player: Player,
    ) -> (r: ChessBoard)
        requires
            from_row < 8,
            from_col < 8,
        ensures
            board_moved(*self, r, from_row as int, from_col as int, to_row as int, to_col as int, player),
            r == moved_board(*self, from_row as int, from_col as int, to_row as int, to_col as int, player),
    {
        let r = match self.find_move(from_row, from_col, to_row, to_col, player) {
            Some(m) => self.execute_move(m),
            None => *self,
        };
        proof {
            assert(board_moved(*self, r, from_row as int, from_col as int, to_row as int, to_col as int, player));
            let nb = moved_board(*self, from_row as int, from_col as int, to_row as int, to_col as int, player);
            assert(board_moved(*self, nb, from_row as int, from_col as int, to_row as int, to_col as int, player));
            lemma_board_determined(r, nb);
        }
        r
    }

    fn find_king_position(&self, player: Player) -> (r: Option<(usize, usize)>)
        ensures
            r == king_square(*self, player),
    {
        let mut row: usize = 0;
        while row < 8
            invariant
                row <= 8,
                king_from(*self, player, 0) == king_from(*self, player, 8 * row as int),
            decreases 8 - row,
        {
            let mut col: usize = 0;
            while col < 8
                invariant
                    row < 8,
                    col <= 8,
                    king_from(*self, player, 0) == king_from(*self, player, 8 * row as int + col as int),
                decreases 8 - col,
            {
                let piece = self.get_piece(row, col);
                let ghost n = 8 * row as int + col as int;
                assert(n / 8 == row as int && n % 8 == col as int);
                if piece.piece_type.is_king() && Self::piece_same_as_player(piece, &player) {
                    return Some((row, col));
                }
                col += 1;
            }
            row += 1;
        }
        None
    }

    pub fn is_king_in_check(&self, player: Player) -> (r: bool)
        ensures
            r == in_check(*self, player),
    {
        match self.find_king_position(player) {
            Some(king_position) => {
                proof {
                    lemma_king_from_in_bounds(*self, player, 0);
                }
                self.location_under_attack(king_position.0, king_position.1, player)
            },
            None => false,
        }
    }

    pub fn last_move_interaction_type(&self) -> (r: Option<InteractionType>)
        ensures
            r == (match self.history.last_move {
                Some(m) => m.type_interaction,
                None => None,
            }),
    {
        match self.history.last_move() {
            Some(last_move) => last_move.type_interaction,
            None => None,
        }
    }

    pub fn get_winner(&self, current_player: Player) -> (r: Winner)
        ensures
            r == winner_spec(*self, current_player),
    {
        let opponent = current_player.other_player();
        let current_king_position = self.find_king_position(current_player);
        let opponent_king_position = self.find_king_position(opponent);
        proof {
            lemma_king_from_in_bounds(*self, current_player, 0);
        }
        match (current_king_position, opponent_king_position) {
            (None, None) => Winner::Tie,
            (Some(_), None) => Winner::from_player(current_player),
            (None, Some(_)) => Winner::from_player(opponent),
            (Some(current_king_pos), Some(_)) => {
                let current_king_in_check = self.location_under_attack(
                    current_king_pos.0,
                    current_king_pos.1,
                    current_player,
                );
                let king_moves = self.possible_moves_for_piece_unfiltered(
                    current_king_pos.0,
                    current_king_pos.1,
                    current_player,
                    true,
                );
                if current_king_in_check && king_moves.len() == 0 {
                    Winner::from_player(opponent)
                } else {
                    Winner::NoneYet
                }
            },
        }
    }

    /// Replaces the pawn that the last move brought to the farthest rank by
    /// the named kind, keeping its affinity.
    pub fn select_pawn_promotion_piece(&mut self, piece_str: String, player: Player) -> (r: Result<(), String>)
        ensures
            match promotion_error(*old(self), piece_str@, player) {
                Some(msg) => r is Err && r->Err_0@ == msg && *final(self) == *old(self),
                None => r is Ok && promoted(*old(self), *final(self), piece_str@, player),
            },
    {
        match self.history.last_move() {
            Some(location) => {
                let piece_type = ChessPieceType::select_piece_from_string_and_player(
                    piece_str.as_str(),
                    player,
                );
                if piece_type == ChessPieceType::Empty || piece_type.is_king() {
                    return Err("Invalid promotion choice".to_owned());
                }
                if location.to_row >= 8 || location.to_col >= 8 {
                    return Err("Last move is off the board".to_owned());
                }
                let affinity = self.get_piece(location.to_row, location.to_col).pokemon_type;
                self.set_square(location.to_row, location.to_col, Piece { piece_type, pokemon_type: affinity });
                Ok(())
            },
            None => Err("No last move".to_owned()),
        }
    }

    fn possible_moves_for_piece_unfiltered(
        &self,
        row: usize,
        col: usize,
        player: Player,
        only_capture_moves: bool,
    ) -> (r: Vec<Move>)
        requires
            row < 8,
            col < 8,
        ensures
            r@ == unfiltered_moves(*self, row as int, col as int, player, only_capture_moves),
            all_wf(r@),
        decreases (if only_capture_moves {
            3int
        } else {
            13int
        }),
    {
        let piece: Piece = self.get_piece(row, col);
        if piece.piece_type.is_white() != (player == Player::White) {
            return Vec::new();
        }
        let moves = piece.piece_type.available_moves(row, col, self, only_capture_moves);
        let mut tagged: Vec<Move> = Vec::new();
        let mut k: usize = 0;
        while k < moves.len()
            invariant
                k <= moves@.len(),
                all_wf(moves@),
                tagged@.len() == k,
                forall|x: int|
                    0 <= x < k ==> #[trigger] tagged@[x] == with_interaction(
                        *self,
                        piece.pokemon_type,
                        moves@[x],
                    ),
                forall|x: int| 0 <= x < k ==> crate::pieces::move_wf(#[trigger] tagged@[x]),
            decreases moves@.len() - k,
        {
            let m = moves[k];
            let other_piece = self.get_piece(m.to_row, m.to_col);
            let type_matchup: InteractionType = PokemonType::type_matchup(
                piece.pokemon_type,
                other_piece.pokemon_type,
            );
            tagged.push(Move { type_interaction: Some(type_matchup), ..m });
            k += 1;
        }
        assert(tagged@ =~= annotate(*self, piece.pokemon_type, moves@));
        tagged
    }
}

} // verus!
