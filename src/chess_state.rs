use vstd::prelude::*;

use crate::chess::{
    in_check, moved_board, possible_moves, promoted, promotion_error, starting_board, winner_spec,
};
use crate::chess_history::promotion_pending;
use crate::chess_structs::{
    opponent, ChessBoard, ChessState, InfoMessage, InteractionType, Move, Player, Winner,
};
use crate::messages::message_for;
use crate::pieces::{all_wf, reaches};

verus! {

/// The outcome of the last move on the board, if any was recorded.
pub open spec fn last_interaction(b: ChessBoard) -> Option<InteractionType> {
    match b.history.last_move {
        Some(m) => m.type_interaction,
        None => None,
    }
}

/// A super-effective hit whose piece has no further move, and no promotion
/// waiting: the bonus turn is void.
pub open spec fn bonus_forfeited(nb: ChessBoard, player: Player, tr: int, tc: int) -> bool {
    last_interaction(nb) == Some(InteractionType::SuperEffective) && possible_moves(nb, tr, tc, player).len()
        == 0 && !promotion_pending(nb.history)
}

/// Who moves after `player` moved a piece to (tr, tc), leaving `nb`: the same
/// player while a promotion is pending or after a super-effective hit whose
/// piece can move again, the other player otherwise.
pub open spec fn turn_after_move(nb: ChessBoard, player: Player, tr: int, tc: int) -> Player {
    if last_interaction(nb) == Some(InteractionType::SuperEffective) {
        if bonus_forfeited(nb, player, tr, tc) {
            opponent(player)
        } else {
            player
        }
    } else if promotion_pending(nb.history) {
        player
    } else {
        opponent(player)
    }
}

/// The state machine accepts the move: no promotion waits, no winner is
/// decided, and the piece may go there.
pub open spec fn move_accepted(s: ChessState, fr: int, fc: int, tr: int, tc: int) -> bool {
    &&& !s.require_piece_selection
    &&& s.winner == Winner::NoneYet
    &&& 0 <= fr < 8 && 0 <= fc < 8
    &&& reaches(possible_moves(s.chessboard, fr, fc, s.player), tr, tc)
}

/// The state after an accepted move from (fr, fc) to (tr, tc).
pub open spec fn state_after_move(s: ChessState, fr: int, fc: int, tr: int, tc: int) -> ChessState {
    let nb = moved_board(s.chessboard, fr, fc, tr, tc, s.player);
    let next = turn_after_move(nb, s.player, tr, tc);
    let outcome = match last_interaction(nb) {
        Some(t) => t,
        None => InteractionType::Normal,
    };
    ChessState {
        chessboard: nb,
        player: next,
        winner: winner_spec(nb, next),
        info_message: message_for(outcome, !bonus_forfeited(nb, s.player, tr, tc)),
        require_piece_selection: promotion_pending(nb.history),
        turn_count: (s.turn_count + 1) as usize,
    }
}

/// The move leaves the mover's own king safe.
pub open spec fn keeps_king_safe(b: ChessBoard, player: Player) -> spec_fn(Move) -> bool {
    |m: Move|
        !in_check(
            moved_board(b, m.from_row as int, m.from_col as int, m.to_row as int, m.to_col as int, player),
            player,
        )
}

/// The moves offered for the piece on (r, c): none once the game is decided,
/// otherwise those available that do not leave the mover's king threatened.
pub open spec fn valid_moves(s: ChessState, r: int, c: int) -> Seq<Move> {
    if winner_spec(s.chessboard, s.player) != Winner::NoneYet || !(0 <= r < 8 && 0 <= c < 8) {
        seq![]
    } else {
        possible_moves(s.chessboard, r, c, s.player).filter(keeps_king_safe(s.chessboard, s.player))
    }
}

/// No move offered for a piece leaves the mover's own king threatened once it
/// is played.
pub proof fn lemma_valid_moves_keep_king_safe(s: ChessState, r: int, c: int, k: int)
    requires
        0 <= k < valid_moves(s, r, c).len(),
    ensures
        ({
            let m = valid_moves(s, r, c)[k];
            !in_check(
                moved_board(s.chessboard, m.from_row as int, m.from_col as int, m.to_row as int, m.to_col as int, s.player),
                s.player,
            )
        }),
{
    broadcast use vstd::seq_lib::group_filter_ensures;

    let pred = keeps_king_safe(s.chessboard, s.player);
    assert(pred(valid_moves(s, r, c)[k]));
}

/// Who moves once a promotion is chosen: the same player if the promotion
/// ends a super-effective hit and the promoted piece can move again, the
/// other player otherwise.
pub open spec fn turn_after_promotion(nb: ChessBoard, player: Player) -> Player {
    match nb.history.last_move {
        Some(m) => if m.type_interaction == Some(InteractionType::SuperEffective) && possible_moves(
            nb,
            m.to_row as int,
            m.to_col as int,
            player,
        ).len() > 0 {
            player
        } else {
            opponent(player)
        },
        None => opponent(player),
    }
}

/// `ns` is `s` once the promotion to the kind named `name` is done: the pawn
/// replaced, the next player chosen, the winner taken from the new board, and
/// no promotion pending.
pub open spec fn promotion_step(s: ChessState, ns: ChessState, name: Seq<char>) -> bool {
    &&& promoted(s.chessboard, ns.chessboard, name, s.player)
    &&& ns.player == turn_after_promotion(ns.chessboard, s.player)
    &&& ns.winner == winner_spec(ns.chessboard, ns.player)
    &&& !ns.require_piece_selection
    &&& ns.info_message == s.info_message
    &&& ns.turn_count == s.turn_count
}

/// Why the state refuses a promotion to the kind named `name`, if it does.
pub open spec fn promotion_error_of(s: ChessState, name: Seq<char>) -> Option<Seq<char>> {
    if !s.require_piece_selection {
        Some("No promotion pending"@)
    } else {
        promotion_error(s.chessboard, name, s.player)
    }
}

impl ChessState {
    /// A new game: the starting position with random affinities, White to
    /// move.
    pub fn new() -> (r: Self)
        ensures
            starting_board(r.chessboard),
            r.player == Player::White,
            r.winner == Winner::NoneYet,
            r.info_message is None,
            !r.require_piece_selection,
            r.turn_count == 0,
    {
        let chessboard = ChessBoard::new();
        ChessState {
            chessboard,
            player: Player::White,
            winner: Winner::NoneYet,
            info_message: None,
            require_piece_selection: false,
            turn_count: 0,
        }
    }

    /// Plays the move of the piece on (from_row, from_col) to (to_row,
    /// to_col) for the player to move; false, and nothing changes, if the
    /// move is refused.
    pub fn move_piece(&mut self, from_row: usize, from_col: usize, to_row: usize, to_col: usize) -> (r: bool)
        requires
            old(self).turn_count < usize::MAX,
        ensures
            r == move_accepted(*old(self), from_row as int, from_col as int, to_row as int, to_col as int),
            r ==> *final(self) == state_after_move(
                *old(self),
                from_row as int,
                from_col as int,
                to_row as int,
                to_col as int,
            ),
            !r ==> *final(self) == *old(self),
    {
        if self.require_piece_selection || self.winner != Winner::NoneYet {
            return false;
        }
        if from_row >= 8 || from_col >= 8 {
            return false;
        }
        if !self.chessboard.is_move_valid(from_row, from_col, to_row, to_col, self.player) {
            return false;
        }
        let player = self.player;
        self.chessboard = self.chessboard.move_piece(from_row, from_col, to_row, to_col, player);
        let interaction_type = self.chessboard.last_move_interaction_type();
        let mut moves_available = true;
        let is_super_effective = interaction_type == Some(InteractionType::SuperEffective);
        let pawn_promotion = self.chessboard.history.last_move_requires_pawn_promotion();
        if is_super_effective {
            let moves = self.chessboard.possible_moves_for_piece(to_row, to_col, player);
            if moves.len() == 0 && !pawn_promotion {
                self.player = player.other_player();
                moves_available = false;
            }
        } else {
            if !pawn_promotion {
                self.player = player.other_player();
            }
        }
        let outcome = match interaction_type {
            Some(t) => t,
            None => InteractionType::Normal,
        };
        self.info_message = InfoMessage::get_message_from_interaction_type(outcome, moves_available);
        self.require_piece_selection = pawn_promotion;
        self.winner = self.chessboard.get_winner(self.player);
        self.turn_count = self.turn_count + 1;
        true
    }

    /// The moves offered for the piece on (row, col): those the player to
    /// move may make that do not leave that player's king threatened; none
    /// once the game is decided.
    pub fn get_valid_moves(&self, row: usize, col: usize) -> (r: Vec<Move>)
        ensures
            r@ == valid_moves(*self, row as int, col as int),
    {
        if self.chessboard.get_winner(self.player) != Winner::NoneYet {
            return Vec::new();
        }
        if row >= 8 || col >= 8 {
            return Vec::new();
        }
        let moves = self.chessboard.possible_moves_for_piece(row, col, self.player);
        let current_player = self.player;
        let ghost pred = keeps_king_safe(self.chessboard, current_player);
        let mut valid_moves: Vec<Move> = Vec::new();
        let mut k: usize = 0;
        while k < moves.len()
            invariant
                k <= moves@.len(),
                all_wf(moves@),
                current_player == self.player,
                pred == keeps_king_safe(self.chessboard, current_player),
                valid_moves@ == moves@.subrange(0, k as int).filter(pred),
            decreases moves@.len() - k,
        {
            let m = moves[k];
            assert(crate::pieces::move_wf(moves@[k as int]));
            let new_board = self.chessboard.move_piece(m.from_row, m.from_col, m.to_row, m.to_col, current_player);
            proof {
                let pre = moves@.subrange(0, k as int + 1);
                assert(pre.drop_last() =~= moves@.subrange(0, k as int));
                reveal(Seq::filter);
            }
            if !new_board.is_king_in_check(current_player) {
                valid_moves.push(m);
            }
            k += 1;
        }
        assert(moves@.subrange(0, moves@.len() as int) =~= moves@);
        valid_moves
    }

    /// The player to move after the last move: the same one after a
    /// super-effective hit, the other one otherwise.
    pub fn other_player_considering_board(&mut self) -> (r: Player)
        ensures
            r == (if crate::chess_history::super_effective_square(old(self).chessboard.history) is Some {
                old(self).player
            } else {
                opponent(old(self).player)
            }),
            *final(self) == *old(self),
    {
        self.player.other_player_considering_board(&self.chessboard)
    }

    /// Completes a pending promotion with the kind named by `piece_str`, and
    /// hands the turn on as after any move; an error, with nothing changed,
    /// if no promotion is pending or the board refuses it.
    pub fn select_pawn_promotion_piece(&mut self, piece_str: String) -> (r: Result<(), String>)
        ensures
            match promotion_error_of(*old(self), piece_str@) {
                Some(msg) => r is Err && r->Err_0@ == msg && *final(self) == *old(self),
                None => r is Ok && promotion_step(*old(self), *final(self), piece_str@),
            },
    {
        if !self.require_piece_selection {
            return Err("No promotion pending".to_owned());
        }
        let player = self.player;
        let result = self.chessboard.select_pawn_promotion_piece(piece_str, player);
        match result {
            Err(e) => {
                return Err(e);
            },
            Ok(()) => {},
        }
        let mut next = player.other_player();
        if let Some(last) = self.chessboard.history.last_move() {
            if last.type_interaction == Some(InteractionType::SuperEffective) {
                let moves = self.chessboard.possible_moves_for_piece(last.to_row, last.to_col, player);
                if moves.len() > 0 {
                    next = player;
                }
            }
        }
        self.player = next;
        self.require_piece_selection = false;
        self.winner = self.chessboard.get_winner(next);
        Ok(())
    }
}

} // verus!
