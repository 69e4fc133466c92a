use vstd::prelude::*;

use crate::chess_state::{move_accepted, promotion_error_of, promotion_step, state_after_move};
use crate::chess_state_history::{current_state, state_added, ChessStateHistory};
use crate::chess_structs::ChessState;
use crate::settings::Settings;

verus! {

/// A named game: its settings and the states it went through.
#[derive(Debug, Clone, PartialEq)]
pub struct Game {
    pub name: String,
    pub settings: Settings,
    pub chess_state_history: ChessStateHistory,
}

impl Game {
    pub fn new(name: String, settings: Settings, chess_state_history: ChessStateHistory) -> (r: Self)
        ensures
            r.name == name,
            r.settings == settings,
            r.chess_state_history == chess_state_history,
    {
        Game { name, settings, chess_state_history }
    }

    pub fn get_current_state(&self) -> (r: Option<ChessState>)
        ensures
            r == current_state(self.chess_state_history),
    {
        self.chess_state_history.get_current_state()
    }

    /// Plays the move on the current state and records the result; false,
    /// with nothing changed, if there is no current state, its move counter
    /// is exhausted, or it refuses the move.
    pub fn move_piece(&mut self, from_row: usize, from_col: usize, to_row: usize, to_col: usize) -> (r: bool)
        ensures
            match current_state(old(self).chess_state_history) {
                Some(s) => {
                    if s.turn_count < usize::MAX && move_accepted(
                        s,
                        from_row as int,
                        from_col as int,
                        to_row as int,
                        to_col as int,
                    ) {
                        &&& r
                        &&& state_added(
                            old(self).chess_state_history,
                            final(self).chess_state_history,
                            state_after_move(s, from_row as int, from_col as int, to_row as int, to_col as int),
                        )
                        &&& final(self).name == old(self).name
                        &&& final(self).settings == old(self).settings
                    } else {
                        !r && *final(self) == *old(self)
                    }
                },
                None => !r && *final(self) == *old(self),
            },
    {
        let mut chess_state = match self.get_current_state() {
            Some(s) => s,
            None => {
                return false;
            },
        };
        if chess_state.turn_count == usize::MAX {
            return false;
        }
        let change_made = chess_state.move_piece(from_row, from_col, to_row, to_col);
        if change_made {
            self.chess_state_history.add_state(chess_state);
            return true;
        }
        false
    }

    /// Completes the pending promotion on the current state and records the
    /// result; an error, with nothing changed, if there is no current state
    /// or it refuses the promotion.
    pub fn select_pawn_promotion_piece(&mut self, piece_str: String) -> (r: Result<(), String>)
        ensures
            match current_state(old(self).chess_state_history) {
                Some(s) => match promotion_error_of(s, piece_str@) {
                    Some(msg) => r is Err && r->Err_0@ == msg && *final(self) == *old(self),
                    None => {
                        &&& r is Ok
                        &&& current_state(final(self).chess_state_history) matches Some(ns)
                        &&& promotion_step(s, ns, piece_str@)
                        &&& state_added(old(self).chess_state_history, final(self).chess_state_history, ns)
                        &&& final(self).name == old(self).name
                        &&& final(self).settings == old(self).settings
                    },
                },
                None => r is Err && r->Err_0@ == "No game state"@ && *final(self) == *old(self),
            },
    {
        let mut chess_state = match self.get_current_state() {
            Some(s) => s,
            None => {
                return Err("No game state".to_owned());
            },
        };
        let result = chess_state.select_pawn_promotion_piece(piece_str);
        match result {
            Err(e) => Err(e),
            Ok(()) => {
                self.chess_state_history.add_state(chess_state);
                Ok(())
            },
        }
    }

    pub fn get_previous_state(&mut self) -> (r: Option<ChessState>)
        ensures
            ({
                let i = old(self).chess_state_history.current_state_index;
                let states = old(self).chess_state_history.state_history@;
                if 0 < i && i - 1 < states.len() {
                    &&& r == Some(states[i - 1])
                    &&& final(self).chess_state_history.current_state_index == i - 1
                    &&& final(self).chess_state_history.state_history == old(self).chess_state_history.state_history
                    &&& final(self).name == old(self).name
                    &&& final(self).settings == old(self).settings
                } else {
                    r is None && *final(self) == *old(self)
                }
            }),
    {
        self.chess_state_history.get_previous_state()
    }

    pub fn get_next_state(&mut self) -> (r: Option<ChessState>)
        ensures
            ({
                let i = old(self).chess_state_history.current_state_index;
                let states = old(self).chess_state_history.state_history@;
                if i + 1 < states.len() {
                    &&& r == Some(states[i + 1])
                    &&& final(self).chess_state_history.current_state_index == i + 1
                    &&& final(self).chess_state_history.state_history == old(self).chess_state_history.state_history
                    &&& final(self).name == old(self).name
                    &&& final(self).settings == old(self).settings
                } else {
                    r is None && *final(self) == *old(self)
                }
            }),
    {
        self.chess_state_history.get_next_state()
    }
}

} // verus!
