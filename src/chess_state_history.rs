use vstd::prelude::*;

use crate::chess_structs::ChessState;

verus! {

/// The states of a game in order, with a cursor on the one shown.
#[derive(Debug, Clone, PartialEq)]
pub struct ChessStateHistory {
    pub state_history: Vec<ChessState>,
    pub current_state_index: usize,
}

/// The state under the cursor, if the cursor is on one.
pub open spec fn current_state(h: ChessStateHistory) -> Option<ChessState> {
    if h.current_state_index < h.state_history@.len() {
        Some(h.state_history@[h.current_state_index as int])
    } else {
        None
    }
}

/// The states up to the cursor, those after it dropped.
pub open spec fn states_up_to_cursor(h: ChessStateHistory) -> Seq<ChessState> {
    let keep = if h.current_state_index < h.state_history@.len() {
        h.current_state_index + 1
    } else {
        h.state_history@.len() as int
    };
    h.state_history@.subrange(0, keep)
}

/// `nh` is `h` with `state` recorded after the cursor, the states that
/// followed it dropped, and the cursor on `state`.
pub open spec fn state_added(h: ChessStateHistory, nh: ChessStateHistory, state: ChessState) -> bool {
    &&& nh.state_history@ == states_up_to_cursor(h).push(state)
    &&& nh.current_state_index == nh.state_history@.len() - 1
}

impl ChessStateHistory {
    pub fn new() -> (r: Self)
        ensures
            r.state_history@.len() == 0,
            r.current_state_index == 0,
    {
        ChessStateHistory { state_history: Vec::new(), current_state_index: 0 }
    }

    pub fn new_with_initial_state(state: ChessState) -> (r: Self)
        ensures
            r.state_history@ == seq![state],
            r.current_state_index == 0,
    {
        ChessStateHistory { state_history: vec![state], current_state_index: 0 }
    }

    pub fn get_current_state(&self) -> (r: Option<ChessState>)
        ensures
            r == current_state(*self),
    {
        let current_state_index: usize = self.current_state_index;
        if current_state_index < self.state_history.len() {
            return Some(self.state_history[current_state_index]);
        }
        None
    }

    /// Records `state` after the current one, dropping the states that
    /// followed it, and moves the cursor onto it.
    pub fn add_state(&mut self, state: ChessState) -> (r: &ChessStateHistory)
        ensures
            state_added(*old(self), *final(self), state),
            *r == *final(self),
    {
        let keep = if self.current_state_index < self.state_history.len() {
            self.current_state_index + 1
        } else {
            self.state_history.len()
        };
        self.state_history.truncate(keep);
        self.state_history.push(state);
        self.current_state_index = self.state_history.len() - 1;
        self
    }

    /// Moves the cursor one state back and returns that state; None, with
    /// nothing changed, if the cursor is on the first state or off the list.
    pub fn get_previous_state(&mut self) -> (r: Option<ChessState>)
        ensures
            ({
                let i = old(self).current_state_index;
                if 0 < i && i - 1 < old(self).state_history@.len() {
                    &&& r == Some(old(self).state_history@[i - 1])
                    &&& final(self).current_state_index == i - 1
                    &&& final(self).state_history == old(self).state_history
                } else {
                    r is None && *final(self) == *old(self)
                }
            }),
    {
        let current_state_index: usize = self.current_state_index;
        if current_state_index > 0 && current_state_index - 1 < self.state_history.len() {
            self.current_state_index = current_state_index - 1;
            return Some(self.state_history[current_state_index - 1]);
        }
        None
    }

    /// Moves the cursor one state forward and returns that state; None, with
    /// nothing changed, if the cursor is on the last state.
    pub fn get_next_state(&mut self) -> (r: Option<ChessState>)
        ensures
            ({
                let i = old(self).current_state_index;
                if i + 1 < old(self).state_history@.len() {
                    &&& r == Some(old(self).state_history@[i + 1])
                    &&& final(self).current_state_index == i + 1
                    &&& final(self).state_history == old(self).state_history
                } else {
                    r is None && *final(self) == *old(self)
                }
            }),
    {
        let current_state_index: usize = self.current_state_index;
        let len = self.state_history.len();
        if len > 0 && current_state_index < len - 1 {
            self.current_state_index = current_state_index + 1;
            return Some(self.state_history[current_state_index + 1]);
        }
        None
    }
}

} // verus!
