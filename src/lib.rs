//! Rules engine for a chess variant in which every piece carries an elemental
//! affinity, and captures are resolved through a type-effectiveness table.

pub mod chess_structs;
pub mod game;
pub mod chess;
pub mod chess_history;
pub mod chess_state;
pub mod chess_state_history;
pub mod messages;
pub mod moves;
pub mod pieces;
pub mod pokemon_types;
pub mod requests;
pub mod settings;
