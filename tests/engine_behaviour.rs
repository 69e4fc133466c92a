use pokemon_chess::chess_state_history::ChessStateHistory;
use pokemon_chess::chess_structs::{
    ChessBoard, ChessHistory, ChessPieceType, ChessState, InfoMessage, InteractionType, Move,
    Piece, Player, PokemonType, Winner,
};
use pokemon_chess::game::Game;
use pokemon_chess::settings::Settings;

fn empty() -> Piece {
    Piece::empty()
}

fn piece(piece_type: ChessPieceType, pokemon_type: PokemonType) -> Piece {
    Piece { piece_type, pokemon_type }
}

fn state_with(board: ChessBoard) -> ChessState {
    ChessState {
        chessboard: board,
        player: Player::White,
        winner: Winner::NoneYet,
        info_message: None,
        require_piece_selection: false,
        turn_count: 0,
    }
}

fn bare_board() -> ChessBoard {
    let mut board = ChessBoard::new_normal_type_only();
    for r in 0..8 {
        for c in 0..8 {
            board.board[r][c] = empty();
        }
    }
    board
}

#[test]
fn matchup_table_is_asymmetric() {
    assert_eq!(
        PokemonType::type_matchup(PokemonType::Fire, PokemonType::Grass),
        InteractionType::SuperEffective
    );
    assert_eq!(
        PokemonType::type_matchup(PokemonType::Grass, PokemonType::Fire),
        InteractionType::NotVeryEffective
    );
    assert_eq!(
        PokemonType::type_matchup(PokemonType::Normal, PokemonType::GhostType),
        InteractionType::NoEffect
    );
    assert_eq!(
        PokemonType::type_matchup(PokemonType::Electric, PokemonType::Ground),
        InteractionType::NoEffect
    );
    assert_eq!(
        PokemonType::type_matchup(PokemonType::Water, PokemonType::Normal),
        InteractionType::Normal
    );
}

#[test]
fn matchup_against_neutral_is_normal() {
    let chart = PokemonType::get_type_chart();
    for a in 0..19 {
        assert_eq!(chart[a][18], InteractionType::Normal);
    }
    assert_eq!(chart[1][4], InteractionType::SuperEffective);
    assert_eq!(chart[4][1], InteractionType::NotVeryEffective);
    assert_eq!(chart[0][13], InteractionType::NoEffect);
}

#[test]
fn random_affinity_is_a_real_one() {
    for _ in 0..50 {
        assert_ne!(PokemonType::random(), PokemonType::NoType);
    }
}

#[test]
fn new_board_has_distinct_real_affinities_per_side() {
    let board = ChessBoard::new();
    let mut white = Vec::new();
    let mut black = Vec::new();
    for r in 0..8 {
        for c in 0..8 {
            let p = board.get_piece(r, c);
            if p.piece_type == ChessPieceType::Empty {
                assert_eq!(p.pokemon_type, PokemonType::NoType);
            } else {
                assert_ne!(p.pokemon_type, PokemonType::NoType);
                if p.piece_type.is_white() {
                    assert!(!white.contains(&p.pokemon_type));
                    white.push(p.pokemon_type);
                } else {
                    assert!(!black.contains(&p.pokemon_type));
                    black.push(p.pokemon_type);
                }
            }
        }
    }
    assert_eq!(white.len(), 16);
    assert_eq!(black.len(), 16);
    assert_eq!(board.get_piece(0, 4).piece_type, ChessPieceType::WhiteKing);
    assert_eq!(board.get_piece(7, 3).piece_type, ChessPieceType::BlackQueen);
}

#[test]
fn every_square_holds_a_piece_value() {
    let board = ChessBoard::new_normal_type_only();
    let mut count = 0;
    for r in 0..8 {
        for c in 0..8 {
            let _ = board.get_piece(r, c);
            count += 1;
        }
    }
    assert_eq!(count, 64);
    assert_eq!(board.board.len(), 8);
    assert!(board.board.iter().all(|row| row.len() == 8));
}

#[test]
fn possible_moves_repeat_identically() {
    let board = ChessBoard::new_normal_type_only();
    let first = board.possible_moves_for_piece(0, 6, Player::White);
    let second = board.possible_moves_for_piece(0, 6, Player::White);
    assert_eq!(first, second);
    assert_eq!(first.len(), 2);
    assert_eq!((first[0].to_row, first[0].to_col), (2, 7));
    assert_eq!((first[1].to_row, first[1].to_col), (2, 5));
}

#[test]
fn possible_moves_of_the_other_side_are_empty() {
    let board = ChessBoard::new_normal_type_only();
    assert!(board.possible_moves_for_piece(1, 0, Player::Black).is_empty());
    assert!(board.possible_moves_for_piece(3, 3, Player::White).is_empty());
}

#[test]
fn valid_moves_never_expose_own_king() {
    // a white rook pinned against its king by a black rook on the same file
    let mut board = bare_board();
    board.board[0][4] = piece(ChessPieceType::WhiteKing, PokemonType::Normal);
    board.board[1][4] = piece(ChessPieceType::WhiteRook, PokemonType::Normal);
    board.board[7][4] = piece(ChessPieceType::BlackRook, PokemonType::Normal);
    board.board[7][0] = piece(ChessPieceType::BlackKing, PokemonType::Normal);
    let state = state_with(board);
    let pseudo = state.chessboard.possible_moves_for_piece(1, 4, Player::White);
    let valid = state.get_valid_moves(1, 4);
    assert!(pseudo.len() > valid.len());
    for m in &valid {
        assert_eq!(m.to_col, 4);
        let after = state.chessboard.move_piece(m.from_row, m.from_col, m.to_row, m.to_col, Player::White);
        assert!(!after.is_king_in_check(Player::White));
    }
    assert_eq!(valid.len(), 6);
}

#[test]
fn castling_queenside_moves_rook_to_d1() {
    let mut board = ChessBoard::new_normal_type_only();
    board.board[0][1] = empty();
    board.board[0][2] = empty();
    board.board[0][3] = empty();
    board = board.move_piece(0, 4, 0, 2, Player::White);
    assert_eq!(board.get_piece(0, 2).piece_type, ChessPieceType::WhiteKing);
    assert_eq!(board.get_piece(0, 3).piece_type, ChessPieceType::WhiteRook);
    assert_eq!(board.get_piece(0, 0).piece_type, ChessPieceType::Empty);
    assert!(board.history.has_white_king_moved);
}

#[test]
fn en_passant_not_offered_after_distant_double_step() {
    let mut board = ChessBoard::new_normal_type_only();
    board = board.move_piece(1, 4, 3, 4, Player::White);
    board = board.move_piece(3, 4, 4, 4, Player::White);
    // a black pawn two files away advances two squares
    board = board.move_piece(6, 1, 4, 1, Player::Black);
    let moves = board.possible_moves_for_piece(4, 4, Player::White);
    assert!(moves.iter().all(|m| m.capture.is_none()));
    assert_eq!(moves.len(), 1);
}

#[test]
fn en_passant_not_offered_after_single_step() {
    let mut board = ChessBoard::new_normal_type_only();
    board = board.move_piece(1, 4, 3, 4, Player::White);
    board = board.move_piece(3, 4, 4, 4, Player::White);
    board = board.move_piece(6, 3, 5, 3, Player::Black);
    board = board.move_piece(5, 3, 4, 3, Player::Black);
    let moves = board.possible_moves_for_piece(4, 4, Player::White);
    assert!(moves.iter().all(|m| !(m.to_row == 5 && m.to_col == 3)));
}

#[test]
fn en_passant_move_records_captured_square() {
    let mut board = ChessBoard::new_normal_type_only();
    board = board.move_piece(1, 4, 3, 4, Player::White);
    board = board.move_piece(3, 4, 4, 4, Player::White);
    board = board.move_piece(6, 5, 4, 5, Player::Black);
    let moves = board.possible_moves_for_piece(4, 4, Player::White);
    let ep = moves.iter().find(|m| m.to_row == 5 && m.to_col == 5).unwrap();
    let capture = ep.capture.unwrap();
    assert_eq!((capture.row, capture.col), (4, 5));
    assert_eq!(capture.piece.piece_type, ChessPieceType::BlackPawn);
    board = board.move_piece(4, 4, 5, 5, Player::White);
    assert_eq!(board.get_piece(4, 5).piece_type, ChessPieceType::Empty);
    assert_eq!(board.get_piece(5, 5).piece_type, ChessPieceType::WhitePawn);
}

#[test]
fn super_effective_hit_grants_bonus_move_to_that_piece() {
    let mut board = ChessBoard::new_normal_type_only();
    board.board[0][1] = piece(ChessPieceType::WhiteKnight, PokemonType::Fire);
    board.board[2][2] = piece(ChessPieceType::BlackPawn, PokemonType::Grass);
    let mut state = state_with(board);
    let offered = state.get_valid_moves(0, 1);
    let hit = offered.iter().find(|m| m.to_row == 2 && m.to_col == 2).unwrap();
    assert_eq!(hit.type_interaction, Some(InteractionType::SuperEffective));
    assert!(state.move_piece(0, 1, 2, 2));
    assert_eq!(state.chessboard.get_piece(2, 2).piece_type, ChessPieceType::WhiteKnight);
    assert_eq!(state.player, Player::White);
    assert_eq!(state.info_message, Some(InfoMessage::SuperEffective));
    // only the knight that hit may move
    assert!(state.get_valid_moves(1, 0).is_empty());
    assert!(!state.move_piece(1, 0, 2, 0));
    assert!(!state.get_valid_moves(2, 2).is_empty());
    assert!(state.move_piece(2, 2, 4, 3));
    assert_eq!(state.player, Player::Black);
    assert_eq!(state.turn_count, 2);
}

#[test]
fn super_effective_hit_without_follow_up_passes_turn() {
    let mut board = ChessBoard::new_normal_type_only();
    board.board[1][0] = empty();
    board.board[4][0] = piece(ChessPieceType::WhitePawn, PokemonType::Fire);
    board.board[5][1] = piece(ChessPieceType::BlackPawn, PokemonType::Grass);
    board.board[6][0] = empty();
    board.board[6][2] = empty();
    let mut state = state_with(board);
    assert!(state.move_piece(4, 0, 5, 1));
    assert_eq!(state.player, Player::Black);
    assert_eq!(state.info_message, Some(InfoMessage::SuperEffectiveNoMovesAvailable));
    // Black is not held to the square of the piece that hit
    assert!(state.move_piece(6, 7, 5, 7));
    assert_eq!(state.player, Player::White);
}

#[test]
fn not_very_effective_destroys_both_pieces() {
    let mut board = ChessBoard::new_normal_type_only();
    board.board[0][1] = piece(ChessPieceType::WhiteKnight, PokemonType::Fire);
    board.board[2][2] = piece(ChessPieceType::BlackPawn, PokemonType::Water);
    let mut state = state_with(board);
    assert!(state.move_piece(0, 1, 2, 2));
    assert_eq!(state.chessboard.get_piece(0, 1), Piece::empty());
    assert_eq!(state.chessboard.get_piece(2, 2), Piece::empty());
    assert_eq!(state.info_message, Some(InfoMessage::NotVeryEffective));
    assert_eq!(state.player, Player::Black);
}

#[test]
fn no_effect_changes_no_square() {
    let mut board = ChessBoard::new_normal_type_only();
    board.board[2][2] = piece(ChessPieceType::BlackPawn, PokemonType::GhostType);
    let before = board;
    let mut state = state_with(board);
    assert!(state.move_piece(0, 1, 2, 2));
    assert_eq!(state.chessboard.board, before.board);
    let last = state.chessboard.history.last_move().unwrap();
    assert_eq!(last.type_interaction, Some(InteractionType::NoEffect));
    assert_eq!(state.info_message, Some(InfoMessage::NoEffect));
    assert_eq!(state.player, Player::Black);
}

#[test]
fn promotion_gate_blocks_moves_until_chosen() {
    let mut board = ChessBoard::new_normal_type_only();
    board.board[7][0] = empty();
    board.board[6][0] = piece(ChessPieceType::WhitePawn, PokemonType::Water);
    let mut state = state_with(board);
    assert_eq!(
        state.select_pawn_promotion_piece("Queen".to_string()),
        Err("No promotion pending".to_string())
    );
    assert!(state.move_piece(6, 0, 7, 0));
    assert!(state.require_piece_selection);
    assert_eq!(state.player, Player::White);
    assert!(!state.move_piece(1, 1, 2, 1));
    assert_eq!(
        state.select_pawn_promotion_piece("Dragon".to_string()),
        Err("Invalid promotion choice".to_string())
    );
    assert_eq!(
        state.select_pawn_promotion_piece("King".to_string()),
        Err("Invalid promotion choice".to_string())
    );
    assert!(state.require_piece_selection);
    assert_eq!(state.select_pawn_promotion_piece("Queen".to_string()), Ok(()));
    let promoted = state.chessboard.get_piece(7, 0);
    assert_eq!(promoted.piece_type, ChessPieceType::WhiteQueen);
    assert_eq!(promoted.pokemon_type, PokemonType::Water);
    assert!(!state.require_piece_selection);
    assert_eq!(state.player, Player::Black);
}

#[test]
fn board_promotion_without_a_move_fails() {
    let mut board = ChessBoard::new_normal_type_only();
    assert_eq!(
        board.select_pawn_promotion_piece("Rook".to_string(), Player::White),
        Err("No last move".to_string())
    );
}

#[test]
fn board_promotion_after_off_board_move_fails() {
    let mut board = ChessBoard::new_normal_type_only();
    board.history.last_move = Some(Move {
        piece_type: ChessPieceType::WhitePawn,
        from_row: 6,
        from_col: 0,
        to_row: 9,
        to_col: 0,
        type_interaction: None,
        capture: None,
        castle: None,
    });
    let before = board;
    assert_eq!(
        board.select_pawn_promotion_piece("Rook".to_string(), Player::White),
        Err("Last move is off the board".to_string())
    );
    assert_eq!(board, before);
}

#[test]
fn promotion_names_map_to_kinds() {
    assert_eq!(
        ChessPieceType::select_piece_from_string_and_player("Knight", Player::Black),
        ChessPieceType::BlackKnight
    );
    assert_eq!(
        ChessPieceType::select_piece_from_string_and_player("Queen", Player::White),
        ChessPieceType::WhiteQueen
    );
    assert_eq!(
        ChessPieceType::select_piece_from_string_and_player("queen", Player::White),
        ChessPieceType::Empty
    );
}

#[test]
fn winner_when_kings_are_missing() {
    let mut board = ChessBoard::new_normal_type_only();
    assert_eq!(board.get_winner(Player::White), Winner::NoneYet);
    board.board[7][4] = empty();
    assert_eq!(board.get_winner(Player::White), Winner::White);
    assert_eq!(board.get_winner(Player::Black), Winner::White);
    board.board[0][4] = empty();
    assert_eq!(board.get_winner(Player::Black), Winner::Tie);
}

#[test]
fn winner_when_king_is_trapped_and_threatened() {
    let mut board = bare_board();
    board.board[0][0] = piece(ChessPieceType::WhiteKing, PokemonType::Normal);
    board.board[0][1] = piece(ChessPieceType::WhiteBishop, PokemonType::Normal);
    board.board[1][0] = piece(ChessPieceType::WhitePawn, PokemonType::Normal);
    board.board[1][1] = piece(ChessPieceType::WhitePawn, PokemonType::Normal);
    board.board[7][7] = piece(ChessPieceType::BlackKing, PokemonType::Normal);
    assert!(!board.is_king_in_check(Player::White));
    assert_eq!(board.get_winner(Player::White), Winner::NoneYet);
    // a knight threatens the boxed-in king
    board.board[2][1] = piece(ChessPieceType::BlackKnight, PokemonType::Normal);
    assert!(board.is_king_in_check(Player::White));
    assert!(board.location_under_attack(0, 0, Player::White));
    assert_eq!(board.get_winner(Player::White), Winner::Black);
    assert_eq!(board.get_winner(Player::Black), Winner::NoneYet);
    // with a free square next to it the king still has a move
    board.board[0][1] = empty();
    assert!(board.is_king_in_check(Player::White));
    assert_eq!(board.get_winner(Player::White), Winner::NoneYet);
}

#[test]
fn state_refuses_moves_once_decided_or_off_board() {
    let mut board = ChessBoard::new_normal_type_only();
    board.board[7][4] = empty();
    let mut state = state_with(board);
    state.winner = Winner::White;
    assert!(!state.move_piece(1, 0, 2, 0));
    assert!(state.get_valid_moves(1, 0).is_empty());
    let mut fresh = ChessState::new();
    assert!(!fresh.move_piece(8, 0, 2, 0));
    assert!(!fresh.move_piece(1, 0, 5, 0));
    assert!(fresh.get_valid_moves(9, 9).is_empty());
    assert_eq!(fresh.turn_count, 0);
}

#[test]
fn other_player_considering_board_follows_last_hit() {
    let mut state = ChessState::new();
    assert_eq!(state.other_player_considering_board(), Player::Black);
    let mut history = ChessHistory::new();
    history.add_move(Move {
        piece_type: ChessPieceType::WhiteKnight,
        from_row: 0,
        from_col: 1,
        to_row: 2,
        to_col: 2,
        type_interaction: Some(InteractionType::SuperEffective),
        capture: None,
        castle: None,
    });
    state.chessboard.history = history;
    assert_eq!(state.other_player_considering_board(), Player::White);
    assert_eq!(Player::Black.other_player(), Player::White);
    assert_eq!(Winner::from_player(Player::Black), Winner::Black);
}

#[test]
fn history_tracks_castling_rights_and_en_passant() {
    let mut history = ChessHistory::new();
    assert!(history.can_castle_kingside(true));
    assert!(history.can_castle_queenside(false));
    history.add_move(Move {
        piece_type: ChessPieceType::BlackRook,
        from_row: 7,
        from_col: 0,
        to_row: 5,
        to_col: 0,
        type_interaction: Some(InteractionType::Normal),
        capture: None,
        castle: None,
    });
    assert!(!history.can_castle_queenside(false));
    assert!(history.can_castle_kingside(false));
    assert_eq!(history.last_move_enables_en_passant(), None);
    history.add_move(Move {
        piece_type: ChessPieceType::WhitePawn,
        from_row: 1,
        from_col: 3,
        to_row: 3,
        to_col: 3,
        type_interaction: Some(InteractionType::Normal),
        capture: None,
        castle: None,
    });
    assert_eq!(history.last_move_enables_en_passant(), Some((3, 3)));
    assert_eq!(history.last_move_super_effective(), None);
    assert!(!history.last_move_requires_pawn_promotion());
}

#[test]
fn info_messages_follow_outcome() {
    assert_eq!(
        InfoMessage::get_message_from_interaction_type(InteractionType::SuperEffective, false),
        Some(InfoMessage::SuperEffectiveNoMovesAvailable)
    );
    assert_eq!(
        InfoMessage::get_message_from_interaction_type(InteractionType::Normal, true),
        None
    );
    assert_eq!(
        InfoMessage::get_message_from_interaction_type(InteractionType::NoEffect, true),
        Some(InfoMessage::NoEffect)
    );
}

#[test]
fn en_passant_constructor_targets_enemy_pawn() {
    let m = Move::new_en_passant(4, 4, 5, 3, 4, 3, ChessPieceType::WhitePawn);
    let capture = m.capture.unwrap();
    assert_eq!((capture.row, capture.col), (4, 3));
    assert_eq!(capture.piece.piece_type, ChessPieceType::BlackPawn);
    assert_eq!(m.type_interaction, None);
    assert!(m.castle.is_none());
}

#[test]
fn board_text_shows_black_on_top() {
    let board = ChessBoard::new_normal_type_only();
    let text = board.display_board_str();
    let lines: Vec<&str> = text.split('\n').collect();
    let dashes = "-".repeat(79);
    assert_eq!(lines[0], dashes);
    assert_eq!(
        lines[1],
        "|BR Norm| |BN Norm| |BB Norm| |BQ Norm| |BK Norm| |BB Norm| |BN Norm| |BR Norm| "
    );
    assert_eq!(lines[2], dashes);
    assert_eq!(lines[5], "|       | ".repeat(8));
    assert_eq!(
        lines[15],
        "|WR Norm| |WN Norm| |WB Norm| |WQ Norm| |WK Norm| |WB Norm| |WN Norm| |WR Norm| "
    );
    assert!(text.ends_with("\n\n"));
    assert_eq!(lines.len(), 19);
}

#[test]
fn state_history_undo_redo_and_truncation() {
    let mut history = ChessStateHistory::new();
    assert_eq!(history.get_current_state(), None);
    let mut state = ChessState::new();
    history.add_state(state);
    assert!(state.move_piece(1, 0, 2, 0));
    history.add_state(state);
    assert_eq!(history.get_next_state(), None);
    assert_eq!(history.get_previous_state().unwrap().turn_count, 0);
    assert_eq!(history.get_next_state().unwrap().turn_count, 1);
    history.get_previous_state();
    let mut other = history.get_current_state().unwrap();
    assert!(other.move_piece(1, 7, 3, 7));
    history.add_state(other);
    assert_eq!(history.state_history.len(), 2);
    assert_eq!(history.current_state_index, 1);
    assert_eq!(history.get_current_state().unwrap().chessboard.get_piece(3, 7).piece_type, ChessPieceType::WhitePawn);
}

#[test]
fn game_records_moves_and_promotions() {
    let state = ChessState::new();
    let mut game = Game::new(
        "fire_water".to_string(),
        Settings::default(),
        ChessStateHistory::new_with_initial_state(state),
    );
    assert!(game.move_piece(1, 4, 3, 4));
    assert!(!game.move_piece(1, 4, 3, 4));
    assert_eq!(game.chess_state_history.state_history.len(), 2);
    assert_eq!(game.get_current_state().unwrap().player, Player::Black);
    assert_eq!(
        game.select_pawn_promotion_piece("Queen".to_string()),
        Err("No promotion pending".to_string())
    );
    assert_eq!(game.get_previous_state().unwrap().turn_count, 0);
    assert_eq!(game.get_next_state().unwrap().turn_count, 1);
    let mut empty_game = Game::new(String::new(), Settings::new(true, false, true), ChessStateHistory::new());
    assert!(!empty_game.move_piece(1, 0, 2, 0));
    assert_eq!(
        empty_game.select_pawn_promotion_piece("Queen".to_string()),
        Err("No game state".to_string())
    );
    assert!(empty_game.settings.local_play && empty_game.settings.misses);
}
