use pokemon_chess::chess_state_history::ChessStateHistory;
use pokemon_chess::chess_structs::{ChessBoard, ChessPieceType, ChessState, Player};

#[test]
fn test_history_castling_success() {
    // move white pieces out of the way so the king can castle king-side
    let mut board = ChessBoard::new_normal_type_only();
    // Move pawn so the bishop can move
    board = board.move_piece(1, 4, 3, 4, Player::White);
    // move the bishop out of the way
    board = board.move_piece(0, 5, 1, 4, Player::White);
    // move the knight out of the way
    board = board.move_piece(0, 6, 2, 5, Player::White);
    // castle the king
    board = board.move_piece(0, 4, 0, 6, Player::White);
    assert!(board.get_piece(0, 6).piece_type == ChessPieceType::WhiteKing);
    assert!(board.get_piece(0, 5).piece_type == ChessPieceType::WhiteRook);
}

#[test]
fn test_history_castling_unsucessful_rook_moved() {
    let mut board = ChessBoard::new_normal_type_only();
    board = board.move_piece(1, 4, 3, 4, Player::White);
    board = board.move_piece(0, 5, 1, 4, Player::White);
    board = board.move_piece(0, 6, 2, 5, Player::White);
    // move the rook next to the king and then back
    board = board.move_piece(0, 7, 0, 5, Player::White);
    board = board.move_piece(0, 5, 0, 7, Player::White);
    // Try to castle the king
    board = board.move_piece(0, 4, 0, 6, Player::White);
    assert!(board.get_piece(0, 4).piece_type == ChessPieceType::WhiteKing);
}

#[test]
fn test_castling_would_be_in_check_during_swap() {
    let mut board = ChessBoard::new_normal_type_only();
    board = board.move_piece(1, 4, 3, 4, Player::White);
    // just take the white bishop away
    board = board.move_piece(0, 5, 5, 0, Player::White);
    board = board.move_piece(0, 6, 2, 5, Player::White);
    // move black pawn out of black bishops way
    board = board.move_piece(6, 1, 5, 1, Player::Black);
    // bring the black bishop onto the diagonal through f1
    board = board.move_piece(7, 2, 5, 0, Player::Black);
    // try to castle but it should not happen because it's invalid
    board = board.move_piece(0, 4, 0, 6, Player::White);
    assert!(board.get_piece(0, 4).piece_type == ChessPieceType::WhiteKing);
}

#[test]
fn test_valid_en_passant() {
    let mut board = ChessBoard::new_normal_type_only();
    board = board.move_piece(1, 4, 3, 4, Player::White);
    board = board.move_piece(3, 4, 4, 4, Player::White);
    // Move black pawn two squares forward, enabling en passant
    board = board.move_piece(6, 3, 4, 3, Player::Black);
    // take en passant and make sure the black pawn is gone
    board = board.move_piece(4, 4, 5, 3, Player::White);
    assert!(board.get_piece(4, 3).piece_type == ChessPieceType::Empty);
}

#[test]
fn test_invalid_en_passant_with_piece_to_left() {
    let mut board = ChessBoard::new_normal_type_only();
    board = board.move_piece(1, 4, 3, 4, Player::White);
    board = board.move_piece(3, 4, 4, 4, Player::White);
    // Move black pawn one square forward (not enabling en passant)
    board = board.move_piece(6, 3, 5, 3, Player::Black);
    // Move a black piece to the left of the white pawn
    board = board.move_piece(7, 0, 4, 3, Player::Black);
    // Capture diagonally with the white pawn
    board = board.move_piece(4, 4, 5, 3, Player::White);
    board = board.move_piece(5, 3, 6, 2, Player::White);
    board = board.move_piece(6, 2, 7, 1, Player::White);
    assert!(matches!(board.get_piece(6, 1).piece_type, ChessPieceType::BlackPawn));
}

#[test]
fn test_get_valid_moves() {
    let chess_state = ChessState::new();
    let valid_moves = chess_state.get_valid_moves(1, 0);
    assert!(valid_moves.len() == 2);
    assert!(valid_moves[0].to_row == 2);
    assert!(valid_moves[0].to_col == 0);
    assert!(valid_moves[1].to_row == 3);
    assert!(valid_moves[1].to_col == 0);
}

#[test]
fn test_get_previous_state_no_states() {
    let mut chess_state_history = ChessStateHistory::new();
    assert_eq!(chess_state_history.get_previous_state(), None);
}

#[test]
fn test_get_next_state_no_states() {
    let mut chess_state_history = ChessStateHistory::new();
    assert_eq!(chess_state_history.get_next_state(), None);
}

#[test]
fn test_get_previous_state() {
    let mut chess_state_history = ChessStateHistory::new();
    let mut chess_state = ChessState::new();
    chess_state_history.add_state(chess_state.clone());
    // move pawns
    chess_state.move_piece(1, 0, 3, 0);
    chess_state_history.add_state(chess_state.clone());
    chess_state.move_piece(6, 0, 4, 0);
    chess_state_history.add_state(chess_state.clone());
    // assert that a move was made
    assert_eq!(chess_state.turn_count, 2);
    // now move back one turn
    println!("{}", chess_state.chessboard.display_board_str());
    chess_state = chess_state_history.get_previous_state().unwrap();
    println!("{}", chess_state.chessboard.display_board_str());
    assert_eq!(chess_state.turn_count, 1);
}
