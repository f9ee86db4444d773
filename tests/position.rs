use chess_analyzer::board::move_to_uci;
use chess_analyzer::review::convert_san_to_uci;
use chess_analyzer::{analyze_position, starting_position, ChessMove, Color, Role};

#[test]
fn test_starting_position() {
    let pos = starting_position();
    let info = analyze_position(&pos);

    // Starting position should have 32 pieces
    assert_eq!(info.piece_count, 32);

    // White moves first
    assert_eq!(info.side_to_move, Color::White);

    // White has 20 legal moves at start
    assert_eq!(info.legal_move_count, 20);

    // Not in check at start
    assert!(!info.is_check);
    assert!(!info.is_checkmate);
    assert!(!info.is_stalemate);
}

#[test]
fn uci_of_plain_and_promotion_moves() {
    let e2e4 = ChessMove::Normal { role: Role::Pawn, from: 12, to: 28, promotion: None };
    assert_eq!(move_to_uci(&e2e4), "e2e4");
    let promote = ChessMove::Normal { role: Role::Pawn, from: 52, to: 60, promotion: Some(Role::Queen) };
    assert_eq!(move_to_uci(&promote), "e7e8q");
    let under = ChessMove::Normal { role: Role::Pawn, from: 49, to: 56, promotion: Some(Role::Knight) };
    assert_eq!(move_to_uci(&under), "b7a8n");
}

#[test]
fn uci_of_castling_en_passant_and_drop() {
    let short = ChessMove::Castle { king: 4, rook: 7 };
    assert_eq!(move_to_uci(&short), "e1g1");
    let long = ChessMove::Castle { king: 60, rook: 56 };
    assert_eq!(move_to_uci(&long), "e8c8");
    let ep = ChessMove::EnPassant { from: 36, to: 43 };
    assert_eq!(move_to_uci(&ep), "e5d6");
    let drop = ChessMove::Put { role: Role::Knight, to: 20 };
    assert_eq!(move_to_uci(&drop), "");
}

#[test]
fn san_moves_convert_to_uci() {
    let moves: Vec<String> = ["e4", "e5", "Nf3", "Nc6", "Bc4", "Bc5", "O-O"]
        .iter()
        .map(|m| m.to_string())
        .collect();
    let uci = convert_san_to_uci(&moves);
    assert_eq!(uci, vec!["e2e4", "e7e5", "g1f3", "b8c6", "f1c4", "f8c5", "e1g1"]);
}

#[test]
fn san_conversion_stops_at_illegal_move() {
    let moves: Vec<String> = ["d4", "d5", "Ke3", "Nf6"].iter().map(|m| m.to_string()).collect();
    let uci = convert_san_to_uci(&moves);
    assert_eq!(uci, vec!["d2d4", "d7d5"]);
}

#[test]
fn en_passant_and_long_castling_convert() {
    let moves: Vec<String> = ["d4", "a6", "d5", "e5", "dxe6", "Qe7", "Bg5", "a5", "Nc3", "a4", "Qd2", "h6", "O-O-O"]
        .iter()
        .map(|m| m.to_string())
        .collect();
    let uci = convert_san_to_uci(&moves);
    assert_eq!(uci.len(), 13);
    assert_eq!(uci[4], "d5e6");
    assert_eq!(uci[12], "e1c1");
}

#[test]
fn san_conversion_stops_at_unreadable_move() {
    let moves: Vec<String> = ["e4", "zz9", "e5"].iter().map(|m| m.to_string()).collect();
    assert_eq!(convert_san_to_uci(&moves), vec!["e2e4"]);
    let none: Vec<String> = Vec::new();
    assert!(convert_san_to_uci(&none).is_empty());
}
