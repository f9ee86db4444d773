use chess_analyzer::{Evaluation, GameReview, PatternType, PositionAnalysis, Severity};

const START_FEN: &str = "rnbqkbnr/pppppppp/8/8/8/8/PPPPPPPP/RNBQKBNR w KQkq - 0 1";

fn moves(list: &[&str]) -> Vec<String> {
    list.iter().map(|m| m.to_string()).collect()
}

fn stub(best: &str, cp: i32) -> PositionAnalysis {
    let mut a = PositionAnalysis::empty();
    a.best_move = best.to_string();
    a.evaluation = Evaluation::Centipawns(cp);
    a.depth = 1;
    a
}

#[test]
fn best_first_move_gives_no_finding() {
    let mut review = GameReview::new(moves(&["e4"]), "alice", "Alice");
    assert!(review.tracked_white());
    assert_eq!(review.next_position().as_deref(), Some(START_FEN));
    review.record_analysis(&stub("e2e4", 30));
    assert_eq!(review.next_position(), None);
    assert!(review.is_finished());
    assert!(review.into_patterns().is_empty());
}

#[test]
fn other_first_move_sets_baseline() {
    let mut review = GameReview::new(moves(&["a4", "e5", "d4"]), "alice", "alice");
    assert_eq!(review.next_position().as_deref(), Some(START_FEN));
    review.record_analysis(&stub("e2e4", 30));
    assert!(review.patterns().is_empty());
    assert_eq!(review.baseline(), Some(30));
    let fen = review.next_position().unwrap();
    assert!(fen.starts_with("rnbqkbnr/pppp1ppp/8/4p3/"));
    assert!(fen.ends_with("/8/1PPPPPPP/RNBQKBNR w KQkq - 0 2"));
    assert_eq!(review.ply(), 2);
}

#[test]
fn all_best_moves_give_no_findings() {
    let mut review = GameReview::new(moves(&["e4", "e5", "Nf3", "Nc6", "Bb5"]), "bob", "alice");
    assert!(!review.tracked_white());
    let bests = ["e7e5", "b8c6"];
    let evals = [20, -300];
    let mut k = 0;
    while let Some(_) = review.next_position() {
        review.record_analysis(&stub(bests[k], evals[k]));
        k += 1;
    }
    assert_eq!(k, 2);
    assert_eq!(review.ply(), 5);
    assert!(review.into_patterns().is_empty());
}

#[test]
fn losses_are_found_and_labelled() {
    let mut review = GameReview::new(moves(&["e4", "e5", "Qh5", "Nc6", "Qxf7+"]), "w", "W");
    review.next_position().unwrap();
    review.record_analysis(&stub("e2e4", 40));
    review.next_position().unwrap();
    review.record_analysis(&stub("g1f3", -80));
    review.next_position().unwrap();
    review.record_analysis(&stub("f1c4", -1000));
    assert_eq!(review.next_position(), None);
    let found = review.into_patterns();
    assert_eq!(found.len(), 2);
    assert_eq!(found[0].ply, 2);
    assert_eq!(found[0].move_number, 2);
    assert_eq!(found[0].cp_loss, 120);
    assert_eq!(found[0].severity, Severity::Mistake);
    assert_eq!(found[0].pattern_type, PatternType::OpeningInaccuracy);
    assert_eq!(found[0].player_move, "Qh5");
    assert_eq!(found[0].best_move, "g1f3");
    assert_eq!(found[0].fen_before, "rnbqkbnr/pppp1ppp/8/4p3/4P3/8/PPPP1PPP/RNBQKBNR w KQkq - 0 2");
    assert_eq!(found[0].fen_after, "rnbqkbnr/pppp1ppp/8/4p2Q/4P3/8/PPPP1PPP/RNB1KBNR b KQkq - 1 2");
    assert_eq!(found[0].description, "Move 2: played Qh5 instead of g1f3 (-120 cp)");
    assert_eq!(found[1].ply, 4);
    assert_eq!(found[1].cp_loss, 920);
    assert_eq!(found[1].severity, Severity::Blunder);
    assert_eq!(found[1].pattern_type, PatternType::QueenBlunder);
}

#[test]
fn black_evaluations_are_negated() {
    let mut review = GameReview::new(moves(&["e4", "e5", "Nf3", "f6"]), "carol", "dave");
    review.next_position().unwrap();
    review.record_analysis(&stub("e7e5", -20));
    assert_eq!(review.baseline(), Some(20));
    review.next_position().unwrap();
    review.record_analysis(&stub("b8c6", 90));
    let found = review.into_patterns();
    assert_eq!(found.len(), 1);
    assert_eq!(found[0].ply, 3);
    assert_eq!(found[0].cp_loss, 110);
    assert_eq!(found[0].severity, Severity::Mistake);
}

#[test]
fn illegal_move_truncates() {
    let mut review = GameReview::new(moves(&["e4", "e5", "d4", "Ke6", "Nf3", "Nc6"]), "a", "a");
    review.next_position().unwrap();
    review.record_analysis(&stub("d2d4", 50));
    review.next_position().unwrap();
    review.record_analysis(&stub("g1f3", -100));
    assert_eq!(review.next_position(), None);
    assert!(review.is_finished());
    assert_eq!(review.ply(), 3);
    let found = review.into_patterns();
    assert_eq!(found.len(), 1);
    assert_eq!(found[0].ply, 2);
    assert_eq!(found[0].cp_loss, 150);
}

#[test]
fn unreadable_move_truncates() {
    let mut review = GameReview::new(moves(&["e4", "??", "d4"]), "a", "b");
    assert_eq!(review.next_position(), None);
    assert_eq!(review.ply(), 1);
    assert!(review.into_patterns().is_empty());
}

#[test]
fn mate_scores_count_as_ten_thousand() {
    let mut review = GameReview::new(moves(&["f3", "e5", "g4"]), "x", "x");
    review.next_position().unwrap();
    review.record_analysis(&stub("e2e4", 10));
    review.next_position().unwrap();
    let mut mate = stub("d2d4", 0);
    mate.evaluation = Evaluation::Mate(-1);
    review.record_analysis(&mate);
    let found = review.into_patterns();
    assert_eq!(found.len(), 1);
    assert_eq!(found[0].cp_loss, 10010);
    assert_eq!(found[0].severity, Severity::Blunder);
}

#[test]
fn illegal_tracked_move_truncates_before_analysis() {
    let mut review = GameReview::new(moves(&["e4", "e5", "Ke3", "Nc6"]), "p", "P");
    review.next_position().unwrap();
    review.record_analysis(&stub("d2d4", 20));
    assert_eq!(review.next_position(), None);
    assert!(review.is_finished());
    assert_eq!(review.ply(), 2);
    assert_eq!(review.next_position(), None);
    assert_eq!(review.ply(), 2);
    assert!(review.into_patterns().is_empty());
}

#[test]
fn finding_positions_follow_the_moves() {
    let mut review = GameReview::new(moves(&["d4", "d5", "Bg5"]), "q", "q");
    review.next_position().unwrap();
    review.record_analysis(&stub("e2e4", 30));
    let fen = review.next_position().unwrap();
    assert_eq!(fen, "rnbqkbnr/ppp1pppp/8/3p4/3P4/8/PPP1PPPP/RNBQKBNR w KQkq - 0 2");
    review.record_analysis(&stub("c1f4", -500));
    let found = review.patterns();
    assert_eq!(found.len(), 1);
    assert_eq!(found[0].fen_before, fen);
    assert_eq!(found[0].fen_after, "rnbqkbnr/ppp1pppp/8/3p2B1/3P4/8/PPP1PPPP/RN1QKBNR b KQkq - 1 2");
    assert_eq!(found[0].pattern_type, PatternType::MinorPieceBlunder);
    assert_eq!(found[0].cp_loss, 530);
}
