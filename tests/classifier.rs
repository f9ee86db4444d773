use chess_analyzer::patterns::{classify_pattern, describe_finding, eval_for_player, judge_move, Verdict};
use chess_analyzer::{Evaluation, PatternType, Role, Severity};

#[test]
fn severity_bands() {
    assert_eq!(Severity::from_cp_loss(-5), None);
    assert_eq!(Severity::from_cp_loss(0), None);
    assert_eq!(Severity::from_cp_loss(49), None);
    assert_eq!(Severity::from_cp_loss(50), Some(Severity::Inaccuracy));
    assert_eq!(Severity::from_cp_loss(99), Some(Severity::Inaccuracy));
    assert_eq!(Severity::from_cp_loss(100), Some(Severity::Mistake));
    assert_eq!(Severity::from_cp_loss(299), Some(Severity::Mistake));
    assert_eq!(Severity::from_cp_loss(300), Some(Severity::Blunder));
    assert_eq!(Severity::from_cp_loss(i32::MAX), Some(Severity::Blunder));
}

#[test]
fn severity_names() {
    assert_eq!(Severity::Blunder.as_str(), "blunder");
    assert_eq!(Severity::Mistake.as_str(), "mistake");
    assert_eq!(Severity::Inaccuracy.as_str(), "inaccuracy");
}

#[test]
fn pattern_names() {
    assert_eq!(PatternType::QueenBlunder.as_str(), "queen_blunder");
    assert_eq!(PatternType::MissedDiscoveredAttack.as_str(), "missed_discovered_attack");
    assert_eq!(PatternType::Unknown.as_str(), "unknown");
    assert_eq!(PatternType::MinorPieceBlunder.display_name(), "Minor Piece Blunder");
    assert_eq!(PatternType::AllowedBackRank.display_name(), "Allowed Back Rank");
    assert_eq!(PatternType::TacticalMiss.display_name(), "Tactical Miss");
}

#[test]
fn heavy_piece_labels() {
    assert_eq!(classify_pattern(800, Some(Role::Queen), 20), PatternType::QueenBlunder);
    assert_eq!(classify_pattern(799, Some(Role::Queen), 20), PatternType::TacticalMiss);
    assert_eq!(classify_pattern(400, Some(Role::Rook), 32), PatternType::RookBlunder);
    assert_eq!(classify_pattern(799, Some(Role::Rook), 5), PatternType::RookBlunder);
    assert_eq!(classify_pattern(400, Some(Role::Knight), 20), PatternType::MinorPieceBlunder);
    assert_eq!(classify_pattern(900, Some(Role::Bishop), 20), PatternType::MinorPieceBlunder);
    assert_eq!(classify_pattern(399, Some(Role::Rook), 20), PatternType::TacticalMiss);
}

#[test]
fn phase_labels() {
    assert_eq!(classify_pattern(60, Some(Role::Pawn), 32), PatternType::OpeningInaccuracy);
    assert_eq!(classify_pattern(60, Some(Role::Pawn), 28), PatternType::OpeningInaccuracy);
    assert_eq!(classify_pattern(60, Some(Role::King), 27), PatternType::TacticalMiss);
    assert_eq!(classify_pattern(60, None, 11), PatternType::TacticalMiss);
    assert_eq!(classify_pattern(900, Some(Role::King), 10), PatternType::EndgameError);
    assert_eq!(classify_pattern(60, Some(Role::Pawn), 3), PatternType::EndgameError);
}

#[test]
fn evaluations_for_each_side() {
    assert_eq!(eval_for_player(&Evaluation::Centipawns(30), true), 30);
    assert_eq!(eval_for_player(&Evaluation::Centipawns(30), false), -30);
    assert_eq!(eval_for_player(&Evaluation::Mate(2), true), 10000);
    assert_eq!(eval_for_player(&Evaluation::Mate(-1), true), -10000);
    assert_eq!(eval_for_player(&Evaluation::Mate(0), false), 10000);
    assert_eq!(eval_for_player(&Evaluation::Centipawns(i32::MIN), false), 2147483648);
}

#[test]
fn judging_moves() {
    // the engine's move: nothing
    assert_eq!(judge_move(Some(100), -300, "e2e4", "e2e4", Some(Role::Pawn), 30), None);
    // no engine move: nothing
    assert_eq!(judge_move(Some(100), -300, "", "e2e4", Some(Role::Pawn), 30), None);
    // no earlier evaluation: nothing
    assert_eq!(judge_move(None, -300, "d2d4", "e2e4", Some(Role::Pawn), 30), None);
    // a gain is no loss
    assert_eq!(judge_move(Some(-100), 200, "d2d4", "e2e4", Some(Role::Pawn), 30), None);
    // below an inaccuracy
    assert_eq!(judge_move(Some(30), -19, "d2d4", "e2e4", Some(Role::Pawn), 30), None);
    assert_eq!(
        judge_move(Some(30), -20, "d2d4", "e2e4", Some(Role::Pawn), 30),
        Some(Verdict { cp_loss: 50, severity: Severity::Inaccuracy, pattern_type: PatternType::OpeningInaccuracy })
    );
    assert_eq!(
        judge_move(Some(500), -400, "d1d8", "d1h5", Some(Role::Queen), 20),
        Some(Verdict { cp_loss: 900, severity: Severity::Blunder, pattern_type: PatternType::QueenBlunder })
    );
    assert_eq!(
        judge_move(Some(2147483648), -2147483648, "a1a2", "a1a3", Some(Role::Rook), 20),
        Some(Verdict { cp_loss: i32::MAX, severity: Severity::Blunder, pattern_type: PatternType::RookBlunder })
    );
}

#[test]
fn finding_description() {
    assert_eq!(describe_finding(12, "Qxd5", "e2e4", 340), "Move 12: played Qxd5 instead of e2e4 (-340 cp)");
    assert_eq!(describe_finding(1, "a4", "e2e4", 0), "Move 1: played a4 instead of e2e4 (-0 cp)");
}
