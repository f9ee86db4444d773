use chess_analyzer::lichess::{GameExportParams, LichessGame, PerfType, Player, Players, User};
use chess_analyzer::text::{decimal_text, eq_ignore_ascii_case, parse_i32, parse_u64, parse_u8, signed_decimal_text, split_tokens};
use chess_analyzer::training::{training_positions, Difficulty, TrainingStats};
use chess_analyzer::{Evaluation, PositionAnalysis};

fn game(winner: Option<&str>, status: &str, moves: Option<&str>) -> LichessGame {
    LichessGame {
        id: "abc".to_string(),
        rated: true,
        variant: "standard".to_string(),
        speed: "blitz".to_string(),
        perf: "blitz".to_string(),
        created_at: 1,
        last_move_at: 2,
        status: status.to_string(),
        players: Players {
            white: Player {
                user: Some(User { name: "Alice".to_string(), id: "alice".to_string() }),
                rating: Some(1500),
                rating_diff: None,
            },
            black: Player { user: None, rating: None, rating_diff: None },
        },
        winner: winner.map(|w| w.to_string()),
        moves: moves.map(|m| m.to_string()),
        pgn: None,
        opening: None,
        clock: None,
    }
}

#[test]
fn game_results() {
    assert_eq!(game(Some("white"), "mate", None).result(), "1-0");
    assert_eq!(game(Some("black"), "resign", None).result(), "0-1");
    assert_eq!(game(None, "draw", None).result(), "1/2-1/2");
    assert_eq!(game(None, "stalemate", None).result(), "1/2-1/2");
    assert_eq!(game(None, "started", None).result(), "*");
    assert_eq!(game(Some("nobody"), "draw", None).result(), "*");
}

#[test]
fn game_players_and_moves() {
    let g = game(None, "draw", Some("e4 e5  Nf3"));
    assert_eq!(g.white_username(), "Alice");
    assert_eq!(g.black_username(), "Anonymous");
    assert_eq!(g.white_rating(), Some(1500));
    assert_eq!(g.black_rating(), None);
    assert_eq!(g.move_list(), vec!["e4", "e5", "Nf3"]);
    assert!(game(None, "draw", None).move_list().is_empty());
}

#[test]
fn export_params_builders() {
    let p = GameExportParams::new().max(50).perf_type(PerfType::Rapid).rated_only().with_analysis().since(1234);
    assert_eq!(p.max, Some(50));
    assert_eq!(p.perf_type, Some(PerfType::Rapid));
    assert!(p.rated_only);
    assert!(p.with_analysis);
    assert_eq!(p.since, Some(1234));
    let q = GameExportParams::new();
    assert_eq!(q.max, None);
    assert!(!q.rated_only);
    assert_eq!(PerfType::UltraBullet.as_str(), "ultraBullet");
    assert_eq!(PerfType::Correspondence.as_str(), "correspondence");
}

#[test]
fn training_accuracy() {
    let mut s = TrainingStats {
        today_attempts: 0,
        today_correct: 0,
        total_attempts: 0,
        total_correct: 0,
        total_time_ms: 0,
        best_time_ms: None,
        streak: 0,
    };
    assert_eq!(s.accuracy(), 0);
    s.total_attempts = 3;
    s.total_correct = 2;
    assert_eq!(s.accuracy(), 66);
    s.total_correct = 3;
    assert_eq!(s.accuracy(), 100);
}

#[test]
fn drill_positions() {
    assert_eq!(training_positions(Difficulty::Beginner).len(), 4);
    assert_eq!(training_positions(Difficulty::Intermediate).len(), 3);
    let advanced = training_positions(Difficulty::Advanced);
    assert_eq!(advanced.len(), 2);
    assert_eq!(advanced[1], "r2qkb1r/ppp2ppp/2n1bn2/3pp3/2B1P3/2N2N2/PPPP1PPP/R1BQK2R w KQkq - 0 5");
}

#[test]
fn numbers_are_read_like_std() {
    assert_eq!(parse_i32("42"), Some(42));
    assert_eq!(parse_i32("+42"), Some(42));
    assert_eq!(parse_i32("-2147483648"), Some(i32::MIN));
    assert_eq!(parse_i32("2147483647"), Some(i32::MAX));
    assert_eq!(parse_i32("2147483648"), None);
    assert_eq!(parse_i32("-"), None);
    assert_eq!(parse_i32("4x"), None);
    assert_eq!(parse_u8("255"), Some(255));
    assert_eq!(parse_u8("256"), None);
    assert_eq!(parse_u8("-1"), None);
    assert_eq!(parse_u64("18446744073709551615"), Some(u64::MAX));
    assert_eq!(parse_u64("18446744073709551616"), None);
    assert_eq!(parse_u64(""), None);
    for text in ["0", "7", "+0", "007", "-0", "99999999999"] {
        assert_eq!(parse_i32(text), text.parse::<i32>().ok());
    }
}

#[test]
fn numbers_are_written_in_decimal() {
    assert_eq!(decimal_text(0), "0");
    assert_eq!(decimal_text(1907), "1907");
    assert_eq!(decimal_text(u64::MAX), u64::MAX.to_string());
    assert_eq!(signed_decimal_text(-45), "-45");
    assert_eq!(signed_decimal_text(i64::MIN), i64::MIN.to_string());
}

#[test]
fn tokens_and_case() {
    assert_eq!(split_tokens("  info  depth\t3 \n"), vec!["info", "depth", "3"]);
    assert!(split_tokens("   ").is_empty());
    assert!(eq_ignore_ascii_case("MagnusC", "magnusc"));
    assert!(!eq_ignore_ascii_case("magnus", "magnu"));
    assert!(!eq_ignore_ascii_case("é", "É"));
}

#[test]
fn evaluation_text_and_summary() {
    assert_eq!(Evaluation::Centipawns(30).to_text(), "+0.30");
    assert_eq!(Evaluation::Centipawns(0).to_text(), "+0.00");
    assert_eq!(Evaluation::Centipawns(-125).to_text(), "-1.25");
    assert_eq!(Evaluation::Centipawns(-5).to_text(), "-0.05");
    assert_eq!(Evaluation::Mate(3).to_text(), "M3");
    assert_eq!(Evaluation::Mate(-2).to_text(), "M-2");
    assert!(Evaluation::Centipawns(101).is_white_winning());
    assert!(!Evaluation::Centipawns(100).is_white_winning());
    assert!(Evaluation::Mate(-1).is_black_winning());
    assert!(!Evaluation::Centipawns(-100).is_black_winning());
    let mut a = PositionAnalysis::empty();
    a.best_move = "e2e4".to_string();
    a.evaluation = Evaluation::Centipawns(35);
    a.depth = 12;
    a.pv = ["e2e4", "e7e5", "g1f3", "b8c6", "f1b5", "a7a6", "b5a4"].iter().map(|m| m.to_string()).collect();
    assert_eq!(a.summary(), "Eval: +0.35 | Best: e2e4 | Depth: 12 | PV: e2e4 e7e5 g1f3 b8c6 f1b5");
}
