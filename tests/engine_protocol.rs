use chess_analyzer::uci::parse_info_line;
use chess_analyzer::{EngineError, Evaluation, LineOutcome, PositionAnalysis, SessionState, UciSession};

fn ready_session() -> UciSession {
    let mut s = UciSession::new();
    assert_eq!(s.handshake_command(), "uci");
    assert!(matches!(s.on_line("id name Stockfish"), LineOutcome::Wait));
    match s.on_line("uciok") {
        LineOutcome::Send(cmd) => assert_eq!(cmd, "isready"),
        other => panic!("unexpected {:?}", other),
    }
    assert!(matches!(s.on_line("readyok"), LineOutcome::Handshaken));
    assert!(s.is_ready());
    s
}

#[test]
fn handshake_reaches_ready() {
    let s = ready_session();
    assert_eq!(s.state(), SessionState::Ready);
}

#[test]
fn quit_before_handshake() {
    let mut s = UciSession::new();
    assert_eq!(s.quit().as_deref(), Some("quit"));
    assert_eq!(s.quit(), None);
    assert!(s.position_command(None, None).is_err());
}

#[test]
fn position_and_go_before_handshake_are_refused() {
    let mut s = UciSession::new();
    assert!(matches!(s.position_command(None, None), Err(EngineError::NotInitialized)));
    assert!(matches!(s.go_command(12), Err(EngineError::NotInitialized)));
    assert_eq!(s.state(), SessionState::Spawned);
    s.handshake_command();
    assert!(matches!(s.go_command(12), Err(EngineError::NotInitialized)));
    assert_eq!(s.state(), SessionState::AwaitingUciOk);
}

#[test]
fn position_commands() {
    let s = ready_session();
    assert_eq!(s.position_command(None, None).unwrap(), "position startpos");
    let fen = "8/8/8/8/8/8/8/K6k w - - 0 1";
    assert_eq!(s.position_command(Some(fen), None).unwrap(), format!("position fen {}", fen));
    let moves = vec!["e2e4".to_string(), "e7e5".to_string()];
    assert_eq!(
        s.position_command(None, Some(moves.as_slice())).unwrap(),
        "position startpos moves e2e4 e7e5"
    );
    let none: Vec<String> = Vec::new();
    assert_eq!(s.position_command(None, Some(none.as_slice())).unwrap(), "position startpos");
}

#[test]
fn search_gathers_last_info_and_best_move() {
    let mut s = ready_session();
    assert_eq!(s.go_command(12).unwrap(), "go depth 12");
    assert!(s.position_command(None, None).is_err());
    assert!(matches!(s.on_line("info depth 1 score cp 13 nodes 20 time 1 pv e2e4"), LineOutcome::Wait));
    assert!(matches!(
        s.on_line("info depth 12 seldepth 18 multipv 1 score cp 30 nodes 51234 nps 900000 time 57 pv e2e4 e7e5 g1f3"),
        LineOutcome::Wait
    ));
    match s.on_line("bestmove e2e4 ponder e7e5") {
        LineOutcome::Done(a) => {
            assert_eq!(a.best_move, "e2e4");
            assert_eq!(a.evaluation, Evaluation::Centipawns(30));
            assert_eq!(a.depth, 12);
            assert_eq!(a.nodes, 51234);
            assert_eq!(a.time_ms, 57);
            assert_eq!(a.pv, vec!["e2e4", "e7e5", "g1f3"]);
        }
        other => panic!("unexpected {:?}", other),
    }
    assert!(s.is_ready());
}

#[test]
fn search_without_score_is_level() {
    let mut s = ready_session();
    s.go_command(1).unwrap();
    match s.on_line("bestmove (none)") {
        LineOutcome::Done(a) => {
            assert_eq!(a.best_move, "(none)");
            assert_eq!(a.evaluation, Evaluation::Centipawns(0));
            assert_eq!(a.depth, 0);
            assert!(a.pv.is_empty());
        }
        other => panic!("unexpected {:?}", other),
    }
    s.go_command(1).unwrap();
    match s.on_line("bestmove") {
        LineOutcome::Done(a) => assert_eq!(a.best_move, ""),
        other => panic!("unexpected {:?}", other),
    }
}

#[test]
fn quit_twice_sends_once() {
    let mut s = ready_session();
    assert_eq!(s.quit().as_deref(), Some("quit"));
    assert_eq!(s.state(), SessionState::Terminated);
    assert_eq!(s.quit(), None);
    assert_eq!(s.state(), SessionState::Terminated);
    assert!(s.go_command(5).is_err());
}

#[test]
fn info_line_fields() {
    let mut a = PositionAnalysis::empty();
    parse_info_line("info depth 20 score mate -3 time 1500 nodes 99 pv d1h5 g7g6", &mut a);
    assert_eq!(a.depth, 20);
    assert_eq!(a.evaluation, Evaluation::Mate(-3));
    assert_eq!(a.time_ms, 1500);
    assert_eq!(a.nodes, 99);
    assert_eq!(a.pv, vec!["d1h5", "g7g6"]);
}

#[test]
fn info_line_malformed_numbers() {
    let mut a = PositionAnalysis::empty();
    parse_info_line("info depth 7 score cp 44 nodes 10", &mut a);
    parse_info_line("info depth x score cp abc nodes 300 time -4", &mut a);
    assert_eq!(a.depth, 0);
    assert_eq!(a.evaluation, Evaluation::Centipawns(0));
    assert_eq!(a.nodes, 300);
    assert_eq!(a.time_ms, 0);
    parse_info_line("info string hello depth", &mut a);
    assert_eq!(a.depth, 0);
    parse_info_line("info depth 300", &mut a);
    assert_eq!(a.depth, 0);
}

#[test]
fn info_line_keeps_missing_fields() {
    let mut a = PositionAnalysis::empty();
    parse_info_line("info depth 5 score cp -12 pv a2a3", &mut a);
    parse_info_line("info nodes 77", &mut a);
    assert_eq!(a.depth, 5);
    assert_eq!(a.evaluation, Evaluation::Centipawns(-12));
    assert_eq!(a.pv, vec!["a2a3"]);
    assert_eq!(a.nodes, 77);
    parse_info_line("info pv", &mut a);
    assert!(a.pv.is_empty());
}

#[test]
fn info_line_malformed_scores_are_zero() {
    let mut a = PositionAnalysis::empty();
    parse_info_line("info score mate 4", &mut a);
    parse_info_line("info score mate x depth 9", &mut a);
    assert_eq!(a.evaluation, Evaluation::Mate(0));
    assert_eq!(a.depth, 9);
    parse_info_line("info score cp 99999999999", &mut a);
    assert_eq!(a.evaluation, Evaluation::Centipawns(0));
    parse_info_line("info score lowerbound 5 nodes 3", &mut a);
    assert_eq!(a.evaluation, Evaluation::Centipawns(0));
    assert_eq!(a.nodes, 3);
}
