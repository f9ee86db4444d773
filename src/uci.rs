//! The UCI protocol spoken with a chess engine, as a state machine.
//!
//! The session decides what to send and reads what comes back; the caller owns
//! the engine process, writes each command it is handed as one line and feeds
//! every line the engine prints to `on_line`.

use vstd::prelude::*;
use crate::analysis::{empty_analysis, AnalysisView, Evaluation, PositionAnalysis};
use crate::text::{
    decimal, decimal_text, has_prefix, join, join_text, parse_i32, parse_i32_spec, parse_u64,
    parse_u8, parse_unsigned, same_text, split_tokens, tokens, trim_start, trimmed_starts_with,
    views,
};

verus! {

#[verifier::external_type_specification]
#[verifier::external_body]
pub struct ExIoError(std::io::Error);

/// A failure of the engine or of the talk with it.
#[derive(Debug)]
pub enum EngineError {
    /// The engine process could not be started.
    SpawnError(String),
    /// Reading from or writing to the engine failed.
    IoError(std::io::Error),
    /// The engine answered something unexpected.
    ProtocolError(String),
    /// The handshake has not completed.
    NotInitialized,
}

/// Where a session stands in the protocol.
#[derive(Debug, Clone, Copy, PartialEq, Eq, Structural)]
pub enum SessionState {
    /// The process runs; nothing has been said yet.
    Spawned,
    /// `uci` was sent; waiting for `uciok`.
    AwaitingUciOk,
    /// `isready` was sent; waiting for `readyok`.
    AwaitingReadyOk,
    /// The handshake is done and no search runs.
    Ready,
    /// A search runs; waiting for `bestmove`.
    Analyzing,
    /// `quit` was sent.
    Terminated,
}

/// What the caller does after handing the session a line.
#[derive(Debug)]
pub enum LineOutcome {
    /// Keep reading.
    Wait,
    /// Send this command, then keep reading.
    Send(String),
    /// The handshake is complete; stop reading.
    Handshaken,
    /// The search is over with this result; stop reading.
    Done(PositionAnalysis),
}

/// The value of a number field: what parsing gives, 0 where it fails.
pub open spec fn or_zero(v: Option<int>) -> int {
    match v {
        Some(x) => x,
        None => 0,
    }
}

/// The effect of `score <kind> <value>` on an analysis: a centipawn or mate
/// score, its value 0 where it does not parse; another kind changes nothing.
pub open spec fn apply_score(kind: Seq<char>, value: Seq<char>, a: AnalysisView) -> AnalysisView {
    let v = or_zero(parse_i32_spec(value));
    if kind == "cp"@ {
        AnalysisView { evaluation: Evaluation::Centipawns(v as i32), ..a }
    } else if kind == "mate"@ {
        AnalysisView { evaluation: Evaluation::Mate(v as i32), ..a }
    } else {
        a
    }
}

/// The analysis after reading the tokens of an `info` line from position
/// `i` on: each key takes a fixed number of following tokens, `pv` takes all
/// that remain, and anything else is skipped.
pub open spec fn apply_info(t: Seq<Seq<char>>, i: int, a: AnalysisView) -> AnalysisView
    decreases t.len() + 3 - i,
{
    if i < 0 || i >= t.len() {
        a
    } else if t[i] == "depth"@ {
        apply_info(
            t,
            i + 2,
            if i + 1 < t.len() {
                AnalysisView { depth: or_zero(parse_unsigned(t[i + 1], u8::MAX as int)) as u8, ..a }
            } else {
                a
            },
        )
    } else if t[i] == "score"@ {
        apply_info(t, i + 3, if i + 2 < t.len() { apply_score(t[i + 1], t[i + 2], a) } else { a })
    } else if t[i] == "time"@ {
        apply_info(
            t,
            i + 2,
            if i + 1 < t.len() {
                AnalysisView { time_ms: or_zero(parse_unsigned(t[i + 1], u64::MAX as int)) as u64, ..a }
            } else {
                a
            },
        )
    } else if t[i] == "nodes"@ {
        apply_info(
            t,
            i + 2,
            if i + 1 < t.len() {
                AnalysisView { nodes: or_zero(parse_unsigned(t[i + 1], u64::MAX as int)) as u64, ..a }
            } else {
                a
            },
        )
    } else if t[i] == "pv"@ {
        AnalysisView { pv: t.skip(i + 1), ..a }
    } else {
        apply_info(t, i + 1, a)
    }
}

/// The move named by a `bestmove` line: its second token, or nothing.
pub open spec fn bestmove_of(line: Seq<char>) -> Seq<char> {
    let t = tokens(line);
    if t.len() >= 2 {
        t[1]
    } else {
        seq![]
    }
}

/// The line that sets up a position: from a FEN or the initial position,
/// followed by the moves where there are any.
pub open spec fn position_command_text(fen: Option<Seq<char>>, moves: Option<Seq<Seq<char>>>) -> Seq<char> {
    let base = match fen {
        Some(f) => "position fen "@ + f,
        None => "position startpos"@,
    };
    match moves {
        Some(m) => if m.len() > 0 {
            base + " moves "@ + join(m, " "@)
        } else {
            base
        },
        None => base,
    }
}

/// The line that starts a search to a fixed depth.
pub open spec fn go_command_text(depth: u8) -> Seq<char> {
    "go depth "@ + decimal(depth as nat)
}

/// The state after `quit`, and whether `quit` is to be sent.
pub open spec fn quit_step(s: SessionState) -> (SessionState, bool) {
    (SessionState::Terminated, s != SessionState::Terminated)
}

/// Quitting twice is quitting once: the second call sends nothing and
/// leaves the session as the first left it.
pub proof fn lemma_quit_twice(s: SessionState)
    ensures
        !quit_step(quit_step(s).0).1,
        quit_step(quit_step(s).0).0 == quit_step(s).0,
{
}

fn take_number_u8(t: &str) -> (r: u8)
    ensures
        r as int == or_zero(parse_unsigned(t@, u8::MAX as int)),
{
    match parse_u8(t) {
        Some(v) => v,
        None => 0,
    }
}

fn take_number_u64(t: &str) -> (r: u64)
    ensures
        r as int == or_zero(parse_unsigned(t@, u64::MAX as int)),
{
    match parse_u64(t) {
        Some(v) => v,
        None => 0,
    }
}

/// Reads the fields of an engine `info` line into `analysis`: `depth`,
/// `score cp`, `score mate`, `time`, `nodes` and `pv` (which takes the rest
/// of the line). Fields the line lacks keep their values; a number that does
/// not parse, a score's value included, counts as 0.
pub fn parse_info_line(line: &str, analysis: &mut PositionAnalysis)
    ensures
        final(analysis)@ == apply_info(tokens(line@), 0, old(analysis)@),
{
    let parts = split_tokens(line);
    let ghost t = tokens(line@);
    let n = parts.len();
    let mut i: usize = 0;
    while i < n
        invariant
            n == parts@.len(),
            views(parts@) == t,
            apply_info(t, 0, old(analysis)@) == apply_info(t, i as int, analysis@),
        decreases n - i,
    {
        let ghost a = analysis@;
        assert(parts@[i as int]@ == t[i as int]);
        let key = parts[i].as_str();
        if same_text(key, "depth") {
            if n - i > 1 {
                assert(parts@[i + 1]@ == t[i + 1]);
                analysis.depth = take_number_u8(parts[i + 1].as_str());
            }
            assert(apply_info(t, i as int, a) == apply_info(t, i + 2, analysis@));
            if n - i <= 2 {
                assert(apply_info(t, i + 2, analysis@) == analysis@);
                i = n;
            } else {
                i = i + 2;
            }
        } else if same_text(key, "score") {
            if n - i > 2 {
                assert(parts@[i + 1]@ == t[i + 1]);
                assert(parts@[i + 2]@ == t[i + 2]);
                let kind = parts[i + 1].as_str();
                let v: i32 = match parse_i32(parts[i + 2].as_str()) {
                    Some(v) => v,
                    None => 0,
                };
                if same_text(kind, "cp") {
                    analysis.evaluation = Evaluation::Centipawns(v);
                } else if same_text(kind, "mate") {
                    analysis.evaluation = Evaluation::Mate(v);
                }
                assert(analysis@ == apply_score(t[i + 1], t[i + 2], a));
            }
            assert(apply_info(t, i as int, a) == apply_info(t, i + 3, analysis@));
            if n - i <= 3 {
                assert(apply_info(t, i + 3, analysis@) == analysis@);
                i = n;
            } else {
                i = i + 3;
            }
        } else if same_text(key, "time") {
            if n - i > 1 {
                assert(parts@[i + 1]@ == t[i + 1]);
                analysis.time_ms = take_number_u64(parts[i + 1].as_str());
            }
            assert(apply_info(t, i as int, a) == apply_info(t, i + 2, analysis@));
            if n - i <= 2 {
                assert(apply_info(t, i + 2, analysis@) == analysis@);
                i = n;
            } else {
                i = i + 2;
            }
        } else if same_text(key, "nodes") {
            if n - i > 1 {
                assert(parts@[i + 1]@ == t[i + 1]);
                analysis.nodes = take_number_u64(parts[i + 1].as_str());
            }
            assert(apply_info(t, i as int, a) == apply_info(t, i + 2, analysis@));
            if n - i <= 2 {
                assert(apply_info(t, i + 2, analysis@) == analysis@);
                i = n;
            } else {
                i = i + 2;
            }
        } else if same_text(key, "pv") {
            let mut line_moves: Vec<String> = Vec::new();
            let mut k: usize = i + 1;
            while k < n
                invariant
                    n == parts@.len(),
                    views(parts@) == t,
                    i < k <= n,
                    views(line_moves@) == t.subrange(i + 1, k as int),
                decreases n - k,
            {
                let ghost before = line_moves@;
                line_moves.push(parts[k].clone());
                proof {
                    assert(parts@[k as int]@ == t[k as int]);
                    assert(views(line_moves@) =~= views(before).push(t[k as int]));
                    assert(t.subrange(i + 1, k + 1) =~= t.subrange(i + 1, k as int).push(t[k as int]));
                }
                k = k + 1;
            }
            analysis.pv = line_moves;
            assert(t.subrange(i + 1, n as int) =~= t.skip(i + 1));
            assert(analysis@ == AnalysisView { pv: t.skip(i + 1), ..a });
            i = n;
        } else {
            i = i + 1;
        }
    }
    assert(apply_info(t, i as int, analysis@) == analysis@);
}

/// One engine session's side of the protocol: its state and the analysis
/// gathered by the search that runs.
pub struct UciSession {
    state: SessionState,
    current: PositionAnalysis,
}

impl UciSession {
    pub closed spec fn state_of(&self) -> SessionState {
        self.state
    }

    /// What the running search has reported so far.
    pub closed spec fn gathered(&self) -> AnalysisView {
        self.current@
    }

    /// A session for an engine process that has just started.
    pub fn new() -> (r: UciSession)
        ensures
            r.state_of() == SessionState::Spawned,
            r.gathered() == empty_analysis(),
    {
        UciSession { state: SessionState::Spawned, current: PositionAnalysis::empty() }
    }

    /// Where the session stands.
    pub fn state(&self) -> (r: SessionState)
        ensures
            r == self.state_of(),
    {
        self.state
    }

    /// Whether the handshake is done and no search runs, so that a position
    /// can be set and a search started.
    pub fn is_ready(&self) -> (r: bool)
        ensures
            r == (self.state_of() == SessionState::Ready),
    {
        self.state == SessionState::Ready
    }

    /// Opens the handshake: the command to send is `uci`.
    pub fn handshake_command(&mut self) -> (r: String)
        requires
            old(self).state_of() == SessionState::Spawned,
        ensures
            r@ == "uci"@,
            final(self).state_of() == SessionState::AwaitingUciOk,
            final(self).gathered() == old(self).gathered(),
    {
        self.state = SessionState::AwaitingUciOk;
        String::from_str("uci")
    }

    /// Takes one line the engine printed. During the handshake `uciok` is
    /// answered with `isready`, and `readyok` completes it. During a search
    /// each `info` line updates the gathered analysis, and `bestmove` ends the
    /// search with its move. Lines are matched by their start once leading
    /// white space is removed; other lines are ignored.
    pub fn on_line(&mut self, line: &str) -> (r: LineOutcome)
        ensures
            ({
                let l = trim_start(line@);
                let s = old(self).state_of();
                if s == SessionState::AwaitingUciOk && has_prefix(l, "uciok"@) {
                    &&& r is Send
                    &&& r->Send_0@ == "isready"@
                    &&& final(self).state_of() == SessionState::AwaitingReadyOk
                    &&& final(self).gathered() == old(self).gathered()
                } else if s == SessionState::AwaitingReadyOk && has_prefix(l, "readyok"@) {
                    &&& r is Handshaken
                    &&& final(self).state_of() == SessionState::Ready
                    &&& final(self).gathered() == old(self).gathered()
                } else if s == SessionState::Analyzing && has_prefix(l, "bestmove"@) {
                    &&& r is Done
                    &&& r->Done_0@ == AnalysisView { best_move: bestmove_of(line@), ..old(self).gathered() }
                    &&& final(self).state_of() == SessionState::Ready
                } else if s == SessionState::Analyzing && has_prefix(l, "info"@) {
                    &&& r is Wait
                    &&& final(self).state_of() == SessionState::Analyzing
                    &&& final(self).gathered() == apply_info(tokens(line@), 0, old(self).gathered())
                } else {
                    &&& r is Wait
                    &&& final(self).state_of() == s
                    &&& final(self).gathered() == old(self).gathered()
                }
            }),
    {
        match self.state {
            SessionState::AwaitingUciOk => {
                if trimmed_starts_with(line, "uciok") {
                    self.state = SessionState::AwaitingReadyOk;
                    LineOutcome::Send(String::from_str("isready"))
                } else {
                    LineOutcome::Wait
                }
            },
            SessionState::AwaitingReadyOk => {
                if trimmed_starts_with(line, "readyok") {
                    self.state = SessionState::Ready;
                    LineOutcome::Handshaken
                } else {
                    LineOutcome::Wait
                }
            },
            SessionState::Analyzing => {
                if trimmed_starts_with(line, "bestmove") {
                    let parts = split_tokens(line);
                    let best = if parts.len() >= 2 {
                        assert(parts@[1]@ == tokens(line@)[1]);
                        parts[1].clone()
                    } else {
                        String::new()
                    };
                    self.current.best_move = best;
                    self.state = SessionState::Ready;
                    let mut done = PositionAnalysis::empty();
                    std::mem::swap(&mut done, &mut self.current);
                    LineOutcome::Done(done)
                } else if trimmed_starts_with(line, "info") {
                    parse_info_line(line, &mut self.current);
                    LineOutcome::Wait
                } else {
                    LineOutcome::Wait
                }
            },
            _ => LineOutcome::Wait,
        }
    }

    /// The command that sets up a position: `position fen <fen>`, or
    /// `position startpos` without one, then ` moves ` and the moves where
    /// the list is not empty. Before the handshake is done, or while a search
    /// runs, nothing is to be sent and the answer is `NotInitialized`.
    pub fn position_command(&self, fen: Option<&str>, moves: Option<&[String]>) -> (r: Result<String, EngineError>)
        ensures
            self.state_of() == SessionState::Ready <==> r is Ok,
            r is Err ==> r->Err_0 is NotInitialized,
            r is Ok ==> r->Ok_0@ == position_command_text(
                match fen {
                    Some(f) => Some(f@),
                    None => None,
                },
                match moves {
                    Some(m) => Some(views(m@)),
                    None => None,
                },
            ),
    {
        if self.state != SessionState::Ready {
            return Err(EngineError::NotInitialized);
        }
        let mut cmd = match fen {
            Some(f) => {
                let mut c = String::from_str("position fen ");
                c.append(f);
                c
            },
            None => String::from_str("position startpos"),
        };
        match moves {
            Some(m) => {
                if m.len() > 0 {
                    let joined = join_text(m, m.len(), " ");
                    assert(views(m@).take(m@.len() as int) =~= views(m@));
                    cmd.append(" moves ");
                    cmd.append(joined.as_str());
                }
            },
            None => {},
        }
        Ok(cmd)
    }

    /// Starts a search to the given depth: the command is `go depth <depth>`,
    /// and the gathered analysis starts afresh. Before the handshake is done,
    /// or while a search runs, nothing is to be sent and the answer is
    /// `NotInitialized`.
    pub fn go_command(&mut self, depth: u8) -> (r: Result<String, EngineError>)
        ensures
            old(self).state_of() == SessionState::Ready <==> r is Ok,
            r is Err ==> r->Err_0 is NotInitialized && *final(self) == *old(self),
            r is Ok ==> r->Ok_0@ == go_command_text(depth) && final(self).state_of()
                == SessionState::Analyzing && final(self).gathered() == empty_analysis(),
    {
        if self.state != SessionState::Ready {
            return Err(EngineError::NotInitialized);
        }
        self.state = SessionState::Analyzing;
        self.current = PositionAnalysis::empty();
        let mut cmd = String::from_str("go depth ");
        let d = decimal_text(depth as u64);
        cmd.append(d.as_str());
        Ok(cmd)
    }

    /// Ends the session. The first call hands out the command `quit`;
    /// every later call hands out nothing and changes nothing.
    pub fn quit(&mut self) -> (r: Option<String>)
        ensures
            (final(self).state_of(), r is Some) == quit_step(old(self).state_of()),
            r is Some ==> r->Some_0@ == "quit"@,
            final(self).gathered() == old(self).gathered(),
            r is None ==> *final(self) == *old(self),
    {
        if self.state == SessionState::Terminated {
            None
        } else {
            self.state = SessionState::Terminated;
            Some(String::from_str("quit"))
        }
    }
}

} // verus!
