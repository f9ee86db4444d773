//! What the engine reports about a position.

use vstd::prelude::*;
use crate::text::{decimal, decimal_text, join, join_text, signed_decimal, signed_decimal_text, views};

verus! {

/// An engine's judgement of a position.
#[derive(Debug, Clone, Copy, PartialEq, Eq, Structural)]
pub enum Evaluation {
    /// A score in hundredths of a pawn, for the side to move.
    Centipawns(i32),
    /// A forced mate in this many moves; the sign tells which side mates.
    Mate(i32),
}

/// The two-place decimal form of a centipawn score in pawns, with its sign.
pub open spec fn pawns_text(cp: int) -> Seq<char> {
    let m = if cp < 0 { -cp } else { cp };
    let frac = m % 100;
    (if cp < 0 { seq!['-'] } else { seq!['+'] }) + decimal((m / 100) as nat) + seq!['.']
        + decimal((frac / 10) as nat) + decimal((frac % 10) as nat)
}

/// How an evaluation is shown: `+0.30`, `-1.25`, `M3`, `M-2`.
pub open spec fn evaluation_text(e: Evaluation) -> Seq<char> {
    match e {
        Evaluation::Centipawns(cp) => pawns_text(cp as int),
        Evaluation::Mate(m) => seq!['M'] + signed_decimal(m as int),
    }
}

impl Evaluation {
    /// Whether white is clearly ahead: more than a pawn, or mating.
    pub fn is_white_winning(&self) -> (r: bool)
        ensures
            r == match *self {
                Evaluation::Centipawns(cp) => cp > 100,
                Evaluation::Mate(m) => m > 0,
            },
    {
        match self {
            Evaluation::Centipawns(cp) => *cp > 100,
            Evaluation::Mate(moves) => *moves > 0,
        }
    }

    /// Whether black is clearly ahead: more than a pawn, or mating.
    pub fn is_black_winning(&self) -> (r: bool)
        ensures
            r == match *self {
                Evaluation::Centipawns(cp) => cp < -100,
                Evaluation::Mate(m) => m < 0,
            },
    {
        match self {
            Evaluation::Centipawns(cp) => *cp < -100,
            Evaluation::Mate(moves) => *moves < 0,
        }
    }

    /// The evaluation as text: a centipawn score in pawns with two places
    /// and its sign (`+0.30`), a mate as `M` and the signed move count.
    pub fn to_text(&self) -> (r: String)
        ensures
            r@ == evaluation_text(*self),
    {
        match self {
            Evaluation::Centipawns(cp) => {
                let m: u64 = if *cp < 0 { (0 - (*cp as i64)) as u64 } else { *cp as u64 };
                let frac = m % 100;
                proof {
                    reveal_strlit("-");
                    reveal_strlit("+");
                    reveal_strlit(".");
                }
                let mut s = if *cp < 0 { String::from_str("-") } else { String::from_str("+") };
                let whole = decimal_text(m / 100);
                s.append(whole.as_str());
                s.append(".");
                let tens = decimal_text(frac / 10);
                s.append(tens.as_str());
                let ones = decimal_text(frac % 10);
                s.append(ones.as_str());
                s
            },
            Evaluation::Mate(moves) => {
                proof {
                    reveal_strlit("M");
                }
                let mut s = String::from_str("M");
                let count = signed_decimal_text(*moves as i64);
                s.append(count.as_str());
                s
            },
        }
    }
}

/// The engine's analysis of one move.
#[derive(Debug, Clone)]
pub struct MoveAnalysis {
    /// The move in UCI notation, such as `e2e4`.
    pub mv: String,
    /// The move in standard algebraic notation, such as `e4`.
    pub san: Option<String>,
    /// The evaluation after the move.
    pub evaluation: Evaluation,
    /// The best line from there.
    pub pv: Vec<String>,
    /// The search depth.
    pub depth: u8,
}

/// The engine's analysis of a position: its best move and the figures of its
/// last progress report.
#[derive(Debug, Clone)]
pub struct PositionAnalysis {
    /// The best move in UCI notation; empty when the engine named none.
    pub best_move: String,
    /// The evaluation of the position.
    pub evaluation: Evaluation,
    /// The depth the search reached.
    pub depth: u8,
    /// The principal variation: the line of play the engine expects.
    pub pv: Vec<String>,
    /// Time spent, in milliseconds.
    pub time_ms: u64,
    /// Nodes searched.
    pub nodes: u64,
}

/// A `PositionAnalysis` with its strings as character sequences.
pub struct AnalysisView {
    pub best_move: Seq<char>,
    pub evaluation: Evaluation,
    pub depth: u8,
    pub pv: Seq<Seq<char>>,
    pub time_ms: u64,
    pub nodes: u64,
}

impl View for PositionAnalysis {
    type V = AnalysisView;

    open spec fn view(&self) -> AnalysisView {
        AnalysisView {
            best_move: self.best_move@,
            evaluation: self.evaluation,
            depth: self.depth,
            pv: views(self.pv@),
            time_ms: self.time_ms,
            nodes: self.nodes,
        }
    }
}

/// What an analysis holds before any report has come in.
pub open spec fn empty_analysis() -> AnalysisView {
    AnalysisView {
        best_move: seq![],
        evaluation: Evaluation::Centipawns(0),
        depth: 0,
        pv: seq![],
        time_ms: 0,
        nodes: 0,
    }
}

/// The one-line summary of an analysis: evaluation, best move, depth and the
/// first five moves of the principal variation.
pub open spec fn summary_text(a: AnalysisView) -> Seq<char> {
    let shown = if a.pv.len() < 5 { a.pv.len() as int } else { 5 };
    "Eval: "@ + evaluation_text(a.evaluation) + " | Best: "@ + a.best_move + " | Depth: "@
        + decimal(a.depth as nat) + " | PV: "@ + join(a.pv.take(shown), " "@)
}

impl PositionAnalysis {
    /// An analysis with no best move, a level evaluation and no figures.
    pub fn empty() -> (r: PositionAnalysis)
        ensures
            r@ == empty_analysis(),
    {
        let r = PositionAnalysis {
            best_move: String::new(),
            evaluation: Evaluation::Centipawns(0),
            depth: 0,
            pv: Vec::new(),
            time_ms: 0,
            nodes: 0,
        };
        assert(r@.pv =~= Seq::<Seq<char>>::empty());
        r
    }

    /// A brief summary: `Eval: +0.30 | Best: e2e4 | Depth: 12 | PV: e2e4 e7e5`.
    pub fn summary(&self) -> (r: String)
        ensures
            r@ == summary_text(self@),
    {
        let mut s = String::from_str("Eval: ");
        let eval = self.evaluation.to_text();
        s.append(eval.as_str());
        s.append(" | Best: ");
        s.append(self.best_move.as_str());
        s.append(" | Depth: ");
        let depth = decimal_text(self.depth as u64);
        s.append(depth.as_str());
        s.append(" | PV: ");
        let line = join_text(self.pv.as_slice(), 5, " ");
        s.append(line.as_str());
        s
    }
}

} // verus!
