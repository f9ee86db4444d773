//! Mistake categories and the findings produced for a game.

use vstd::prelude::*;
use crate::analysis::Evaluation;
use crate::board::Role;
use crate::text::{decimal, decimal_text};

verus! {

/// The centipawn loss from which a move counts as an inaccuracy.
pub const INACCURACY_THRESHOLD: i32 = 50;

/// The centipawn loss from which a move counts as a mistake.
pub const MISTAKE_THRESHOLD: i32 = 100;

/// The centipawn loss from which a move counts as a blunder.
pub const BLUNDER_THRESHOLD: i32 = 300;

/// How bad a move was.
#[derive(Debug, Clone, Copy, PartialEq, Eq, Structural)]
pub enum Severity {
    /// A loss of at least 300 centipawns.
    Blunder,
    /// A loss of at least 100 centipawns.
    Mistake,
    /// A loss of at least 50 centipawns.
    Inaccuracy,
}

/// The severity that a centipawn loss earns, if any.
pub open spec fn severity_of(cp_loss: int) -> Option<Severity> {
    if cp_loss >= 300 {
        Some(Severity::Blunder)
    } else if cp_loss >= 100 {
        Some(Severity::Mistake)
    } else if cp_loss >= 50 {
        Some(Severity::Inaccuracy)
    } else {
        None
    }
}

/// A centipawn loss earns exactly one grade by its band: blunder from 300,
/// mistake from 100 below 300, inaccuracy from 50 below 100, none below 50.
pub proof fn lemma_severity_bands(l: int)
    ensures
        severity_of(l) == Some(Severity::Blunder) <==> l >= 300,
        severity_of(l) == Some(Severity::Mistake) <==> 100 <= l < 300,
        severity_of(l) == Some(Severity::Inaccuracy) <==> 50 <= l < 100,
        severity_of(l) is None <==> l < 50,
{
}

pub open spec fn severity_name(s: Severity) -> Seq<char> {
    match s {
        Severity::Blunder => "blunder"@,
        Severity::Mistake => "mistake"@,
        Severity::Inaccuracy => "inaccuracy"@,
    }
}

impl Severity {
    /// Grades a centipawn loss: blunder from 300, mistake from 100,
    /// inaccuracy from 50, nothing below.
    pub fn from_cp_loss(cp_loss: i32) -> (r: Option<Severity>)
        ensures
            r == severity_of(cp_loss as int),
            r == Some(Severity::Blunder) <==> cp_loss >= 300,
            r == Some(Severity::Mistake) <==> 100 <= cp_loss < 300,
            r == Some(Severity::Inaccuracy) <==> 50 <= cp_loss < 100,
            r is None <==> cp_loss < 50,
    {
        if cp_loss >= BLUNDER_THRESHOLD {
            Some(Severity::Blunder)
        } else if cp_loss >= MISTAKE_THRESHOLD {
            Some(Severity::Mistake)
        } else if cp_loss >= INACCURACY_THRESHOLD {
            Some(Severity::Inaccuracy)
        } else {
            None
        }
    }

    /// The lower-case name: `blunder`, `mistake`, `inaccuracy`.
    pub fn as_str(&self) -> (r: &'static str)
        ensures
            r@ == severity_name(*self),
    {
        match self {
            Severity::Blunder => "blunder",
            Severity::Mistake => "mistake",
            Severity::Inaccuracy => "inaccuracy",
        }
    }
}

/// A kind of mistake. Only the material, phase and generic labels are ever
/// assigned; the tactical ones are kept for finer classifiers.
#[derive(Debug, Clone, Copy, PartialEq, Eq, Structural)]
pub enum PatternType {
    HangingPiece,
    MissedFork,
    MissedPin,
    MissedSkewer,
    MissedBackRank,
    MissedDiscoveredAttack,
    AllowedFork,
    AllowedPin,
    AllowedBackRank,
    QueenBlunder,
    RookBlunder,
    MinorPieceBlunder,
    BadTrade,
    WeakeningMove,
    OpeningInaccuracy,
    EndgameError,
    TacticalMiss,
    Unknown,
}

pub open spec fn pattern_key(p: PatternType) -> Seq<char> {
    match p {
        PatternType::HangingPiece => "hanging_piece"@,
        PatternType::MissedFork => "missed_fork"@,
        PatternType::MissedPin => "missed_pin"@,
        PatternType::MissedSkewer => "missed_skewer"@,
        PatternType::MissedBackRank => "missed_back_rank"@,
        PatternType::MissedDiscoveredAttack => "missed_discovered_attack"@,
        PatternType::AllowedFork => "allowed_fork"@,
        PatternType::AllowedPin => "allowed_pin"@,
        PatternType::AllowedBackRank => "allowed_back_rank"@,
        PatternType::QueenBlunder => "queen_blunder"@,
        PatternType::RookBlunder => "rook_blunder"@,
        PatternType::MinorPieceBlunder => "minor_piece_blunder"@,
        PatternType::BadTrade => "bad_trade"@,
        PatternType::WeakeningMove => "weakening_move"@,
        PatternType::OpeningInaccuracy => "opening_inaccuracy"@,
        PatternType::EndgameError => "endgame_error"@,
        PatternType::TacticalMiss => "tactical_miss"@,
        PatternType::Unknown => "unknown"@,
    }
}

pub open spec fn pattern_title(p: PatternType) -> Seq<char> {
    match p {
        PatternType::HangingPiece => "Hanging Piece"@,
        PatternType::MissedFork => "Missed Fork"@,
        PatternType::MissedPin => "Missed Pin"@,
        PatternType::MissedSkewer => "Missed Skewer"@,
        PatternType::MissedBackRank => "Missed Back Rank"@,
        PatternType::MissedDiscoveredAttack => "Missed Discovered Attack"@,
        PatternType::AllowedFork => "Allowed Fork"@,
        PatternType::AllowedPin => "Allowed Pin"@,
        PatternType::AllowedBackRank => "Allowed Back Rank"@,
        PatternType::QueenBlunder => "Queen Blunder"@,
        PatternType::RookBlunder => "Rook Blunder"@,
        PatternType::MinorPieceBlunder => "Minor Piece Blunder"@,
        PatternType::BadTrade => "Bad Trade"@,
        PatternType::WeakeningMove => "Weakening Move"@,
        PatternType::OpeningInaccuracy => "Opening Inaccuracy"@,
        PatternType::EndgameError => "Endgame Error"@,
        PatternType::TacticalMiss => "Tactical Miss"@,
        PatternType::Unknown => "Unknown"@,
    }
}

impl PatternType {
    /// The snake-case key, such as `queen_blunder`.
    pub fn as_str(&self) -> (r: &'static str)
        ensures
            r@ == pattern_key(*self),
    {
        match self {
            PatternType::HangingPiece => "hanging_piece",
            PatternType::MissedFork => "missed_fork",
            PatternType::MissedPin => "missed_pin",
            PatternType::MissedSkewer => "missed_skewer",
            PatternType::MissedBackRank => "missed_back_rank",
            PatternType::MissedDiscoveredAttack => "missed_discovered_attack",
            PatternType::AllowedFork => "allowed_fork",
            PatternType::AllowedPin => "allowed_pin",
            PatternType::AllowedBackRank => "allowed_back_rank",
            PatternType::QueenBlunder => "queen_blunder",
            PatternType::RookBlunder => "rook_blunder",
            PatternType::MinorPieceBlunder => "minor_piece_blunder",
            PatternType::BadTrade => "bad_trade",
            PatternType::WeakeningMove => "weakening_move",
            PatternType::OpeningInaccuracy => "opening_inaccuracy",
            PatternType::EndgameError => "endgame_error",
            PatternType::TacticalMiss => "tactical_miss",
            PatternType::Unknown => "unknown",
        }
    }

    /// The title shown to people, such as `Queen Blunder`.
    pub fn display_name(&self) -> (r: &'static str)
        ensures
            r@ == pattern_title(*self),
    {
        match self {
            PatternType::HangingPiece => "Hanging Piece",
            PatternType::MissedFork => "Missed Fork",
            PatternType::MissedPin => "Missed Pin",
            PatternType::MissedSkewer => "Missed Skewer",
            PatternType::MissedBackRank => "Missed Back Rank",
            PatternType::MissedDiscoveredAttack => "Missed Discovered Attack",
            PatternType::AllowedFork => "Allowed Fork",
            PatternType::AllowedPin => "Allowed Pin",
            PatternType::AllowedBackRank => "Allowed Back Rank",
            PatternType::QueenBlunder => "Queen Blunder",
            PatternType::RookBlunder => "Rook Blunder",
            PatternType::MinorPieceBlunder => "Minor Piece Blunder",
            PatternType::BadTrade => "Bad Trade",
            PatternType::WeakeningMove => "Weakening Move",
            PatternType::OpeningInaccuracy => "Opening Inaccuracy",
            PatternType::EndgameError => "Endgame Error",
            PatternType::TacticalMiss => "Tactical Miss",
            PatternType::Unknown => "Unknown",
        }
    }
}

/// A move where the player fell short of the engine's choice.
#[derive(Debug, Clone)]
pub struct DetectedPattern {
    /// The full-move number, counting from 1.
    pub move_number: u16,
    /// The half-move index, counting from 0.
    pub ply: u16,
    pub pattern_type: PatternType,
    pub severity: Severity,
    /// The centipawns lost against the player's previous move; never negative.
    pub cp_loss: i32,
    /// The move played, as given (standard algebraic notation).
    pub player_move: String,
    /// The engine's move, in UCI notation.
    pub best_move: String,
    /// The position before the move.
    pub fen_before: String,
    /// The position after the move; empty until the move has been played.
    pub fen_after: String,
    pub description: String,
}

/// Counts of a player's mistakes over many games.
#[derive(Debug, Clone, Default)]
pub struct PatternSummary {
    pub total_games: u32,
    pub total_moves: u32,
    pub blunders: u32,
    pub mistakes: u32,
    pub inaccuracies: u32,
    pub patterns: Vec<PatternCount>,
}

/// How often one kind of mistake occurred and what it cost.
#[derive(Debug, Clone)]
pub struct PatternCount {
    pub pattern_type: PatternType,
    pub count: u32,
    pub total_cp_loss: i32,
}

/// The label of a mistake, in order of priority: a queen move losing 800 or
/// more, a rook move losing 400 or more, a bishop or knight move losing 400
/// or more; otherwise by the pieces on the board before the move, 28 or more
/// for the opening and 10 or fewer for the endgame.
pub open spec fn classify_spec(cp_loss: int, moved: Option<Role>, pieces: int) -> PatternType {
    if cp_loss >= 800 && moved == Some(Role::Queen) {
        PatternType::QueenBlunder
    } else if cp_loss >= 400 && moved == Some(Role::Rook) {
        PatternType::RookBlunder
    } else if cp_loss >= 400 && (moved == Some(Role::Bishop) || moved == Some(Role::Knight)) {
        PatternType::MinorPieceBlunder
    } else if pieces >= 28 {
        PatternType::OpeningInaccuracy
    } else if pieces <= 10 {
        PatternType::EndgameError
    } else {
        PatternType::TacticalMiss
    }
}

/// Labels a mistake from its centipawn loss, the piece moved (none for a
/// drop) and the number of pieces on the board before the move.
pub fn classify_pattern(cp_loss: i32, moved: Option<Role>, piece_count: usize) -> (r: PatternType)
    ensures
        r == classify_spec(cp_loss as int, moved, piece_count as int),
{
    if cp_loss >= 800 && moved == Some(Role::Queen) {
        return PatternType::QueenBlunder;
    }
    if cp_loss >= 400 {
        if moved == Some(Role::Rook) {
            return PatternType::RookBlunder;
        }
        if moved == Some(Role::Bishop) || moved == Some(Role::Knight) {
            return PatternType::MinorPieceBlunder;
        }
    }
    if piece_count >= 28 {
        return PatternType::OpeningInaccuracy;
    }
    if piece_count <= 10 {
        return PatternType::EndgameError;
    }
    PatternType::TacticalMiss
}

/// A heavy loss with the queen is always a queen blunder, and a loss from 400
/// below 800 with a rook always a rook blunder, whatever the board holds.
pub proof fn lemma_heavy_piece_labels(cp_loss: int, pieces: int)
    ensures
        cp_loss >= 800 ==> classify_spec(cp_loss, Some(Role::Queen), pieces) == PatternType::QueenBlunder,
        400 <= cp_loss < 800 ==> classify_spec(cp_loss, Some(Role::Rook), pieces) == PatternType::RookBlunder,
{
}

/// An evaluation as a signed centipawn number: a mate counts as 10000 for
/// the side that mates.
pub open spec fn signed_cp(e: Evaluation) -> int {
    match e {
        Evaluation::Centipawns(cp) => cp as int,
        Evaluation::Mate(m) => if m > 0 { 10000 } else { -10000 },
    }
}

/// The evaluation as the tracked player sees it: negated when the tracked
/// player has black, whichever side is to move.
pub open spec fn player_eval(e: Evaluation, tracked_white: bool) -> int {
    if tracked_white { signed_cp(e) } else { -signed_cp(e) }
}

/// The centipawns lost from one evaluation to the next: never negative, and
/// held at `i32::MAX` where the drop is larger.
pub open spec fn loss_between(previous: int, current: int) -> int {
    let d = previous - current;
    if d <= 0 {
        0
    } else if d > i32::MAX {
        i32::MAX as int
    } else {
        d
    }
}

/// The grade, loss and label given to one move of the tracked player.
#[derive(Debug, Clone, Copy, PartialEq, Eq, Structural)]
pub struct Verdict {
    pub cp_loss: i32,
    pub severity: Severity,
    pub pattern_type: PatternType,
}

/// What a tracked move earns: nothing when the engine named no move, when
/// the player found it, when there is no earlier evaluation of the player to
/// compare with, or when the loss is below an inaccuracy.
pub open spec fn verdict_of(
    previous: Option<int>,
    current: int,
    best_move: Seq<char>,
    played: Seq<char>,
    moved: Option<Role>,
    pieces: int,
) -> Option<Verdict> {
    if best_move.len() > 0 && best_move != played {
        match previous {
            Some(p) => {
                let loss = loss_between(p, current);
                match severity_of(loss) {
                    Some(s) => Some(
                        Verdict {
                            cp_loss: loss as i32,
                            severity: s,
                            pattern_type: classify_spec(loss, moved, pieces),
                        },
                    ),
                    None => None,
                }
            },
            None => None,
        }
    } else {
        None
    }
}

/// Converts the engine's evaluation to the tracked player's centipawns.
pub fn eval_for_player(evaluation: &Evaluation, tracked_white: bool) -> (r: i64)
    ensures
        r == player_eval(*evaluation, tracked_white),
{
    let v: i64 = match evaluation {
        Evaluation::Centipawns(cp) => *cp as i64,
        Evaluation::Mate(m) => if *m > 0 { 10000 } else { -10000 },
    };
    if tracked_white { v } else { -v }
}

/// Judges one move of the tracked player against the engine's best move.
/// `previous` is the player's evaluation at their previous tracked move,
/// `current` the one now; `played_uci` is the move in UCI notation.
pub fn judge_move(
    previous: Option<i64>,
    current: i64,
    best_move: &str,
    played_uci: &str,
    moved: Option<Role>,
    piece_count: usize,
) -> (r: Option<Verdict>)
    ensures
        r == verdict_of(
            match previous {
                Some(p) => Some(p as int),
                None => None,
            },
            current as int,
            best_move@,
            played_uci@,
            moved,
            piece_count as int,
        ),
{
    if best_move.unicode_len() == 0 || crate::text::same_text(best_move, played_uci) {
        return None;
    }
    match previous {
        Some(p) => {
            let d: i128 = (p as i128) - (current as i128);
            let loss: i32 = if d <= 0 {
                0
            } else if d > i32::MAX as i128 {
                i32::MAX
            } else {
                d as i32
            };
            match Severity::from_cp_loss(loss) {
                Some(s) => Some(
                    Verdict {
                        cp_loss: loss,
                        severity: s,
                        pattern_type: classify_pattern(loss, moved, piece_count),
                    },
                ),
                None => None,
            }
        },
        None => None,
    }
}

/// The text of a finding: `Move 12: played Qxd5 instead of e2e4 (-340 cp)`.
pub open spec fn description_text(move_number: nat, played: Seq<char>, best: Seq<char>, cp_loss: nat) -> Seq<char> {
    "Move "@ + decimal(move_number) + ": played "@ + played + " instead of "@ + best + " (-"@
        + decimal(cp_loss) + " cp)"@
}

/// Writes the text of a finding.
pub fn describe_finding(move_number: u16, played: &str, best: &str, cp_loss: i32) -> (r: String)
    requires
        cp_loss >= 0,
    ensures
        r@ == description_text(move_number as nat, played@, best@, cp_loss as nat),
{
    let mut s = String::from_str("Move ");
    let n = decimal_text(move_number as u64);
    s.append(n.as_str());
    s.append(": played ");
    s.append(played);
    s.append(" instead of ");
    s.append(best);
    s.append(" (-");
    let l = decimal_text(cp_loss as u64);
    s.append(l.as_str());
    s.append(" cp)");
    s
}

/// What the replay learns at one move of the tracked player.
pub struct TrackedPly {
    pub ply: int,
    pub evaluation: Evaluation,
    pub best_move: Seq<char>,
    pub played: Seq<char>,
    pub moved: Option<Role>,
    pub pieces: int,
}

/// The evaluation that the next tracked move is compared with: that of the
/// last tracked move, whether or not it earned a finding.
pub open spec fn baseline(plies: Seq<TrackedPly>, tracked_white: bool) -> Option<int> {
    if plies.len() == 0 {
        None
    } else {
        Some(player_eval(plies.last().evaluation, tracked_white))
    }
}

/// The verdict at the last of the tracked moves.
pub open spec fn last_verdict(plies: Seq<TrackedPly>, tracked_white: bool) -> Option<Verdict>
    recommends
        plies.len() > 0,
{
    let o = plies.last();
    verdict_of(
        baseline(plies.drop_last(), tracked_white),
        player_eval(o.evaluation, tracked_white),
        o.best_move,
        o.played,
        o.moved,
        o.pieces,
    )
}

/// The findings of a game, as pairs of ply and verdict, in order of play.
pub open spec fn findings(plies: Seq<TrackedPly>, tracked_white: bool) -> Seq<(int, Verdict)>
    decreases plies.len(),
{
    if plies.len() == 0 {
        seq![]
    } else {
        let before = findings(plies.drop_last(), tracked_white);
        match last_verdict(plies, tracked_white) {
            Some(v) => before.push((plies.last().ply, v)),
            None => before,
        }
    }
}

/// Every finding reports a loss of at least an inaccuracy, so never a
/// negative one.
pub proof fn lemma_findings_lose_something(plies: Seq<TrackedPly>, tracked_white: bool)
    ensures
        forall|i: int|
            0 <= i < findings(plies, tracked_white).len() ==> #[trigger] findings(plies, tracked_white)[i].1.cp_loss
                >= 50,
    decreases plies.len(),
{
    if plies.len() > 0 {
        lemma_findings_lose_something(plies.drop_last(), tracked_white);
    }
}

/// A game where every tracked move is the engine's best has no findings.
pub proof fn lemma_best_play_is_clean(plies: Seq<TrackedPly>, tracked_white: bool)
    requires
        forall|i: int| 0 <= i < plies.len() ==> #[trigger] plies[i].best_move == plies[i].played,
    ensures
        findings(plies, tracked_white).len() == 0,
    decreases plies.len(),
{
    if plies.len() > 0 {
        let before = plies.drop_last();
        assert forall|i: int| 0 <= i < before.len() implies #[trigger] before[i].best_move == before[i].played by {
            assert(before[i] == plies[i]);
        }
        lemma_best_play_is_clean(before, tracked_white);
        assert(plies.last() == plies[plies.len() - 1]);
    }
}

/// The first tracked move never earns a finding, since there is nothing to
/// compare it with; its evaluation becomes the baseline for the next one.
pub proof fn lemma_first_move_sets_baseline(first: TrackedPly, next: TrackedPly, tracked_white: bool)
    ensures
        findings(seq![first], tracked_white).len() == 0,
        baseline(seq![first], tracked_white) == Some(player_eval(first.evaluation, tracked_white)),
        findings(seq![first, next], tracked_white) == match verdict_of(
            Some(player_eval(first.evaluation, tracked_white)),
            player_eval(next.evaluation, tracked_white),
            next.best_move,
            next.played,
            next.moved,
            next.pieces,
        ) {
            Some(v) => seq![(next.ply, v)],
            None => Seq::<(int, Verdict)>::empty(),
        },
{
    let one = seq![first];
    let two = seq![first, next];
    assert(one.drop_last() =~= Seq::<TrackedPly>::empty());
    assert(two.drop_last() =~= one);
    assert(findings(Seq::<TrackedPly>::empty(), tracked_white) =~= Seq::<(int, Verdict)>::empty());
    assert(findings(one, tracked_white) =~= Seq::<(int, Verdict)>::empty());
    match last_verdict(two, tracked_white) {
        Some(v) => {
            assert(findings(two, tracked_white) =~= seq![(next.ply, v)]);
        },
        None => {},
    }
}

/// Findings come only from the tracked moves seen: where all of them lie
/// before ply `k`, so do all findings.
pub proof fn lemma_findings_before(plies: Seq<TrackedPly>, tracked_white: bool, k: int)
    requires
        forall|i: int| 0 <= i < plies.len() ==> #[trigger] plies[i].ply < k,
    ensures
        forall|i: int|
            0 <= i < findings(plies, tracked_white).len() ==> #[trigger] findings(plies, tracked_white)[i].0 < k,
    decreases plies.len(),
{
    if plies.len() > 0 {
        let before = plies.drop_last();
        assert forall|i: int| 0 <= i < before.len() implies #[trigger] before[i].ply < k by {
            assert(before[i] == plies[i]);
        }
        lemma_findings_before(before, tracked_white, k);
        assert(plies.last() == plies[plies.len() - 1]);
        let f = findings(plies, tracked_white);
        let fb = findings(before, tracked_white);
        match last_verdict(plies, tracked_white) {
            Some(v) => {
                assert(f == fb.push((plies.last().ply, v)));
                assert forall|i: int| 0 <= i < f.len() implies #[trigger] f[i].0 < k by {
                    if i < fb.len() {
                        assert(f[i] == fb[i]);
                    }
                }
            },
            None => {},
        }
    }
}

} // verus!
