//! Replaying a game move by move and judging the tracked player's moves.
//!
//! A `GameReview` walks the move list over the board. At each move of the
//! tracked player it stops and hands out the position to be analysed; the
//! caller has the engine analyse it and returns the analysis, from which the
//! review judges the move and goes on. A move that cannot be read or played
//! ends the replay, keeping the findings made before it.

use vstd::prelude::*;
use crate::analysis::PositionAnalysis;
use crate::board::{
    fen_of, last_move, mover_of, move_to_uci, moved_piece, occupied_count, pieces_after,
    play_san, played, position_fen, replays, san_move, uci_text, Board, ChessMove,
};
use crate::patterns::{
    baseline, describe_finding, description_text, eval_for_player, findings, judge_move,
    last_verdict, DetectedPattern, TrackedPly, Verdict,
};
use crate::text::{eq_ignore_ascii_case, eq_ignore_ascii_case_spec, views};

verus! {

/// A tracked move that has been played and waits for the engine's analysis
/// of the position before it.
struct PendingMove {
    model: ChessMove,
    fen_before: String,
    pieces: usize,
}

/// The ply and verdict that a finding records.
pub open spec fn finding_key(p: DetectedPattern) -> (int, Verdict) {
    (p.ply as int, Verdict { cp_loss: p.cp_loss, severity: p.severity, pattern_type: p.pattern_type })
}

/// A finding agrees with the game's moves: its move number, the move as
/// given, the positions before and after it, and its text.
pub open spec fn consistent_finding(moves: Seq<Seq<char>>, f: DetectedPattern) -> bool {
    &&& 0 <= f.ply < moves.len()
    &&& f.move_number == f.ply / 2 + 1
    &&& f.player_move@ == moves[f.ply as int]
    &&& f.fen_before@ == position_fen(moves.take(f.ply as int))
    &&& f.fen_after@ == position_fen(moves.take(f.ply + 1))
    &&& f.description@ == description_text(
        f.move_number as nat,
        f.player_move@,
        f.best_move@,
        f.cp_loss as nat,
    )
}

/// Whether the move at `ply` is the tracked player's: even plies are white's.
pub open spec fn is_tracked(ply: int, tracked_white: bool) -> bool {
    (ply % 2 == 0) == tracked_white
}

/// The first ply of the tracked player.
pub open spec fn first_tracked(tracked_white: bool) -> int {
    if tracked_white { 0 } else { 1 }
}

proof fn lemma_take_next(moves: Seq<String>, q: int)
    requires
        0 <= q < moves.len(),
    ensures
        views(moves).take(q + 1) == views(moves).take(q).push(moves[q]@),
{
    assert(views(moves).take(q + 1) =~= views(moves).take(q).push(moves[q]@));
}

/// The replay of one game for one player.
pub struct GameReview {
    moves: Vec<String>,
    tracked_white: bool,
    board: Board,
    ply: usize,
    previous: Option<i64>,
    patterns: Vec<DetectedPattern>,
    pending: Option<PendingMove>,
    finished: bool,
    seen: Ghost<Seq<TrackedPly>>,
}

impl GameReview {
    /// The moves of the game, in standard algebraic notation.
    pub closed spec fn move_list(&self) -> Seq<Seq<char>> {
        views(self.moves@)
    }

    /// Whether the tracked player has white.
    pub closed spec fn tracks_white(&self) -> bool {
        self.tracked_white
    }

    /// The number of plies dealt with so far.
    pub closed spec fn plies_done(&self) -> int {
        self.ply as int
    }

    /// What was learnt at each tracked move dealt with, in order.
    pub closed spec fn plies_seen(&self) -> Seq<TrackedPly> {
        self.seen@
    }

    /// The findings so far, in order.
    pub closed spec fn findings_made(&self) -> Seq<DetectedPattern> {
        self.patterns@
    }

    /// The ply and verdict of each finding so far, in order.
    pub open spec fn finding_keys(&self) -> Seq<(int, Verdict)> {
        self.findings_made().map_values(|p: DetectedPattern| finding_key(p))
    }

    /// Whether a position is out for analysis.
    pub closed spec fn awaiting(&self) -> bool {
        self.pending is Some
    }

    /// Whether the replay is over.
    pub closed spec fn finished(&self) -> bool {
        self.finished
    }

    /// The review is consistent: the board holds the moves dealt with (and
    /// the one out for analysis), the tracked moves seen are exactly those
    /// before the current ply, the findings are those they earn and agree
    /// with the moves, the baseline is the last evaluation seen, and a
    /// finished replay ended at the end of the game or at a move that does
    /// not play.
    pub closed spec fn wf(&self) -> bool {
        let p = first_tracked(self.tracked_white);
        let seen = self.seen@;
        let moves = views(self.moves@);
        &&& self.moves@.len() <= 0xffff
        &&& self.ply <= self.moves@.len()
        &&& replays(played(self.board))
        &&& forall|q: int| 0 <= q <= self.ply ==> #[trigger] replays(moves.take(q))
        &&& played(self.board) == moves.take(self.ply + if self.pending is Some { 1int } else { 0int })
        &&& (self.finished ==> self.pending is None && (self.ply == self.moves@.len() || !replays(
            moves.take(self.ply + 1),
        )))
        &&& seen.len() == (self.ply + 1 - p) / 2
        &&& forall|j: int| 0 <= j < seen.len() ==> (#[trigger] seen[j]).ply == 2 * j + p
        &&& self.previous == match baseline(seen, self.tracked_white) {
            Some(b) => Some(b as i64),
            None => None::<i64>,
        }
        &&& self.patterns@.map_values(|q: DetectedPattern| finding_key(q)) == findings(
            seen,
            self.tracked_white,
        )
        &&& forall|i: int| 0 <= i < self.patterns@.len() ==> consistent_finding(moves, #[trigger] self.patterns@[i])
        &&& (self.pending matches Some(m) ==> {
            &&& !self.finished
            &&& self.ply < self.moves@.len()
            &&& is_tracked(self.ply as int, self.tracked_white)
            &&& m.model.wf()
            &&& m.model == san_move(moves.take(self.ply + 1))
            &&& m.pieces == pieces_after(moves.take(self.ply as int))
            &&& m.pieces <= 64
            &&& m.fen_before@ == position_fen(moves.take(self.ply as int))
        })
    }

    /// Starts the review of a game for the player `username`, who has white
    /// when the name equals `white_player` up to ASCII case.
    pub fn new(moves: Vec<String>, username: &str, white_player: &str) -> (r: GameReview)
        requires
            moves@.len() <= 0xffff,
        ensures
            r.wf(),
            r.move_list() == views(moves@),
            r.tracks_white() == eq_ignore_ascii_case_spec(username@, white_player@),
            r.plies_done() == 0,
            r.plies_seen().len() == 0,
            r.findings_made().len() == 0,
            !r.awaiting(),
            !r.finished(),
    {
        let tracked_white = eq_ignore_ascii_case(username, white_player);
        let r = GameReview {
            moves,
            tracked_white,
            board: Board::new(),
            ply: 0,
            previous: None,
            patterns: Vec::new(),
            pending: None,
            finished: false,
            seen: Ghost(Seq::empty()),
        };
        assert(views(r.moves@).take(0) =~= Seq::<Seq<char>>::empty());
        assert(r.patterns@.map_values(|q: DetectedPattern| finding_key(q)) =~= Seq::<(int, Verdict)>::empty());
        r
    }

    /// Whether the tracked player has white.
    pub fn tracked_white(&self) -> (r: bool)
        ensures
            r == self.tracks_white(),
    {
        self.tracked_white
    }

    /// The number of plies dealt with so far.
    pub fn ply(&self) -> (r: usize)
        ensures
            r == self.plies_done(),
    {
        self.ply
    }

    /// Whether the replay is over.
    pub fn is_finished(&self) -> (r: bool)
        ensures
            r == self.finished(),
    {
        self.finished
    }

    /// The tracked player's evaluation at their last tracked move, against
    /// which the next one is judged.
    pub fn baseline(&self) -> (r: Option<i64>)
        requires
            self.wf(),
        ensures
            r == match baseline(self.plies_seen(), self.tracks_white()) {
                Some(b) => Some(b as i64),
                None => None::<i64>,
            },
    {
        self.previous
    }

    /// The findings so far, in order of play.
    pub fn patterns(&self) -> (r: &Vec<DetectedPattern>)
        requires
            self.wf(),
        ensures
            r@ == self.findings_made(),
            r@.map_values(|p: DetectedPattern| finding_key(p)) == findings(self.plies_seen(), self.tracks_white()),
            forall|i: int| 0 <= i < r@.len() ==> consistent_finding(self.move_list(), #[trigger] r@[i]),
    {
        &self.patterns
    }

    /// Ends the review and hands over its findings.
    pub fn into_patterns(self) -> (r: Vec<DetectedPattern>)
        requires
            self.wf(),
        ensures
            r@ == self.findings_made(),
            r@.map_values(|p: DetectedPattern| finding_key(p)) == findings(self.plies_seen(), self.tracks_white()),
            forall|i: int| 0 <= i < r@.len() ==> consistent_finding(self.move_list(), #[trigger] r@[i]),
    {
        self.patterns
    }

    /// Plays the moves of the other side up to the tracked player's next
    /// move, plays that move too, and returns the FEN of the position before
    /// it, to be analysed. Returns `None` when the game is over, or a move
    /// cannot be read or is not legal; the replay is then finished, at the
    /// end of the game or at the first move that does not play.
    pub fn next_position(&mut self) -> (r: Option<String>)
        requires
            old(self).wf(),
            !old(self).awaiting(),
        ensures
            final(self).wf(),
            final(self).move_list() == old(self).move_list(),
            final(self).tracks_white() == old(self).tracks_white(),
            final(self).plies_seen() == old(self).plies_seen(),
            final(self).findings_made() == old(self).findings_made(),
            final(self).plies_done() >= old(self).plies_done(),
            forall|q: int|
                old(self).plies_done() <= q < final(self).plies_done() ==> !is_tracked(
                    q,
                    old(self).tracks_white(),
                ),
            forall|q: int|
                0 <= q <= final(self).plies_done() ==> #[trigger] replays(final(self).move_list().take(q)),
            r is Some <==> final(self).awaiting(),
            r is Some ==> {
                &&& !final(self).finished()
                &&& final(self).plies_done() < final(self).move_list().len()
                &&& is_tracked(final(self).plies_done(), final(self).tracks_white())
                &&& replays(final(self).move_list().take(final(self).plies_done() + 1))
                &&& r->Some_0@ == position_fen(final(self).move_list().take(final(self).plies_done()))
            },
            r is None ==> {
                &&& final(self).finished()
                &&& final(self).plies_done() == final(self).move_list().len() || !replays(
                    final(self).move_list().take(final(self).plies_done() + 1),
                )
            },
            old(self).finished() ==> r is None && final(self).plies_done() == old(self).plies_done(),
    {
        if self.finished {
            return None;
        }
        let ghost p = first_tracked(self.tracked_white);
        while self.ply < self.moves.len()
            invariant
                self.wf(),
                !self.finished,
                !old(self).finished,
                self.pending is None,
                self.moves == old(self).moves,
                self.tracked_white == old(self).tracked_white,
                self.seen == old(self).seen,
                self.patterns == old(self).patterns,
                self.ply >= old(self).ply,
                forall|q: int| old(self).ply <= q < self.ply ==> !is_tracked(q, self.tracked_white),
                p == first_tracked(self.tracked_white),
            decreases self.moves@.len() - self.ply,
        {
            proof {
                lemma_take_next(self.moves@, self.ply as int);
            }
            if (self.ply % 2 == 0) == self.tracked_white {
                let fen_before = fen_of(&self.board);
                let pieces = occupied_count(&self.board);
                if play_san(&mut self.board, self.moves[self.ply].as_str()) {
                    let model = last_move(&self.board);
                    {
                        let handed = fen_before.clone();
                        self.pending = Some(PendingMove { model, fen_before, pieces });
                        return Some(handed);
                    }
                } else {
                    self.finished = true;
                    return None;
                }
            }
            if !play_san(&mut self.board, self.moves[self.ply].as_str()) {
                self.finished = true;
                return None;
            }
            proof {
                let q = self.ply as int;
                assert(!is_tracked(q, self.tracked_white));
                assert((q + 2 - p) / 2 == (q + 1 - p) / 2);
            }
            self.ply = self.ply + 1;
        }
        self.finished = true;
        None
    }

    /// Takes the engine's analysis of the position handed out by
    /// `next_position` and judges the tracked move against it. The judgement
    /// is `verdict_of` the baseline, the new evaluation as the player sees
    /// it, the engine's best move and the move played; a finding is recorded
    /// where it gives one, and the new evaluation becomes the baseline either
    /// way.
    pub fn record_analysis(&mut self, analysis: &PositionAnalysis)
        requires
            old(self).wf(),
            old(self).awaiting(),
        ensures
            final(self).wf(),
            !final(self).awaiting(),
            !final(self).finished(),
            final(self).move_list() == old(self).move_list(),
            final(self).tracks_white() == old(self).tracks_white(),
            final(self).plies_done() == old(self).plies_done() + 1,
            final(self).plies_seen().len() == old(self).plies_seen().len() + 1,
            final(self).plies_seen().drop_last() == old(self).plies_seen(),
            final(self).plies_seen().last() == (TrackedPly {
                ply: old(self).plies_done(),
                evaluation: analysis.evaluation,
                best_move: analysis.best_move@,
                played: uci_text(san_move(old(self).move_list().take(old(self).plies_done() + 1))),
                moved: mover_of(san_move(old(self).move_list().take(old(self).plies_done() + 1))),
                pieces: pieces_after(old(self).move_list().take(old(self).plies_done())),
            }),
            final(self).finding_keys() == match last_verdict(final(self).plies_seen(), final(self).tracks_white()) {
                Some(v) => old(self).finding_keys().push((old(self).plies_done(), v)),
                None => old(self).finding_keys(),
            },
            final(self).findings_made() == match last_verdict(final(self).plies_seen(), final(self).tracks_white()) {
                Some(v) => old(self).findings_made().push(final(self).findings_made().last()),
                None => old(self).findings_made(),
            },
            last_verdict(final(self).plies_seen(), final(self).tracks_white()) is Some
                ==> final(self).findings_made().last().best_move@ == analysis.best_move@,
    {
        let pending = self.pending.take().unwrap();
        let ply = self.ply;
        let ghost p = first_tracked(self.tracked_white);
        let ghost old_seen = self.seen@;
        let ghost moves = views(self.moves@);
        let current = eval_for_player(&analysis.evaluation, self.tracked_white);
        let played_uci = move_to_uci(&pending.model);
        let moved = moved_piece(&pending.model);
        let verdict = judge_move(
            self.previous,
            current,
            analysis.best_move.as_str(),
            played_uci.as_str(),
            moved,
            pending.pieces,
        );
        let ghost observed = TrackedPly {
            ply: ply as int,
            evaluation: analysis.evaluation,
            best_move: analysis.best_move@,
            played: uci_text(pending.model),
            moved: mover_of(pending.model),
            pieces: pending.pieces as int,
        };
        let ghost new_seen = old_seen.push(observed);
        proof {
            assert(new_seen.drop_last() =~= old_seen);
            assert(new_seen.last() == observed);
        }
        let fen_after = fen_of(&self.board);
        let ghost old_patterns = self.patterns@;
        match verdict {
            Some(v) => {
                let move_number: u16 = (ply / 2 + 1) as u16;
                let player_move = self.moves[ply].clone();
                let description = describe_finding(
                    move_number,
                    player_move.as_str(),
                    analysis.best_move.as_str(),
                    v.cp_loss,
                );
                self.patterns.push(
                    DetectedPattern {
                        move_number,
                        ply: ply as u16,
                        pattern_type: v.pattern_type,
                        severity: v.severity,
                        cp_loss: v.cp_loss,
                        player_move,
                        best_move: analysis.best_move.clone(),
                        fen_before: pending.fen_before,
                        fen_after,
                        description,
                    },
                );
                proof {
                    assert(self.patterns@.map_values(|q: DetectedPattern| finding_key(q)) =~= old_patterns.map_values(
                        |q: DetectedPattern| finding_key(q),
                    ).push((ply as int, v)));
                    assert(self.patterns@ =~= old_patterns.push(self.patterns@.last()));
                    assert(moves[ply as int] == self.moves@[ply as int]@);
                    assert forall|i: int| 0 <= i < self.patterns@.len() implies consistent_finding(
                        moves,
                        #[trigger] self.patterns@[i],
                    ) by {
                        if i < old_patterns.len() {
                            assert(self.patterns@[i] == old_patterns[i]);
                        }
                    }
                }
            },
            None => {},
        }
        self.previous = Some(current);
        self.seen = Ghost(new_seen);
        proof {
            let q = ply as int;
            assert(is_tracked(q, self.tracked_white));
            assert((q + 2 - p) / 2 == (q + 1 - p) / 2 + 1);
            assert(q == 2 * old_seen.len() + p);
            assert forall|j: int| 0 <= j < new_seen.len() implies (#[trigger] new_seen[j]).ply == 2 * j + p by {
                if j < old_seen.len() {
                    assert(new_seen[j] == old_seen[j]);
                }
            }
            assert(self.patterns@.map_values(|q: DetectedPattern| finding_key(q)) == findings(
                new_seen,
                self.tracked_white,
            ));
        }
        self.ply = self.ply + 1;
    }
}

/// Converts a game's moves from standard algebraic notation to UCI
/// notation by replaying them from the initial position; stops at the first
/// move that cannot be read or played.
pub fn convert_san_to_uci(san_moves: &[String]) -> (r: Vec<String>)
    ensures
        r@.len() <= san_moves@.len(),
        replays(views(san_moves@).take(r@.len() as int)),
        r@.len() < san_moves@.len() ==> !replays(views(san_moves@).take(r@.len() as int + 1)),
        forall|i: int|
            0 <= i < r@.len() ==> #[trigger] r@[i]@ == uci_text(san_move(views(san_moves@).take(i + 1))),
{
    let mut board = Board::new();
    let mut uci_moves: Vec<String> = Vec::new();
    let mut i: usize = 0;
    assert(views(san_moves@).take(0) =~= Seq::<Seq<char>>::empty());
    while i < san_moves.len()
        invariant
            i <= san_moves@.len(),
            uci_moves@.len() == i,
            played(board) == views(san_moves@).take(i as int),
            replays(played(board)),
            forall|k: int|
                0 <= k < uci_moves@.len() ==> #[trigger] uci_moves@[k]@ == uci_text(
                    san_move(views(san_moves@).take(k + 1)),
                ),
        decreases san_moves@.len() - i,
    {
        proof {
            lemma_take_next(san_moves@, i as int);
        }
        if !play_san(&mut board, san_moves[i].as_str()) {
            return uci_moves;
        }
        let model = last_move(&board);
        let text = move_to_uci(&model);
        let ghost before = uci_moves@;
        uci_moves.push(text);
        proof {
            assert forall|k: int|
                0 <= k < uci_moves@.len() implies #[trigger] uci_moves@[k]@ == uci_text(
                    san_move(views(san_moves@).take(k + 1)),
                ) by {
                if k < before.len() {
                    assert(uci_moves@[k] == before[k]);
                }
            }
        }
        i = i + 1;
    }
    assert(views(san_moves@).take(i as int) =~= views(san_moves@).take(uci_moves@.len() as int));
    uci_moves
}

/// A review that has reached ply `k` has played the moves before `k`; once
/// finished, `k` is the end of the game or the first move that cannot be
/// read or played. It has seen exactly the tracked player's moves before
/// `k`, and all its findings lie before `k`.
pub proof fn lemma_review_stops_at_ply(r: &GameReview)
    requires
        r.wf(),
    ensures
        forall|q: int| 0 <= q <= r.plies_done() ==> #[trigger] replays(r.move_list().take(q)),
        r.finished() ==> r.plies_done() == r.move_list().len() || !replays(
            r.move_list().take(r.plies_done() + 1),
        ),
        forall|j: int|
            0 <= j < r.plies_seen().len() ==> {
                let q = (#[trigger] r.plies_seen()[j]).ply;
                0 <= q < r.plies_done() && is_tracked(q, r.tracks_white())
            },
        forall|q: int|
            0 <= q < r.plies_done() && is_tracked(q, r.tracks_white()) ==> exists|j: int|
                0 <= j < r.plies_seen().len() && #[trigger] r.plies_seen()[j].ply == q,
        forall|i: int|
            0 <= i < r.finding_keys().len() ==> #[trigger] r.finding_keys()[i].0 < r.plies_done(),
{
    let p = first_tracked(r.tracked_white);
    let seen = r.seen@;
    assert forall|j: int| 0 <= j < seen.len() implies {
        let q = (#[trigger] seen[j]).ply;
        0 <= q < r.ply && is_tracked(q, r.tracked_white)
    } by {
        assert(seen[j].ply == 2 * j + p);
    }
    assert forall|q: int| 0 <= q < r.ply && is_tracked(q, r.tracked_white) implies exists|j: int|
        0 <= j < seen.len() && #[trigger] seen[j].ply == q by {
        let j = (q - p) / 2;
        assert(seen[j].ply == 2 * j + p);
    }
    crate::patterns::lemma_findings_before(seen, r.tracked_white, r.ply as int);
}

} // verus!
