//! Stored records and training drill types: games and findings as kept, the
//! figures of training sessions, and the positions for visualisation drills.

use vstd::prelude::*;

verus! {

/// A game as stored.
#[derive(Debug, Clone)]
pub struct StoredGame {
    pub id: i64,
    pub lichess_id: String,
    pub white_username: String,
    pub black_username: String,
    pub white_rating: Option<u16>,
    pub black_rating: Option<u16>,
    pub result: String,
    pub speed: String,
    pub rated: bool,
    pub opening_eco: Option<String>,
    pub opening_name: Option<String>,
    pub moves: String,
    pub pgn: Option<String>,
    pub analyzed: bool,
    pub played_at: u64,
    pub created_at: u64,
}

/// A finding as stored.
#[derive(Debug, Clone)]
pub struct StoredPattern {
    pub id: i64,
    pub game_id: i64,
    pub move_number: u16,
    pub pattern_type: String,
    pub subtype: Option<String>,
    pub severity: String,
    pub centipawn_loss: Option<i32>,
    pub position_fen: String,
    pub description: String,
    pub created_at: u64,
}

/// The user's settings.
#[derive(Debug, Clone)]
pub struct UserSettings {
    pub id: i64,
    pub lichess_username: String,
    pub lichess_token: Option<String>,
    pub games_synced_at: Option<u64>,
    pub created_at: u64,
}

/// The figures of one kind of training.
#[derive(Debug, Clone, Copy)]
pub struct TrainingStats {
    pub today_attempts: u32,
    pub today_correct: u32,
    pub total_attempts: u32,
    pub total_correct: u32,
    pub total_time_ms: u64,
    pub best_time_ms: Option<u64>,
    pub streak: u32,
}

/// The share of correct attempts in whole percent, rounded down; 0 before
/// any attempt.
pub open spec fn accuracy_percent(correct: int, attempts: int) -> int {
    if attempts == 0 {
        0
    } else if (100 * correct) / attempts > u32::MAX {
        u32::MAX as int
    } else {
        (100 * correct) / attempts
    }
}

impl TrainingStats {
    /// The share of correct attempts in whole percent, rounded down; 0
    /// before any attempt.
    pub fn accuracy(&self) -> (r: u32)
        ensures
            r == accuracy_percent(self.total_correct as int, self.total_attempts as int),
    {
        if self.total_attempts == 0 {
            0
        } else {
            let p: u64 = (100 * (self.total_correct as u64)) / (self.total_attempts as u64);
            if p > u32::MAX as u64 {
                u32::MAX
            } else {
                p as u32
            }
        }
    }
}

/// The figures of all kinds of training.
#[derive(Debug, Clone, Copy)]
pub struct AllTrainingStats {
    pub coordinates: TrainingStats,
    pub visualization: TrainingStats,
    pub openings: TrainingStats,
    pub today_total: u32,
    pub all_time_total: u32,
    pub overall_accuracy: u32,
    pub max_streak: u32,
}

/// What a coordinate drill asks.
#[derive(Debug, Clone, Copy, PartialEq, Eq, Structural)]
pub enum CoordinateMode {
    NameToSquare,
    SquareToName,
    SquareColor,
}

/// The outcome of one move of an opening drill.
#[derive(Debug, Clone)]
pub struct DrillResult {
    pub line_name: String,
    pub move_number: u16,
    pub expected: String,
    pub played: String,
    pub correct: bool,
}

/// How far a repertoire has been learnt.
#[derive(Debug, Clone, Copy)]
pub struct RepertoireSummary {
    pub total_lines: u32,
    pub mastered: u32,
    pub learning: u32,
    pub struggling: u32,
    pub not_started: u32,
}

/// What a visualisation drill asks.
#[derive(Debug, Clone, Copy, PartialEq, Eq, Structural)]
pub enum VisualizationType {
    PieceOnSquare,
    FindPiece,
    IsAttacked,
}

/// How hard a drill is.
#[derive(Debug, Clone, Copy, PartialEq, Eq, Structural)]
pub enum Difficulty {
    Beginner,
    Intermediate,
    Advanced,
}

/// One question of a visualisation drill.
#[derive(Debug, Clone)]
pub struct VisualizationQuestion {
    pub fen: String,
    pub question: String,
    pub correct_answer: String,
    pub options: Option<Vec<String>>,
    pub show_board_for_ms: u64,
}

/// The positions, as FEN, that drills of a difficulty use.
pub open spec fn positions_for(difficulty: Difficulty) -> Seq<Seq<char>> {
    match difficulty {
        Difficulty::Beginner => seq![
            "rnbqkbnr/pppppppp/8/8/8/8/PPPPPPPP/RNBQKBNR w KQkq - 0 1"@,
            "rnbqkbnr/pppppppp/8/8/4P3/8/PPPP1PPP/RNBQKBNR b KQkq - 0 1"@,
            "rnbqkbnr/pppp1ppp/8/4p3/4P3/8/PPPP1PPP/RNBQKBNR w KQkq - 0 2"@,
            "rnbqkbnr/pppp1ppp/8/4p3/4P3/5N2/PPPP1PPP/RNBQKB1R b KQkq - 1 2"@,
        ],
        Difficulty::Intermediate => seq![
            "r1bqkbnr/pppp1ppp/2n5/4p3/4P3/5N2/PPPP1PPP/RNBQKB1R w KQkq - 2 3"@,
            "rnbqkb1r/pppp1ppp/5n2/4p3/2B1P3/5N2/PPPP1PPP/RNBQK2R b KQkq - 3 3"@,
            "r1bqkbnr/pppp1ppp/2n5/1B2p3/4P3/5N2/PPPP1PPP/RNBQK2R b KQkq - 3 3"@,
        ],
        Difficulty::Advanced => seq![
            "r1bq1rk1/ppp2ppp/2np1n2/2b1p3/2B1P3/2NP1N2/PPP2PPP/R1BQ1RK1 w - - 0 7"@,
            "r2qkb1r/ppp2ppp/2n1bn2/3pp3/2B1P3/2N2N2/PPPP1PPP/R1BQK2R w KQkq - 0 5"@,
        ],
    }
}

/// The positions, as FEN, that drills of a difficulty use.
pub fn training_positions(difficulty: Difficulty) -> (r: Vec<&'static str>)
    ensures
        r@.map_values(|s: &'static str| s@) == positions_for(difficulty),
{
    let r = match difficulty {
        Difficulty::Beginner => vec![
            "rnbqkbnr/pppppppp/8/8/8/8/PPPPPPPP/RNBQKBNR w KQkq - 0 1",
            "rnbqkbnr/pppppppp/8/8/4P3/8/PPPP1PPP/RNBQKBNR b KQkq - 0 1",
            "rnbqkbnr/pppp1ppp/8/4p3/4P3/8/PPPP1PPP/RNBQKBNR w KQkq - 0 2",
            "rnbqkbnr/pppp1ppp/8/4p3/4P3/5N2/PPPP1PPP/RNBQKB1R b KQkq - 1 2",
        ],
        Difficulty::Intermediate => vec![
            "r1bqkbnr/pppp1ppp/2n5/4p3/4P3/5N2/PPPP1PPP/RNBQKB1R w KQkq - 2 3",
            "rnbqkb1r/pppp1ppp/5n2/4p3/2B1P3/5N2/PPPP1PPP/RNBQK2R b KQkq - 3 3",
            "r1bqkbnr/pppp1ppp/2n5/1B2p3/4P3/5N2/PPPP1PPP/RNBQK2R b KQkq - 3 3",
        ],
        Difficulty::Advanced => vec![
            "r1bq1rk1/ppp2ppp/2np1n2/2b1p3/2B1P3/2NP1N2/PPP2PPP/R1BQ1RK1 w - - 0 7",
            "r2qkb1r/ppp2ppp/2n1bn2/3pp3/2B1P3/2N2N2/PPPP1PPP/R1BQK2R w KQkq - 0 5",
        ],
    };
    assert(r@.map_values(|s: &'static str| s@) =~= positions_for(difficulty));
    r
}

} // verus!
