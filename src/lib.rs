//! Chess game analysis: drives a UCI engine, replays games and flags the
//! moves where a player fell short of the engine's choice.

pub mod analysis;
pub mod board;
pub mod lichess;
pub mod patterns;
pub mod review;
pub mod text;
pub mod training;
pub mod uci;

pub use analysis::{Evaluation, MoveAnalysis, PositionAnalysis};
pub use board::{analyze_position, starting_position, ChessMove, Color, PositionInfo, Role};
pub use patterns::{DetectedPattern, PatternCount, PatternSummary, PatternType, Severity};
pub use review::GameReview;
pub use uci::{EngineError, LineOutcome, SessionState, UciSession};
