//! The records of the game-hosting service: what a game export asks for and
//! what a game, a player and an evaluation hold.

use vstd::prelude::*;
use crate::text::{same_text, split_tokens, tokens, views};

verus! {

/// Which games an export asks for.
#[derive(Debug, Clone, Copy, Default)]
pub struct GameExportParams {
    /// At most this many games.
    pub max: Option<u32>,
    /// Only games of this speed.
    pub perf_type: Option<PerfType>,
    /// Only rated games.
    pub rated_only: bool,
    /// Only games that have a computer analysis.
    pub with_analysis: bool,
    /// Only games since this time, in Unix milliseconds.
    pub since: Option<u64>,
}

impl GameExportParams {
    /// Asks for all games.
    pub fn new() -> (r: GameExportParams)
        ensures
            r.max is None,
            r.perf_type is None,
            !r.rated_only,
            !r.with_analysis,
            r.since is None,
    {
        GameExportParams { max: None, perf_type: None, rated_only: false, with_analysis: false, since: None }
    }

    /// Asks for at most `max` games.
    pub fn max(self, max: u32) -> (r: GameExportParams)
        ensures
            r == (GameExportParams { max: Some(max), ..self }),
    {
        GameExportParams { max: Some(max), ..self }
    }

    /// Asks for games of one speed only.
    pub fn perf_type(self, perf_type: PerfType) -> (r: GameExportParams)
        ensures
            r == (GameExportParams { perf_type: Some(perf_type), ..self }),
    {
        GameExportParams { perf_type: Some(perf_type), ..self }
    }

    /// Asks for rated games only.
    pub fn rated_only(self) -> (r: GameExportParams)
        ensures
            r == (GameExportParams { rated_only: true, ..self }),
    {
        GameExportParams { rated_only: true, ..self }
    }

    /// Asks for analysed games only.
    pub fn with_analysis(self) -> (r: GameExportParams)
        ensures
            r == (GameExportParams { with_analysis: true, ..self }),
    {
        GameExportParams { with_analysis: true, ..self }
    }

    /// Asks for games since a time, in Unix milliseconds.
    pub fn since(self, timestamp: u64) -> (r: GameExportParams)
        ensures
            r == (GameExportParams { since: Some(timestamp), ..self }),
    {
        GameExportParams { since: Some(timestamp), ..self }
    }
}

/// A speed of play.
#[derive(Debug, Clone, Copy, PartialEq, Eq, Structural)]
pub enum PerfType {
    UltraBullet,
    Bullet,
    Blitz,
    Rapid,
    Classical,
    Correspondence,
}

pub open spec fn perf_name(p: PerfType) -> Seq<char> {
    match p {
        PerfType::UltraBullet => "ultraBullet"@,
        PerfType::Bullet => "bullet"@,
        PerfType::Blitz => "blitz"@,
        PerfType::Rapid => "rapid"@,
        PerfType::Classical => "classical"@,
        PerfType::Correspondence => "correspondence"@,
    }
}

impl PerfType {
    /// The service's name for the speed, such as `ultraBullet`.
    pub fn as_str(&self) -> (r: &'static str)
        ensures
            r@ == perf_name(*self),
    {
        match self {
            PerfType::UltraBullet => "ultraBullet",
            PerfType::Bullet => "bullet",
            PerfType::Blitz => "blitz",
            PerfType::Rapid => "rapid",
            PerfType::Classical => "classical",
            PerfType::Correspondence => "correspondence",
        }
    }
}

/// A game as the service exports it.
#[derive(Debug, Clone)]
pub struct LichessGame {
    pub id: String,
    pub rated: bool,
    pub variant: String,
    pub speed: String,
    pub perf: String,
    pub created_at: u64,
    pub last_move_at: u64,
    pub status: String,
    pub players: Players,
    pub winner: Option<String>,
    /// The moves in standard algebraic notation, separated by spaces.
    pub moves: Option<String>,
    pub pgn: Option<String>,
    pub opening: Option<Opening>,
    pub clock: Option<Clock>,
}

/// The result of a game as PGN writes it.
pub open spec fn result_text(winner: Option<Seq<char>>, status: Seq<char>) -> Seq<char> {
    match winner {
        Some(w) => if w == "white"@ {
            "1-0"@
        } else if w == "black"@ {
            "0-1"@
        } else {
            "*"@
        },
        None => if status == "draw"@ || status == "stalemate"@ {
            "1/2-1/2"@
        } else {
            "*"@
        },
    }
}

/// The name shown for a player: the account's, or `Anonymous`.
pub open spec fn player_name(p: Player) -> Seq<char> {
    match p.user {
        Some(u) => u.name@,
        None => "Anonymous"@,
    }
}

impl LichessGame {
    /// The result: `1-0` or `0-1` by the winner, `1/2-1/2` for a draw or
    /// stalemate without one, else `*`.
    pub fn result(&self) -> (r: &'static str)
        ensures
            r@ == result_text(
                match self.winner {
                    Some(w) => Some(w@),
                    None => None,
                },
                self.status@,
            ),
    {
        match &self.winner {
            Some(w) => {
                if same_text(w.as_str(), "white") {
                    "1-0"
                } else if same_text(w.as_str(), "black") {
                    "0-1"
                } else {
                    "*"
                }
            },
            None => {
                if same_text(self.status.as_str(), "draw") || same_text(self.status.as_str(), "stalemate") {
                    "1/2-1/2"
                } else {
                    "*"
                }
            },
        }
    }

    /// White's account name, or `Anonymous`.
    pub fn white_username(&self) -> (r: &str)
        ensures
            r@ == player_name(self.players.white),
    {
        match &self.players.white.user {
            Some(u) => u.name.as_str(),
            None => "Anonymous",
        }
    }

    /// Black's account name, or `Anonymous`.
    pub fn black_username(&self) -> (r: &str)
        ensures
            r@ == player_name(self.players.black),
    {
        match &self.players.black.user {
            Some(u) => u.name.as_str(),
            None => "Anonymous",
        }
    }

    /// White's rating, where known.
    pub fn white_rating(&self) -> (r: Option<u16>)
        ensures
            r == self.players.white.rating,
    {
        self.players.white.rating
    }

    /// Black's rating, where known.
    pub fn black_rating(&self) -> (r: Option<u16>)
        ensures
            r == self.players.black.rating,
    {
        self.players.black.rating
    }

    /// The moves, one string each; none when the export has no moves.
    pub fn move_list(&self) -> (r: Vec<String>)
        ensures
            views(r@) == match self.moves {
                Some(m) => tokens(m@),
                None => Seq::<Seq<char>>::empty(),
            },
    {
        match &self.moves {
            Some(m) => split_tokens(m.as_str()),
            None => {
                let r: Vec<String> = Vec::new();
                assert(views(r@) =~= Seq::<Seq<char>>::empty());
                r
            },
        }
    }
}

/// Both sides of a game.
#[derive(Debug, Clone)]
pub struct Players {
    pub white: Player,
    pub black: Player,
}

/// One side of a game.
#[derive(Debug, Clone)]
pub struct Player {
    pub user: Option<User>,
    pub rating: Option<u16>,
    pub rating_diff: Option<i16>,
}

/// An account.
#[derive(Debug, Clone)]
pub struct User {
    pub name: String,
    pub id: String,
}

/// The opening of a game.
#[derive(Debug, Clone)]
pub struct Opening {
    pub eco: String,
    pub name: String,
    pub ply: u8,
}

/// The time control of a game.
#[derive(Debug, Clone)]
pub struct Clock {
    pub initial: u32,
    pub increment: u32,
    pub total_time: u32,
}

/// A stored evaluation of a position.
#[derive(Debug, Clone)]
pub struct CloudEval {
    pub fen: String,
    pub knodes: u64,
    pub depth: u8,
    pub pvs: Vec<PvLine>,
}

/// One line of a stored evaluation.
#[derive(Debug, Clone)]
pub struct PvLine {
    pub moves: String,
    pub cp: Option<i32>,
    pub mate: Option<i32>,
}

/// An account's game counts.
#[derive(Debug, Clone)]
pub struct GameCount {
    pub all: u32,
    pub rated: u32,
    pub win: u32,
    pub loss: u32,
    pub draw: u32,
}

} // verus!
