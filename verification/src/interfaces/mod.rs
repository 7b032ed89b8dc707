//! The services the backend relies on: the chess engine and the helpers that
//! create it and read the screen.
use vstd::prelude::*;

use crate::wrappers::enums::ColorDto;

verus! {

/// Errors reported by the engine and the screen helpers; `Other` carries the
/// text of an error from the engine process or the screen helpers.
#[derive(Debug)]
pub enum CheatessError {
    MonitorNotFound,
    NoMoveDetected,
    Other(String),
}

impl CheatessError {
    /// The text shown to users for this error.
    pub fn message(&self) -> (s: String)
        ensures
            s@ == self.spec_message(),
    {
        proof {
            reveal_strlit("Monitor not found");
            reveal_strlit("No move detected");
        }
        match self {
            CheatessError::MonitorNotFound => String::from_str("Monitor not found"),
            CheatessError::NoMoveDetected => String::from_str("No move detected"),
            CheatessError::Other(text) => text.clone(),
        }
    }

    pub open spec fn spec_message(&self) -> Seq<char> {
        match self {
            CheatessError::MonitorNotFound => "Monitor not found"@,
            CheatessError::NoMoveDetected => "No move detected"@,
            CheatessError::Other(text) => text@,
        }
    }
}

/// One line of engine analysis: the principal variation and its evaluation.
#[derive(Debug)]
pub struct Summary {
    pub main_line: Vec<String>,
    pub eval: String,
}

/// The options handed to the engine, as text: Elo, skill level, hash size
/// and number of reported lines.
pub type EngineOptions = (Seq<char>, Seq<char>, Seq<char>, Seq<char>);

/// A running chess engine.
pub trait StockfishLike: Sized {
    /// The engine's version string.
    spec fn version(&self) -> Seq<char>;

    /// The options that the last successful `set_config` applied.
    spec fn applied_options(&self) -> Option<EngineOptions>;

    /// Whether the engine accepts `options`.
    spec fn accepts(&self, options: EngineOptions) -> bool;

    /// The error with which the engine refuses `options`.
    spec fn refusal(&self, options: EngineOptions) -> CheatessError;

    /// The engine after it has been handed `options`.
    spec fn configured(&self, options: EngineOptions) -> Self;

    fn get_version(&self) -> (r: String)
        ensures
            r@ == self.version(),
    ;

    /// Hands the options to the engine: it succeeds exactly when the engine
    /// accepts them, and otherwise fails with the engine's refusal. The
    /// engine becomes `configured` with them; on success they are its
    /// options, and its version does not change.
    fn set_config(
        &mut self,
        elo: &str,
        skill: &str,
        hash: &str,
        multi_lines: &str,
    ) -> (r: Result<(), CheatessError>)
        ensures
            r is Ok <==> old(self).accepts((elo@, skill@, hash@, multi_lines@)),
            r matches Err(e) ==> e == old(self).refusal((elo@, skill@, hash@, multi_lines@)),
            *final(self) == old(self).configured((elo@, skill@, hash@, multi_lines@)),
            final(self).version() == old(self).version(),
            r is Ok ==> final(self).applied_options() == Some((elo@, skill@, hash@, multi_lines@)),
    ;

    /// Analyses the current position, reporting up to `search_lines` lines.
    fn get_summary(&mut self, search_lines: usize) -> Result<Vec<Summary>, CheatessError>;

    /// Plays `moves` on the engine's board.
    fn make_move(&mut self, moves: Vec<String>) -> Result<(), CheatessError>;
}

/// The synchronous helpers of the backend: creating the engine and telling
/// which colour the user plays from an image of the board.
pub trait FuncWrapper {
    type Engine: StockfishLike;

    type Image;

    /// Whether an engine is created from `path` with search depth `depth`.
    spec fn creates_stockfish(&self, path: Seq<char>, depth: u8) -> bool;

    /// Whether `engine` is an engine as created from `path` with search
    /// depth `depth`.
    spec fn is_created(&self, path: Seq<char>, depth: u8, engine: Self::Engine) -> bool;

    fn _create_stockfish(&self, path: &str, depth: u8) -> (r: Option<Self::Engine>)
        ensures
            r is Some <==> self.creates_stockfish(path@, depth),
            r matches Some(engine) ==> self.is_created(path@, depth, engine),
    ;

    fn detect_player_color(&self, gray_board: &Self::Image) -> Result<ColorDto, CheatessError>;
}

} // verus!
