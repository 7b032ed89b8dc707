pub mod func;
pub mod stockfish;
