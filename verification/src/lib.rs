//! Verified core of the chess-assistant backend: configuration patching,
//! engine set-up, the `/init` flow and the decisions of the game loop.
pub mod decimal;
pub mod interfaces;
pub mod mocks;
pub mod route;
pub mod wrappers;
