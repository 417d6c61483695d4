//! A generic, depth-bounded adversarial search engine for two-player,
//! zero-sum, perfect-information games.
//!
//! The crate separates the game-agnostic search algorithm from the
//! game-specific state representation: any game implementing the
//! [`GameState`] contract gets optimal-play search through
//! [`minimax`](search::minimax) and [`Solve::solve`].

pub mod game;
pub mod player;
pub mod search;

pub use game::GameState;
pub use player::Player;
pub use search::minimax;
pub use search::Solve;
