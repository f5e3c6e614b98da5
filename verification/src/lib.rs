//! A commit-reveal rock-paper-scissors engine.
//!
//! The opponent commits to a hidden hand before the human throws: each round
//! stores a SHA-256 digest of a fresh random nonce together with the
//! opponent's hand, and reveals both once the round is over, so anyone can
//! check that the opponent did not change its choice afterwards.

pub mod game;
pub mod util;
