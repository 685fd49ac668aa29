//! A two-party wagering game settled by commit and reveal.
//!
//! Two parties stake the same bet, each binds itself to a hidden move by a
//! hash, both later disclose their moves, and a fixed rule names the winner of
//! the pooled stake, or a draw. This crate holds the rules: the check of a
//! disclosed move against its commitment, the rule that picks the winner, and
//! the life cycle of one game record. It moves no funds itself; every
//! operation hands back the transfers that the ledger has to carry out.

pub mod commitment;
pub mod error;
pub mod escrow;
pub mod game;
pub mod identity;
pub mod laws;
pub mod protocol;
pub mod resolver;

pub use commitment::{commit, encode_move, verify};
pub use error::{ErrorKind, GameError};
pub use escrow::Transfer;
pub use game::{Game, GameStatus, PlayerMove, Role};
pub use identity::AccountId;
pub use protocol::{
    apply_reveal, claim_winnings, create_game, join_game, reveal_move, submit_move, BetLimits,
};
pub use resolver::{determine_winner, Outcome};
