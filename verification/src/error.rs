//! The reasons for which an operation on a game is turned down.

use vstd::prelude::*;

verus! {

/// Why an operation was rejected. A rejected operation leaves the game record
/// exactly as it was.
#[derive(Clone, Copy, Debug, PartialEq, Eq, Structural)]
pub enum GameError {
    /// The bet is outside the accepted range, or differs from the game's bet.
    InvalidBetAmount,
    /// The game is not waiting for an opponent.
    GameNotAvailable,
    /// The creator of a game tried to join it.
    CannotJoinOwnGame,
    /// The game is not open for commitments.
    GameNotInProgress,
    /// The caller is neither the creator nor the opponent.
    UnknownPlayer,
    /// The caller has already committed to a move.
    CommitmentAlreadySet,
    /// The game is not open for disclosures.
    GameNotInRevealPhase,
    /// The card or the prediction is out of range.
    InvalidMove,
    /// The caller has already disclosed its move.
    AlreadyRevealed,
    /// The disclosed move and secret do not hash to the caller's commitment.
    InvalidCommitment,
    /// The game has no result yet.
    GameNotCompleted,
    /// The pot has already been paid out or refunded.
    AlreadySettled,
}

/// The kinds of rejection.
#[derive(Clone, Copy, Debug, PartialEq, Eq, Structural)]
pub enum ErrorKind {
    /// An argument is not acceptable: a bad bet, a move out of range, the
    /// creator joining its own game, a caller that is no party to the game.
    Validation,
    /// The operation comes at the wrong time: the game is in another status,
    /// or the party has committed, disclosed or settled before.
    ProtocolOrder,
    /// What was disclosed does not hash to what was committed.
    CommitmentMismatch,
}

impl GameError {
    /// The kind that each error belongs to.
    pub open spec fn kind_of(self) -> ErrorKind {
        if self == GameError::InvalidCommitment {
            ErrorKind::CommitmentMismatch
        } else if self == GameError::InvalidBetAmount || self == GameError::InvalidMove || self
            == GameError::CannotJoinOwnGame || self == GameError::UnknownPlayer {
            ErrorKind::Validation
        } else {
            ErrorKind::ProtocolOrder
        }
    }

    /// Tells which kind of rejection this is.
    pub fn kind(&self) -> (kind: ErrorKind)
        ensures
            kind == self.kind_of(),
    {
        match self {
            GameError::InvalidBetAmount => ErrorKind::Validation,
            GameError::CannotJoinOwnGame => ErrorKind::Validation,
            GameError::UnknownPlayer => ErrorKind::Validation,
            GameError::InvalidMove => ErrorKind::Validation,
            GameError::GameNotAvailable => ErrorKind::ProtocolOrder,
            GameError::GameNotInProgress => ErrorKind::ProtocolOrder,
            GameError::CommitmentAlreadySet => ErrorKind::ProtocolOrder,
            GameError::GameNotInRevealPhase => ErrorKind::ProtocolOrder,
            GameError::AlreadyRevealed => ErrorKind::ProtocolOrder,
            GameError::GameNotCompleted => ErrorKind::ProtocolOrder,
            GameError::AlreadySettled => ErrorKind::ProtocolOrder,
            GameError::InvalidCommitment => ErrorKind::CommitmentMismatch,
        }
    }
}

} // verus!
