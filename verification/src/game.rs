//! The record of one game and what makes it a valid one.

use vstd::prelude::*;
use crate::commitment::{legal_move, MAX_CARD, MAX_PREDICTION, MIN_CARD, MIN_PREDICTION};
use crate::identity::{same_party, AccountId};
use crate::resolver::{determine_winner, outcome_of, Outcome};

verus! {

/// The largest bet a game can carry: twice as much must still fit in a `u64`,
/// since the pot holds both stakes.
pub const MAX_STAKE: u64 = 0x7fff_ffff_ffff_ffff;

/// Where a game stands. A game only ever moves forward through these.
#[derive(Clone, Copy, Debug, PartialEq, Eq, Structural)]
pub enum GameStatus {
    /// Created and staked by one party; nobody has joined yet.
    WaitingForOpponent,
    /// Both parties have staked; at least one commitment is missing.
    WaitingForMoves,
    /// Both parties have committed; at least one disclosure is missing.
    WaitingForReveal,
    /// Both moves are known and one party has won.
    Completed,
    /// Both moves are known and nobody has won.
    Draw,
}

impl GameStatus {
    /// Tells whether the game has a result.
    pub open spec fn is_terminal(self) -> bool {
        self == GameStatus::Completed || self == GameStatus::Draw
    }

    /// How far along the game is; `Completed` and `Draw` are equally far.
    pub open spec fn rank(self) -> nat {
        match self {
            GameStatus::WaitingForOpponent => 0,
            GameStatus::WaitingForMoves => 1,
            GameStatus::WaitingForReveal => 2,
            GameStatus::Completed => 3,
            GameStatus::Draw => 3,
        }
    }

    /// Tells whether the game has a result.
    pub fn has_result(&self) -> (terminal: bool)
        ensures
            terminal == self.is_terminal(),
    {
        match self {
            GameStatus::Completed => true,
            GameStatus::Draw => true,
            _ => false,
        }
    }
}

/// Which of the two parties a caller is.
#[derive(Clone, Copy, Debug, PartialEq, Eq, Structural)]
pub enum Role {
    /// The party that created the game.
    Creator,
    /// The party that joined it.
    Opponent,
}

/// What one party has put on record about its move.
#[derive(Clone, Copy, Debug, PartialEq, Eq)]
pub struct PlayerMove {
    /// The commitment, once the party has published it.
    pub committed_hash: Option<[u8; 32]>,
    /// The card, once the party has disclosed it.
    pub card: Option<u8>,
    /// The predicted sum, once the party has disclosed it.
    pub prediction: Option<u8>,
}

impl PlayerMove {
    /// Nothing is on record.
    pub open spec fn is_blank(self) -> bool {
        self.committed_hash is None && self.card is None && self.prediction is None
    }

    /// The party has published its commitment.
    pub open spec fn committed(self) -> bool {
        self.committed_hash is Some
    }

    /// The party has disclosed its move.
    pub open spec fn revealed(self) -> bool {
        self.card is Some && self.prediction is Some
    }

    /// A card is on record exactly when a prediction is, only after a
    /// commitment, and only as a legal move.
    pub open spec fn wf(self) -> bool {
        &&& self.card is Some <==> self.prediction is Some
        &&& self.card is Some ==> self.committed_hash is Some
        &&& self.revealed() ==> legal_move(self.card->0, self.prediction->0)
    }

    /// A record with nothing on it.
    pub fn blank() -> (record: PlayerMove)
        ensures
            record.is_blank(),
            record.wf(),
    {
        PlayerMove { committed_hash: None, card: None, prediction: None }
    }

    /// Tells whether the record is a valid one.
    pub fn is_well_formed(&self) -> (valid: bool)
        ensures
            valid == self.wf(),
    {
        match (self.card, self.prediction) {
            (Some(card), Some(prediction)) => {
                self.committed_hash.is_some() && MIN_CARD <= card && card <= MAX_CARD
                    && MIN_PREDICTION <= prediction && prediction <= MAX_PREDICTION
            },
            (None, None) => true,
            _ => false,
        }
    }
}

/// One game between two parties.
#[derive(Clone, Copy, Debug, PartialEq, Eq)]
pub struct Game {
    /// The account that holds the stakes of this game; it names the game.
    pub id: AccountId,
    /// The party that created the game.
    pub creator: AccountId,
    /// The party that joined the game, once one has.
    pub opponent: Option<AccountId>,
    /// The stake of each party.
    pub bet_amount: u64,
    /// Where the game stands.
    pub status: GameStatus,
    /// What the creator has put on record.
    pub creator_move: PlayerMove,
    /// What the opponent has put on record.
    pub opponent_move: PlayerMove,
    /// The party that won, once one has.
    pub winner: Option<AccountId>,
    /// Whether the pot has been paid out or refunded.
    pub settled: bool,
    /// When the game was created.
    pub created_at: i64,
    /// When the game was last changed by a party's move.
    pub last_action_at: i64,
}

/// The status that goes with an outcome.
pub open spec fn status_for(outcome: Outcome) -> GameStatus {
    match outcome {
        Outcome::Draw => GameStatus::Draw,
        _ => GameStatus::Completed,
    }
}

impl Game {
    /// Which party an identity is in this game, if any.
    pub open spec fn role_of(self, who: AccountId) -> Option<Role> {
        if who == self.creator {
            Some(Role::Creator)
        } else if self.opponent == Some(who) {
            Some(Role::Opponent)
        } else {
            None
        }
    }

    /// The identity of the party in a role.
    pub open spec fn party(self, role: Role) -> Option<AccountId> {
        match role {
            Role::Creator => Some(self.creator),
            Role::Opponent => self.opponent,
        }
    }

    /// What the party in a role has put on record.
    pub open spec fn slot(self, role: Role) -> PlayerMove {
        match role {
            Role::Creator => self.creator_move,
            Role::Opponent => self.opponent_move,
        }
    }

    /// The game with the record of one party replaced.
    pub open spec fn with_slot(self, role: Role, record: PlayerMove) -> Game {
        match role {
            Role::Creator => Game { creator_move: record, ..self },
            Role::Opponent => Game { opponent_move: record, ..self },
        }
    }

    /// Both parties have published their commitments.
    pub open spec fn both_committed(self) -> bool {
        self.creator_move.committed() && self.opponent_move.committed()
    }

    /// Both parties have disclosed their moves.
    pub open spec fn both_revealed(self) -> bool {
        self.creator_move.revealed() && self.opponent_move.revealed()
    }

    /// What the disclosed moves amount to. It means something only once both
    /// parties have disclosed.
    pub open spec fn outcome(self) -> Outcome
        recommends
            self.both_revealed(),
    {
        outcome_of(
            self.creator_move.card->0,
            self.creator_move.prediction->0,
            self.opponent_move.card->0,
            self.opponent_move.prediction->0,
        )
    }

    /// The party that an outcome makes the winner.
    pub open spec fn winner_for(self, outcome: Outcome) -> Option<AccountId> {
        match outcome {
            Outcome::CreatorWins => Some(self.creator),
            Outcome::OpponentWins => self.opponent,
            Outcome::Draw => None,
        }
    }

    /// The game with status and winner set from the disclosed moves.
    pub open spec fn resolved(self) -> Game {
        Game {
            status: status_for(self.outcome()),
            winner: self.winner_for(self.outcome()),
            ..self
        }
    }

    /// What the record must hold in each status.
    pub open spec fn phase_ok(self) -> bool {
        match self.status {
            GameStatus::WaitingForOpponent => {
                &&& self.opponent is None
                &&& self.creator_move.is_blank()
                &&& self.opponent_move.is_blank()
            },
            GameStatus::WaitingForMoves => {
                &&& self.opponent is Some
                &&& !self.both_committed()
                &&& !self.creator_move.revealed()
                &&& !self.opponent_move.revealed()
            },
            GameStatus::WaitingForReveal => {
                &&& self.opponent is Some
                &&& self.both_committed()
                &&& !self.both_revealed()
            },
            GameStatus::Completed | GameStatus::Draw => {
                &&& self.opponent is Some
                &&& self.both_revealed()
                &&& self.status == status_for(self.outcome())
                &&& self.winner == self.winner_for(self.outcome())
            },
        }
    }

    /// A valid game record. The bet is positive and the pot fits in a `u64`;
    /// the two parties differ; each party's record is valid and as far along
    /// as the status says; there is a winner exactly in `Completed`, and it is
    /// the party that the disclosed moves name; only a game with a result can
    /// be settled.
    pub open spec fn wf(self) -> bool {
        &&& 0 < self.bet_amount <= MAX_STAKE
        &&& self.opponent != Some(self.creator)
        &&& self.creator_move.wf()
        &&& self.opponent_move.wf()
        &&& self.phase_ok()
        &&& !self.status.is_terminal() ==> self.winner is None && !self.settled
    }

    /// What the game's holding account has to hold for this game: one stake
    /// until an opponent joins, both stakes from then on, nothing once the pot
    /// has been paid out or refunded.
    pub open spec fn held(self) -> int {
        if self.settled {
            0
        } else if self.status == GameStatus::WaitingForOpponent {
            self.bet_amount as int
        } else {
            2 * self.bet_amount
        }
    }

    /// Finds which party a caller is.
    pub fn find_role(&self, who: &AccountId) -> (role: Option<Role>)
        ensures
            role == self.role_of(*who),
    {
        if who.same_as(&self.creator) {
            return Some(Role::Creator);
        }
        match &self.opponent {
            Some(opponent) => {
                if who.same_as(opponent) {
                    Some(Role::Opponent)
                } else {
                    None
                }
            },
            None => None,
        }
    }

    /// Reads what the party in a role has put on record.
    pub fn record_of(&self, role: Role) -> (record: PlayerMove)
        ensures
            record == self.slot(role),
    {
        match role {
            Role::Creator => self.creator_move,
            Role::Opponent => self.opponent_move,
        }
    }

    /// Tells whether the record is a valid game, by checking every condition
    /// of [`Game::wf`]. A record that comes from storage or from another
    /// program is checked with this before an operation is applied to it.
    pub fn is_well_formed(&self) -> (valid: bool)
        ensures
            valid == self.wf(),
    {
        if self.bet_amount == 0 || self.bet_amount > MAX_STAKE {
            return false;
        }
        if let Some(opponent) = &self.opponent {
            if opponent.same_as(&self.creator) {
                return false;
            }
        }
        if !self.creator_move.is_well_formed() || !self.opponent_move.is_well_formed() {
            return false;
        }
        let joined = self.opponent.is_some();
        let creator_committed = self.creator_move.committed_hash.is_some();
        let opponent_committed = self.opponent_move.committed_hash.is_some();
        let creator_revealed = self.creator_move.card.is_some();
        let opponent_revealed = self.opponent_move.card.is_some();
        let open = self.winner.is_none() && !self.settled;
        match self.status {
            GameStatus::WaitingForOpponent => {
                open && !joined && !creator_committed && !opponent_committed
            },
            GameStatus::WaitingForMoves => {
                open && joined && !(creator_committed && opponent_committed) && !creator_revealed
                    && !opponent_revealed
            },
            GameStatus::WaitingForReveal => {
                open && joined && creator_committed && opponent_committed && !(creator_revealed
                    && opponent_revealed)
            },
            GameStatus::Completed | GameStatus::Draw => {
                if !(joined && creator_revealed && opponent_revealed) {
                    return false;
                }
                let mut expected = *self;
                expected.resolve_game();
                expected.status == self.status && same_party(&expected.winner, &self.winner)
            },
        }
    }

    /// Sets status and winner from the two disclosed moves: `Completed` with
    /// the winner, or `Draw` with none. Nothing else changes. On a valid game
    /// that already has its result this changes nothing.
    pub fn resolve_game(&mut self)
        requires
            old(self).both_revealed(),
        ensures
            *final(self) == old(self).resolved(),
    {
        let outcome = match (
            self.creator_move.card,
            self.creator_move.prediction,
            self.opponent_move.card,
            self.opponent_move.prediction,
        ) {
            (Some(creator_card), Some(creator_prediction), Some(opponent_card), Some(opponent_prediction)) => {
                determine_winner(creator_card, creator_prediction, opponent_card, opponent_prediction)
            },
            _ => Outcome::Draw,
        };
        match outcome {
            Outcome::CreatorWins => {
                self.winner = Some(self.creator);
                self.status = GameStatus::Completed;
            },
            Outcome::OpponentWins => {
                self.winner = self.opponent;
                self.status = GameStatus::Completed;
            },
            Outcome::Draw => {
                self.winner = None;
                self.status = GameStatus::Draw;
            },
        }
    }
}

} // verus!
