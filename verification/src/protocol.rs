//! The operations that carry a game from its creation to its settlement.
//!
//! Each operation is described by two spec functions: one that gives the
//! reason for which it is rejected, if any, and one that gives the record
//! after it. An accepted operation leaves the record as the second says; a
//! rejected one leaves it untouched.

use vstd::prelude::*;
use crate::commitment::{
    commit, commitment_of, legal_move, MAX_CARD, MAX_PREDICTION, MIN_CARD, MIN_PREDICTION,
};
use crate::error::GameError;
use crate::escrow::{transfer, Transfer};
use crate::game::{Game, GameStatus, PlayerMove, Role, MAX_STAKE};
use crate::identity::{words_equal, AccountId};

verus! {

/// Smallest bet that the default limits accept.
pub const MIN_BET: u64 = 100_000_000;

/// Largest bet that the default limits accept.
pub const MAX_BET: u64 = 10_000_000_000;

/// The range of bets that a game may be created with.
#[derive(Clone, Copy, Debug, PartialEq, Eq)]
pub struct BetLimits {
    /// Smallest bet accepted.
    pub min_bet: u64,
    /// Largest bet accepted.
    pub max_bet: u64,
}

impl BetLimits {
    /// A bet is accepted if it lies within the limits, is positive, and
    /// leaves room for a pot of twice its size.
    pub open spec fn accepts(self, bet_amount: u64) -> bool {
        &&& self.min_bet <= bet_amount <= self.max_bet
        &&& 0 < bet_amount <= MAX_STAKE
    }

    /// The default limits, from `MIN_BET` to `MAX_BET`.
    pub fn standard() -> (limits: BetLimits)
        ensures
            limits.min_bet == MIN_BET,
            limits.max_bet == MAX_BET,
    {
        BetLimits { min_bet: MIN_BET, max_bet: MAX_BET }
    }

    /// Tells whether a bet is accepted.
    pub fn allows(&self, bet_amount: u64) -> (accepted: bool)
        ensures
            accepted == self.accepts(bet_amount),
    {
        self.min_bet <= bet_amount && bet_amount <= self.max_bet && 0 < bet_amount && bet_amount
            <= MAX_STAKE
    }
}

/// The record of a game that has just been created.
pub open spec fn new_game(id: AccountId, creator: AccountId, bet_amount: u64, now: i64) -> Game {
    Game {
        id,
        creator,
        opponent: None,
        bet_amount,
        status: GameStatus::WaitingForOpponent,
        creator_move: PlayerMove { committed_hash: None, card: None, prediction: None },
        opponent_move: PlayerMove { committed_hash: None, card: None, prediction: None },
        winner: None,
        settled: false,
        created_at: now,
        last_action_at: now,
    }
}

/// Creates a game for `creator` with the given bet, held by the account `id`.
///
/// The bet must be accepted by `limits`; otherwise the result is
/// `InvalidBetAmount`. On success the result is the new record, waiting for an
/// opponent, and the request to move the creator's stake into the holding
/// account.
pub fn create_game(
    id: AccountId,
    creator: AccountId,
    bet_amount: u64,
    limits: &BetLimits,
    now: i64,
) -> (result: Result<(Game, Transfer), GameError>)
    ensures
        limits.accepts(bet_amount) ==> result == Ok::<(Game, Transfer), GameError>(
            (new_game(id, creator, bet_amount, now), transfer(creator, id, bet_amount)),
        ),
        !limits.accepts(bet_amount) ==> result == Err::<(Game, Transfer), GameError>(
            GameError::InvalidBetAmount,
        ),
        result matches Ok((game, _)) ==> game.wf(),
{
    if !limits.allows(bet_amount) {
        return Err(GameError::InvalidBetAmount);
    }
    let game = Game {
        id,
        creator,
        opponent: None,
        bet_amount,
        status: GameStatus::WaitingForOpponent,
        creator_move: PlayerMove::blank(),
        opponent_move: PlayerMove::blank(),
        winner: None,
        settled: false,
        created_at: now,
        last_action_at: now,
    };
    Ok((game, Transfer::new(creator, id, bet_amount)))
}

/// Why a party cannot join a game with a bet, if it cannot: the game is not
/// waiting for an opponent, the bet is not the game's, or the party is the
/// creator.
pub open spec fn join_rejection(game: Game, opponent: AccountId, bet_amount: u64) -> Option<
    GameError,
> {
    if game.status != GameStatus::WaitingForOpponent {
        Some(GameError::GameNotAvailable)
    } else if bet_amount != game.bet_amount {
        Some(GameError::InvalidBetAmount)
    } else if opponent == game.creator {
        Some(GameError::CannotJoinOwnGame)
    } else {
        None
    }
}

/// The game after `opponent` has joined it.
pub open spec fn after_join(game: Game, opponent: AccountId, now: i64) -> Game {
    Game {
        opponent: Some(opponent),
        status: GameStatus::WaitingForMoves,
        last_action_at: now,
        ..game
    }
}

/// Lets `opponent` join a game with a bet equal to the game's.
///
/// On success the opponent is on record, the game waits for the commitments,
/// and the result is the request to move the opponent's stake into the holding
/// account.
pub fn join_game(game: &mut Game, opponent: AccountId, bet_amount: u64, now: i64) -> (result:
    Result<Transfer, GameError>)
    requires
        old(game).wf(),
    ensures
        final(game).wf(),
        match result {
            Ok(deposit) => {
                &&& join_rejection(*old(game), opponent, bet_amount) is None
                &&& *final(game) == after_join(*old(game), opponent, now)
                &&& deposit == transfer(opponent, old(game).id, bet_amount)
            },
            Err(reason) => {
                &&& join_rejection(*old(game), opponent, bet_amount) == Some(reason)
                &&& *final(game) == *old(game)
            },
        },
{
    if game.status != GameStatus::WaitingForOpponent {
        return Err(GameError::GameNotAvailable);
    }
    if bet_amount != game.bet_amount {
        return Err(GameError::InvalidBetAmount);
    }
    if opponent.same_as(&game.creator) {
        return Err(GameError::CannotJoinOwnGame);
    }
    game.opponent = Some(opponent);
    game.status = GameStatus::WaitingForMoves;
    game.last_action_at = now;
    Ok(Transfer::new(opponent, game.id, bet_amount))
}

/// Why a caller cannot publish a commitment, if it cannot: the game is not
/// open for commitments, the caller is no party to it, or the caller has
/// committed before. The commitment itself plays no part.
pub open spec fn submit_rejection(game: Game, player: AccountId) -> Option<GameError> {
    if game.status != GameStatus::WaitingForMoves {
        Some(GameError::GameNotInProgress)
    } else {
        match game.role_of(player) {
            None => Some(GameError::UnknownPlayer),
            Some(role) => if game.slot(role).committed() {
                Some(GameError::CommitmentAlreadySet)
            } else {
                None
            },
        }
    }
}

/// The game after the party in `role` has published `commitment`: the
/// commitment is on that party's record, and the game waits for the
/// disclosures if the other party has committed too.
pub open spec fn after_submit(game: Game, role: Role, commitment: [u8; 32], now: i64) -> Game {
    let record = PlayerMove { committed_hash: Some(commitment), ..game.slot(role) };
    let noted = game.with_slot(role, record);
    Game {
        status: if noted.both_committed() {
            GameStatus::WaitingForReveal
        } else {
            game.status
        },
        last_action_at: now,
        ..noted
    }
}

/// Puts the caller's commitment on record.
pub fn submit_move(game: &mut Game, player: AccountId, commitment: [u8; 32], now: i64) -> (result:
    Result<(), GameError>)
    requires
        old(game).wf(),
    ensures
        final(game).wf(),
        match result {
            Ok(_) => {
                &&& submit_rejection(*old(game), player) is None
                &&& old(game).role_of(player) is Some
                &&& *final(game) == after_submit(
                    *old(game),
                    old(game).role_of(player)->0,
                    commitment,
                    now,
                )
            },
            Err(reason) => {
                &&& submit_rejection(*old(game), player) == Some(reason)
                &&& *final(game) == *old(game)
            },
        },
{
    if game.status != GameStatus::WaitingForMoves {
        return Err(GameError::GameNotInProgress);
    }
    let role = match game.find_role(&player) {
        Some(role) => role,
        None => {
            return Err(GameError::UnknownPlayer);
        },
    };
    if game.record_of(role).committed_hash.is_some() {
        return Err(GameError::CommitmentAlreadySet);
    }
    match role {
        Role::Creator => {
            game.creator_move.committed_hash = Some(commitment);
        },
        Role::Opponent => {
            game.opponent_move.committed_hash = Some(commitment);
        },
    }
    if game.creator_move.committed_hash.is_some() && game.opponent_move.committed_hash.is_some() {
        game.status = GameStatus::WaitingForReveal;
    }
    game.last_action_at = now;
    Ok(())
}

/// Why a caller cannot disclose a move, if it cannot. `digest` is the hash of
/// what the caller disclosed. In this order: the game is not open for
/// disclosures; the move is not a legal one; the caller is no party to the
/// game; the caller has disclosed before; the digest is not the caller's
/// commitment.
pub open spec fn reveal_rejection(
    game: Game,
    player: AccountId,
    card: u8,
    prediction: u8,
    digest: Seq<u8>,
) -> Option<GameError> {
    if game.status != GameStatus::WaitingForReveal {
        Some(GameError::GameNotInRevealPhase)
    } else if !legal_move(card, prediction) {
        Some(GameError::InvalidMove)
    } else {
        match game.role_of(player) {
            None => Some(GameError::UnknownPlayer),
            Some(role) => if game.slot(role).card is Some {
                Some(GameError::AlreadyRevealed)
            } else {
                match game.slot(role).committed_hash {
                    Some(commitment) if commitment@ == digest => None,
                    _ => Some(GameError::InvalidCommitment),
                }
            },
        }
    }
}

/// The game after the party in `role` has disclosed its move: the move is on
/// that party's record, and if the other party has disclosed too, the game
/// has its result.
pub open spec fn after_reveal(game: Game, role: Role, card: u8, prediction: u8, now: i64) -> Game {
    let record = PlayerMove { card: Some(card), prediction: Some(prediction), ..game.slot(role) };
    let noted = Game { last_action_at: now, ..game.with_slot(role, record) };
    if noted.both_revealed() {
        noted.resolved()
    } else {
        noted
    }
}

/// Puts a disclosed move on record, given the hash of what was disclosed.
///
/// This is the whole of a disclosure but for the hashing: `digest` stands for
/// the hash of card, prediction and secret, and is compared with the caller's
/// commitment. With the second disclosure the game gets its result in the
/// same step.
pub fn apply_reveal(
    game: &mut Game,
    player: AccountId,
    card: u8,
    prediction: u8,
    digest: [u8; 32],
    now: i64,
) -> (result: Result<(), GameError>)
    requires
        old(game).wf(),
    ensures
        final(game).wf(),
        match result {
            Ok(_) => {
                &&& reveal_rejection(*old(game), player, card, prediction, digest@) is None
                &&& old(game).role_of(player) is Some
                &&& *final(game) == after_reveal(
                    *old(game),
                    old(game).role_of(player)->0,
                    card,
                    prediction,
                    now,
                )
            },
            Err(reason) => {
                &&& reveal_rejection(*old(game), player, card, prediction, digest@) == Some(reason)
                &&& *final(game) == *old(game)
            },
        },
{
    if game.status != GameStatus::WaitingForReveal {
        return Err(GameError::GameNotInRevealPhase);
    }
    if card < MIN_CARD || card > MAX_CARD || prediction < MIN_PREDICTION || prediction
        > MAX_PREDICTION {
        return Err(GameError::InvalidMove);
    }
    let role = match game.find_role(&player) {
        Some(role) => role,
        None => {
            return Err(GameError::UnknownPlayer);
        },
    };
    let record = game.record_of(role);
    if record.card.is_some() {
        return Err(GameError::AlreadyRevealed);
    }
    let matches = match &record.committed_hash {
        Some(commitment) => words_equal(commitment, &digest),
        None => false,
    };
    if !matches {
        return Err(GameError::InvalidCommitment);
    }
    match role {
        Role::Creator => {
            game.creator_move.card = Some(card);
            game.creator_move.prediction = Some(prediction);
        },
        Role::Opponent => {
            game.opponent_move.card = Some(card);
            game.opponent_move.prediction = Some(prediction);
        },
    }
    game.last_action_at = now;
    if game.creator_move.card.is_some() && game.opponent_move.card.is_some() {
        game.resolve_game();
    }
    Ok(())
}

/// Discloses the caller's move: hashes card, prediction and secret, and puts
/// the move on record if the hash is the caller's commitment.
pub fn reveal_move(
    game: &mut Game,
    player: AccountId,
    card: u8,
    prediction: u8,
    salt: [u8; 32],
    now: i64,
) -> (result: Result<(), GameError>)
    requires
        old(game).wf(),
    ensures
        final(game).wf(),
        match result {
            Ok(_) => {
                &&& reveal_rejection(
                    *old(game),
                    player,
                    card,
                    prediction,
                    commitment_of(card, prediction, salt@),
                ) is None
                &&& old(game).role_of(player) is Some
                &&& *final(game) == after_reveal(
                    *old(game),
                    old(game).role_of(player)->0,
                    card,
                    prediction,
                    now,
                )
            },
            Err(reason) => {
                &&& reveal_rejection(
                    *old(game),
                    player,
                    card,
                    prediction,
                    commitment_of(card, prediction, salt@),
                ) == Some(reason)
                &&& *final(game) == *old(game)
            },
        },
{
    let digest = commit(card, prediction, &salt);
    apply_reveal(game, player, card, prediction, digest, now)
}

/// Why a game cannot be settled, if it cannot: it has no result yet, or it
/// has been settled before.
pub open spec fn claim_rejection(game: Game) -> Option<GameError> {
    if !game.status.is_terminal() {
        Some(GameError::GameNotCompleted)
    } else if game.settled {
        Some(GameError::AlreadySettled)
    } else {
        None
    }
}

/// The game after its settlement.
pub open spec fn after_claim(game: Game) -> Game {
    Game { settled: true, ..game }
}

/// What a game with a result pays out of its holding account: the whole pot
/// to the winner, or to each party its stake.
pub open spec fn payouts(game: Game) -> Seq<Transfer> {
    match game.winner {
        Some(winner) => seq![transfer(game.id, winner, (2 * game.bet_amount) as u64)],
        None => seq![
            transfer(game.id, game.creator, game.bet_amount),
            transfer(game.id, game.opponent->0, game.bet_amount),
        ],
    }
}

/// Settles a game that has its result and has not been settled: marks it
/// settled and hands back the transfers that empty the pot.
pub fn claim_winnings(game: &mut Game) -> (result: Result<Vec<Transfer>, GameError>)
    requires
        old(game).wf(),
    ensures
        final(game).wf(),
        match result {
            Ok(requests) => {
                &&& claim_rejection(*old(game)) is None
                &&& *final(game) == after_claim(*old(game))
                &&& requests@ == payouts(*old(game))
            },
            Err(reason) => {
                &&& claim_rejection(*old(game)) == Some(reason)
                &&& *final(game) == *old(game)
            },
        },
{
    if !game.status.has_result() {
        return Err(GameError::GameNotCompleted);
    }
    if game.settled {
        return Err(GameError::AlreadySettled);
    }
    let mut requests: Vec<Transfer> = Vec::new();
    match game.winner {
        Some(winner) => {
            requests.push(Transfer::new(game.id, winner, 2 * game.bet_amount));
        },
        None => {
            requests.push(Transfer::new(game.id, game.creator, game.bet_amount));
            match game.opponent {
                Some(opponent) => {
                    requests.push(Transfer::new(game.id, opponent, game.bet_amount));
                },
                None => {},
            }
        },
    }
    game.settled = true;
    proof {
        assert(requests@ =~= payouts(*old(game)));
    }
    Ok(requests)
}

} // verus!
