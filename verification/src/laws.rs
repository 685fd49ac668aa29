//! What holds of every game, whatever the parties do.
//!
//! The operations of [`crate::protocol`] are described there by spec
//! functions; the laws below are proved of those.

use vstd::prelude::*;
use crate::error::GameError;
use crate::escrow::{lemma_sums_after_push, paid_to, total_amount, transfer, Transfer};
use crate::game::{Game, GameStatus, Role};
use crate::identity::AccountId;
use crate::protocol::{
    after_claim, after_join, after_reveal, after_submit, claim_rejection, join_rejection,
    new_game, payouts, reveal_rejection, submit_rejection, BetLimits,
};

verus! {

/// Every accepted operation turns a valid game into a valid game, and a game
/// is valid when it is created.
pub proof fn lemma_operations_keep_games_valid(
    game: Game,
    player: AccountId,
    role: Role,
    bet_amount: u64,
    commitment: [u8; 32],
    card: u8,
    prediction: u8,
    digest: Seq<u8>,
    limits: BetLimits,
    now: i64,
)
    requires
        game.wf(),
    ensures
        limits.accepts(bet_amount) ==> new_game(game.id, player, bet_amount, now).wf(),
        join_rejection(game, player, bet_amount) is None ==> after_join(game, player, now).wf(),
        submit_rejection(game, player) is None && game.role_of(player) == Some(role)
            ==> after_submit(game, role, commitment, now).wf(),
        reveal_rejection(game, player, card, prediction, digest) is None && game.role_of(player)
            == Some(role) ==> after_reveal(game, role, card, prediction, now).wf(),
        claim_rejection(game) is None ==> after_claim(game).wf(),
{
}

/// The status of a game only moves forward: no accepted operation leaves the
/// game less far along than it was.
pub proof fn lemma_status_never_regresses(
    game: Game,
    player: AccountId,
    role: Role,
    bet_amount: u64,
    commitment: [u8; 32],
    card: u8,
    prediction: u8,
    digest: Seq<u8>,
    now: i64,
)
    requires
        game.wf(),
    ensures
        join_rejection(game, player, bet_amount) is None ==> game.status.rank() < after_join(
            game,
            player,
            now,
        ).status.rank(),
        submit_rejection(game, player) is None && game.role_of(player) == Some(role)
            ==> game.status.rank() <= after_submit(game, role, commitment, now).status.rank(),
        reveal_rejection(game, player, card, prediction, digest) is None && game.role_of(player)
            == Some(role) ==> game.status.rank() <= after_reveal(
            game,
            role,
            card,
            prediction,
            now,
        ).status.rank(),
        claim_rejection(game) is None ==> game.status == after_claim(game).status,
{
}

/// Once a game is `Completed` or `Draw`, its status, its winner and both
/// parties' records stay as they are: joining, committing and disclosing are
/// rejected whoever calls and whatever is passed, a settlement changes
/// nothing but the mark that it has happened, and resolving a valid game
/// again changes nothing at all.
pub proof fn lemma_result_is_final(
    game: Game,
    player: AccountId,
    bet_amount: u64,
    card: u8,
    prediction: u8,
    digest: Seq<u8>,
)
    requires
        game.status.is_terminal(),
    ensures
        join_rejection(game, player, bet_amount) == Some(GameError::GameNotAvailable),
        submit_rejection(game, player) == Some(GameError::GameNotInProgress),
        reveal_rejection(game, player, card, prediction, digest) == Some(
            GameError::GameNotInRevealPhase,
        ),
        after_claim(game).status == game.status,
        after_claim(game).winner == game.winner,
        after_claim(game).creator_move == game.creator_move,
        after_claim(game).opponent_move == game.opponent_move,
        game.wf() ==> game.resolved() == game,
{
}

/// A party that has committed cannot commit again: right after its
/// commitment was accepted, another one from the same party is rejected,
/// whatever hash it brings.
pub proof fn lemma_second_commitment_is_rejected(
    game: Game,
    player: AccountId,
    role: Role,
    commitment: [u8; 32],
    now: i64,
)
    requires
        game.role_of(player) == Some(role),
        submit_rejection(game, player) is None,
    ensures
        after_submit(game, role, commitment, now).role_of(player) == Some(role),
        after_submit(game, role, commitment, now).slot(role).committed_hash == Some(commitment),
        submit_rejection(after_submit(game, role, commitment, now), player) is Some,
{
}

/// A commitment on record stays on record unchanged. While a party's
/// commitment is on record, that party's attempt to commit is rejected in
/// every state of the game, and no accepted operation of either party alters
/// the commitment.
pub proof fn lemma_commitment_is_never_overwritten(
    game: Game,
    holder: Role,
    player: AccountId,
    role: Role,
    bet_amount: u64,
    commitment: [u8; 32],
    card: u8,
    prediction: u8,
    digest: Seq<u8>,
    now: i64,
)
    requires
        game.slot(holder).committed(),
    ensures
        game.role_of(player) == Some(holder) ==> submit_rejection(game, player) is Some,
        after_join(game, player, now).slot(holder).committed_hash == game.slot(
            holder,
        ).committed_hash,
        submit_rejection(game, player) is None && game.role_of(player) == Some(role)
            ==> after_submit(game, role, commitment, now).slot(holder).committed_hash
            == game.slot(holder).committed_hash,
        after_reveal(game, role, card, prediction, now).slot(holder).committed_hash == game.slot(
            holder,
        ).committed_hash,
        after_claim(game).slot(holder).committed_hash == game.slot(holder).committed_hash,
{
}

/// A game is settled once. The settlement that is accepted pays out of the
/// game's holding account, to the two parties only, and twice the bet in all:
/// the whole pot to the winner and nothing to the loser, or to each party its
/// stake. After it, a further settlement is rejected as `AlreadySettled`.
pub proof fn lemma_settlement_happens_once(game: Game)
    requires
        game.wf(),
        claim_rejection(game) is None,
    ensures
        claim_rejection(after_claim(game)) == Some(GameError::AlreadySettled),
        total_amount(payouts(game)) == 2 * game.bet_amount,
        forall|i: int|
            0 <= i < payouts(game).len() ==> {
                &&& (#[trigger] payouts(game)[i]).from == game.id
                &&& game.role_of(payouts(game)[i].to) is Some
            },
        paid_to(payouts(game), game.creator) + paid_to(payouts(game), game.opponent->0) == 2
            * game.bet_amount,
        game.status == GameStatus::Completed ==> game.winner is Some && paid_to(
            payouts(game),
            game.winner->0,
        ) == 2 * game.bet_amount,
        game.status == GameStatus::Draw ==> paid_to(payouts(game), game.creator)
            == game.bet_amount && paid_to(payouts(game), game.opponent->0) == game.bet_amount,
{
    let none = Seq::<Transfer>::empty();
    let creator = game.creator;
    let opponent = game.opponent->0;
    match game.winner {
        Some(winner) => {
            let pot = transfer(game.id, winner, (2 * game.bet_amount) as u64);
            assert(payouts(game) =~= none.push(pot));
            lemma_sums_after_push(none, pot, creator);
            lemma_sums_after_push(none, pot, opponent);
        },
        None => {
            let first = transfer(game.id, creator, game.bet_amount);
            let second = transfer(game.id, opponent, game.bet_amount);
            assert(payouts(game) =~= none.push(first).push(second));
            lemma_sums_after_push(none, first, creator);
            lemma_sums_after_push(none, first, opponent);
            lemma_sums_after_push(none.push(first), second, creator);
            lemma_sums_after_push(none.push(first), second, opponent);
        },
    }
}

/// A settled game stays settled. Such a game has its result, so every
/// operation on it is rejected, a further settlement as `AlreadySettled`, and
/// the record never changes again.
pub proof fn lemma_settled_games_stay_settled(
    game: Game,
    player: AccountId,
    bet_amount: u64,
    card: u8,
    prediction: u8,
    digest: Seq<u8>,
)
    requires
        game.wf(),
        game.settled,
    ensures
        game.status.is_terminal(),
        claim_rejection(game) == Some(GameError::AlreadySettled),
        join_rejection(game, player, bet_amount) is Some,
        submit_rejection(game, player) is Some,
        reveal_rejection(game, player, card, prediction, digest) is Some,
{
}

/// The stakes are accounted for at every step. What the holding account has
/// to hold for a game grows by exactly what a deposit brings in, shrinks by
/// exactly what a settlement pays out, and is otherwise unchanged: one bet
/// after the creation, two after the opponent has joined, nothing after the
/// settlement.
pub proof fn lemma_pot_is_conserved(
    game: Game,
    player: AccountId,
    role: Role,
    bet_amount: u64,
    commitment: [u8; 32],
    card: u8,
    prediction: u8,
    digest: Seq<u8>,
    now: i64,
)
    requires
        game.wf(),
    ensures
        new_game(game.id, player, bet_amount, now).held() == bet_amount,
        join_rejection(game, player, bet_amount) is None ==> after_join(game, player, now).held()
            == game.held() + bet_amount == 2 * game.bet_amount,
        submit_rejection(game, player) is None && game.role_of(player) == Some(role)
            ==> after_submit(game, role, commitment, now).held() == game.held(),
        reveal_rejection(game, player, card, prediction, digest) is None && game.role_of(player)
            == Some(role) ==> after_reveal(game, role, card, prediction, now).held()
            == game.held(),
        claim_rejection(game) is None ==> after_claim(game).held() == game.held() - total_amount(
            payouts(game),
        ) == 0,
{
    if claim_rejection(game) is None {
        lemma_settlement_happens_once(game);
    }
}

} // verus!
