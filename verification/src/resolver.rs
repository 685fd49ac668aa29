//! The rule that names the winner once both moves are known.
//!
//! The target is the sum of the two cards. A party whose prediction equals the
//! target is correct. If exactly one party is correct, it wins. If neither is,
//! the game is drawn. If both are, the strictly higher card wins, and equal
//! cards draw.

use vstd::prelude::*;

verus! {

/// How a game ends.
#[derive(Clone, Copy, Debug, PartialEq, Eq, Structural)]
pub enum Outcome {
    /// The party that created the game takes the pot.
    CreatorWins,
    /// The party that joined the game takes the pot.
    OpponentWins,
    /// Nobody wins; each party gets its stake back.
    Draw,
}

/// The sum of both cards, which the predictions try to hit.
pub open spec fn target(creator_card: u8, opponent_card: u8) -> int {
    creator_card + opponent_card
}

/// The outcome of a game with the given cards and predictions.
pub open spec fn outcome_of(
    creator_card: u8,
    creator_prediction: u8,
    opponent_card: u8,
    opponent_prediction: u8,
) -> Outcome {
    let creator_correct = creator_prediction == target(creator_card, opponent_card);
    let opponent_correct = opponent_prediction == target(creator_card, opponent_card);
    if creator_correct && opponent_correct {
        if creator_card > opponent_card {
            Outcome::CreatorWins
        } else if opponent_card > creator_card {
            Outcome::OpponentWins
        } else {
            Outcome::Draw
        }
    } else if creator_correct {
        Outcome::CreatorWins
    } else if opponent_correct {
        Outcome::OpponentWins
    } else {
        Outcome::Draw
    }
}

/// Names the winner from the two disclosed moves. Any four bytes are taken:
/// the sum is formed without wrapping, so a prediction that no pair of cards
/// can reach is simply wrong.
pub fn determine_winner(
    creator_card: u8,
    creator_prediction: u8,
    opponent_card: u8,
    opponent_prediction: u8,
) -> (outcome: Outcome)
    ensures
        outcome == outcome_of(creator_card, creator_prediction, opponent_card, opponent_prediction),
{
    let wide_creator: u16 = creator_card.into();
    let wide_opponent: u16 = opponent_card.into();
    let total: u16 = wide_creator + wide_opponent;
    let creator_guess: u16 = creator_prediction.into();
    let opponent_guess: u16 = opponent_prediction.into();
    let creator_correct = creator_guess == total;
    let opponent_correct = opponent_guess == total;
    match (creator_correct, opponent_correct) {
        (true, false) => Outcome::CreatorWins,
        (false, true) => Outcome::OpponentWins,
        (false, false) => Outcome::Draw,
        (true, true) => {
            if creator_card > opponent_card {
                Outcome::CreatorWins
            } else if opponent_card > creator_card {
                Outcome::OpponentWins
            } else {
                Outcome::Draw
            }
        },
    }
}

/// The rule treats both parties alike: with the two moves exchanged, the
/// winner is exchanged too, and a draw stays a draw.
pub proof fn lemma_outcome_symmetric(
    creator_card: u8,
    creator_prediction: u8,
    opponent_card: u8,
    opponent_prediction: u8,
)
    ensures
        outcome_of(opponent_card, opponent_prediction, creator_card, creator_prediction) == (
        match outcome_of(creator_card, creator_prediction, opponent_card, opponent_prediction) {
            Outcome::CreatorWins => Outcome::OpponentWins,
            Outcome::OpponentWins => Outcome::CreatorWins,
            Outcome::Draw => Outcome::Draw,
        }),
{
}

/// A party that predicted wrongly never wins, and a party that alone
/// predicted rightly always does.
pub proof fn lemma_outcome_follows_predictions(
    creator_card: u8,
    creator_prediction: u8,
    opponent_card: u8,
    opponent_prediction: u8,
)
    ensures
        ({
            let outcome = outcome_of(
                creator_card,
                creator_prediction,
                opponent_card,
                opponent_prediction,
            );
            let sum = target(creator_card, opponent_card);
            &&& outcome == Outcome::CreatorWins ==> creator_prediction == sum
            &&& outcome == Outcome::OpponentWins ==> opponent_prediction == sum
            &&& creator_prediction == sum && opponent_prediction != sum ==> outcome
                == Outcome::CreatorWins
            &&& opponent_prediction == sum && creator_prediction != sum ==> outcome
                == Outcome::OpponentWins
            &&& creator_prediction != sum && opponent_prediction != sum ==> outcome
                == Outcome::Draw
        }),
{
}

} // verus!
