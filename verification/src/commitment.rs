//! Commitments: a hash that binds a party to a hidden move.
//!
//! A move is a card and a prediction. A party commits to it by publishing the
//! SHA-256 digest of the card, the prediction and a 32-byte secret, laid out in
//! 34 bytes of fixed width. It later discloses all three, and the digest is
//! computed again and compared with what was published.
//!
//! There are only 45 legal moves, so the commitment hides the move only as
//! long as the secret is random, long and used once.

use vstd::prelude::*;
use crate::identity::words_equal;

verus! {

/// Smallest card a party may play.
pub const MIN_CARD: u8 = 1;

/// Largest card a party may play.
pub const MAX_CARD: u8 = 5;

/// Smallest sum that two cards can reach.
pub const MIN_PREDICTION: u8 = 2;

/// Largest sum that two cards can reach.
pub const MAX_PREDICTION: u8 = 10;

/// Tells whether a card and a prediction are a legal move.
pub open spec fn legal_move(card: u8, prediction: u8) -> bool {
    MIN_CARD <= card <= MAX_CARD && MIN_PREDICTION <= prediction <= MAX_PREDICTION
}

/// The SHA-256 digest of a byte string, as `solana_program::hash::hash`
/// computes it.
pub uninterp spec fn sha256(data: Seq<u8>) -> Seq<u8>;

/// The bytes that are hashed for a move: the card, the prediction, then the
/// secret, with nothing between them.
pub open spec fn commitment_preimage(card: u8, prediction: u8, secret: Seq<u8>) -> Seq<u8> {
    seq![card, prediction] + secret
}

/// The commitment to a move under a secret.
pub open spec fn commitment_of(card: u8, prediction: u8, secret: Seq<u8>) -> Seq<u8> {
    sha256(commitment_preimage(card, prediction, secret))
}

/// Tells whether a disclosed move and secret match a published commitment.
pub open spec fn opens(commitment: Seq<u8>, card: u8, prediction: u8, secret: Seq<u8>) -> bool {
    commitment == commitment_of(card, prediction, secret)
}

/// Calls `solana_program::hash::hash` on the bytes and takes the 32 bytes of
/// the `Hash` it returns. Trusted: the result is the SHA-256 digest of exactly
/// these bytes, the same for the same bytes on every call.
#[verifier::external_body]
fn digest(data: &Vec<u8>) -> (out: [u8; 32])
    ensures
        out@ == sha256(data@),
{
    anchor_lang::solana_program::hash::hash(data.as_slice()).to_bytes()
}

/// Lays out a move and its secret as the 34 bytes that are hashed.
pub fn encode_move(card: u8, prediction: u8, secret: &[u8; 32]) -> (bytes: Vec<u8>)
    ensures
        bytes@ == commitment_preimage(card, prediction, secret@),
        bytes@.len() == 34,
{
    let mut bytes: Vec<u8> = Vec::with_capacity(34);
    bytes.push(card);
    bytes.push(prediction);
    let mut i: usize = 0;
    while i < 32
        invariant
            i <= 32,
            bytes@ == seq![card, prediction] + secret@.subrange(0, i as int),
        decreases 32 - i,
    {
        bytes.push(secret[i]);
        i += 1;
    }
    proof {
        assert(secret@.subrange(0, 32) =~= secret@);
    }
    bytes
}

/// Computes the commitment to a move under a secret.
pub fn commit(card: u8, prediction: u8, secret: &[u8; 32]) -> (commitment: [u8; 32])
    ensures
        commitment@ == commitment_of(card, prediction, secret@),
{
    let bytes = encode_move(card, prediction, secret);
    digest(&bytes)
}

/// Checks a disclosed move and secret against a published commitment.
pub fn verify(commitment: &[u8; 32], card: u8, prediction: u8, secret: &[u8; 32]) -> (matches: bool)
    ensures
        matches == opens(commitment@, card, prediction, secret@),
{
    let recomputed = commit(card, prediction, secret);
    words_equal(&recomputed, commitment)
}

/// The layout of a move is unambiguous: two moves with their secrets give the
/// same 34 bytes only if card, prediction and secret are the same.
pub proof fn lemma_encoding_injective(
    card1: u8,
    prediction1: u8,
    secret1: Seq<u8>,
    card2: u8,
    prediction2: u8,
    secret2: Seq<u8>,
)
    requires
        commitment_preimage(card1, prediction1, secret1) == commitment_preimage(
            card2,
            prediction2,
            secret2,
        ),
    ensures
        card1 == card2,
        prediction1 == prediction2,
        secret1 == secret2,
{
    let first = commitment_preimage(card1, prediction1, secret1);
    let second = commitment_preimage(card2, prediction2, secret2);
    assert(first[0] == card1 && second[0] == card2);
    assert(first[1] == prediction1 && second[1] == prediction2);
    assert(first.len() == 2 + secret1.len() && second.len() == 2 + secret2.len());
    assert forall|i: int| 0 <= i < secret1.len() implies secret1[i] == secret2[i] by {
        assert(first[i + 2] == secret1[i] && second[i + 2] == secret2[i]);
    }
    assert(secret1 =~= secret2);
}

/// A commitment is opened by the move and secret it was computed from.
pub proof fn lemma_commitment_opens(card: u8, prediction: u8, secret: Seq<u8>)
    ensures
        opens(commitment_of(card, prediction, secret), card, prediction, secret),
{
}

} // verus!
