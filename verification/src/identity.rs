//! Identities of the accounts that take part in a game.

use vstd::prelude::*;

verus! {

/// Number of bytes in an account identity and in a hash value.
pub const WORD_BYTES: usize = 32;

/// Compares two 32-byte words.
pub fn words_equal(a: &[u8; 32], b: &[u8; 32]) -> (same: bool)
    ensures
        same == (a@ == b@),
        same == (*a == *b),
{
    let mut i: usize = 0;
    while i < WORD_BYTES
        invariant
            i <= WORD_BYTES,
            forall|k: int| 0 <= k < i ==> a@[k] == b@[k],
        decreases WORD_BYTES - i,
    {
        if a[i] != b[i] {
            return false;
        }
        i += 1;
    }
    proof {
        assert(a@ =~= b@);
        assert(*a =~= *b);
    }
    true
}

/// The identity of an account on the ledger: a party's own account, or the
/// balance that holds the stakes of one game.
#[derive(Clone, Copy, Debug, PartialEq, Eq, Hash)]
pub struct AccountId {
    pub bytes: [u8; 32],
}

impl AccountId {
    /// Wraps the 32 bytes of an identity.
    pub fn new(bytes: [u8; 32]) -> (id: AccountId)
        ensures
            id.bytes == bytes,
    {
        AccountId { bytes }
    }

    /// Tells whether two identities name the same account.
    pub fn same_as(&self, other: &AccountId) -> (same: bool)
        ensures
            same == (*self == *other),
    {
        words_equal(&self.bytes, &other.bytes)
    }
}

/// Tells whether two optional identities are both absent or name the same
/// account.
pub fn same_party(a: &Option<AccountId>, b: &Option<AccountId>) -> (same: bool)
    ensures
        same == (*a == *b),
{
    match (a, b) {
        (Some(x), Some(y)) => x.same_as(y),
        (None, None) => true,
        _ => false,
    }
}

} // verus!
