//! Requests to the ledger that holds the stakes.
//!
//! The game never moves value itself. An operation that calls for a movement
//! of value hands back the transfers to be made, and the caller has the ledger
//! carry them out together with the change of the game record: both or
//! neither.

use vstd::prelude::*;
use crate::identity::AccountId;

verus! {

/// A request to move an amount from one account to another.
#[derive(Clone, Copy, Debug, PartialEq, Eq)]
pub struct Transfer {
    /// The account that is debited.
    pub from: AccountId,
    /// The account that is credited.
    pub to: AccountId,
    /// How much is moved.
    pub amount: u64,
}

/// The request to move `amount` from `from` to `to`.
pub open spec fn transfer(from: AccountId, to: AccountId, amount: u64) -> Transfer {
    Transfer { from, to, amount }
}

/// The sum of the amounts of a list of transfers.
pub open spec fn total_amount(transfers: Seq<Transfer>) -> int
    decreases transfers.len(),
{
    if transfers.len() == 0 {
        0
    } else {
        total_amount(transfers.drop_last()) + transfers.last().amount
    }
}

/// The sum of the amounts that a list of transfers credits to one account.
pub open spec fn paid_to(transfers: Seq<Transfer>, account: AccountId) -> int
    decreases transfers.len(),
{
    if transfers.len() == 0 {
        0
    } else {
        paid_to(transfers.drop_last(), account) + if transfers.last().to == account {
            transfers.last().amount as int
        } else {
            0
        }
    }
}

/// Both sums grow by one transfer as that transfer says: the total by its
/// amount, and what an account is paid by its amount if it is credited.
pub proof fn lemma_sums_after_push(transfers: Seq<Transfer>, next: Transfer, account: AccountId)
    ensures
        total_amount(transfers.push(next)) == total_amount(transfers) + next.amount,
        paid_to(transfers.push(next), account) == paid_to(transfers, account) + if next.to
            == account {
            next.amount as int
        } else {
            0
        },
{
    assert(transfers.push(next).drop_last() =~= transfers);
}

impl Transfer {
    /// Makes the request to move `amount` from `from` to `to`.
    pub fn new(from: AccountId, to: AccountId, amount: u64) -> (request: Transfer)
        ensures
            request == transfer(from, to, amount),
    {
        Transfer { from, to, amount }
    }
}

} // verus!
