//! The kinds of transactions, as the user interface sees them.

use vstd::prelude::*;

use crate::model::GroupId;

verus! {

/// What a transaction did, seen from the group it is shown for.
#[derive(Clone, Copy, Debug, PartialEq, Eq, Structural)]
pub enum TransactionType {
    Deposit,
    Withdraw,
    Bought(i64),
    Received(GroupId),
    Sent(GroupId),
    /// The sending group is the group the transaction is shown for.
    SentAndReceived(GroupId),
}

/// A balance before a transaction, and the change that the transaction makes.
pub struct TransactionDelta {
    pub amount_pre: i64,
    pub delta: i64,
}

impl TransactionDelta {
    /// The balance after the transaction.
    pub fn post_amount(&self) -> (r: i64)
        requires
            i64::MIN <= self.amount_pre + self.delta <= i64::MAX,
        ensures
            r == self.amount_pre + self.delta,
    {
        self.amount_pre + self.delta
    }
}

} // verus!
