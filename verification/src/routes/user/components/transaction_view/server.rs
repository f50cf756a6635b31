//! Undoing a transaction: every member of the sending group gets back a share
//! of the money, and every member of the receiving group gives back a share.

use vstd::prelude::*;

use crate::backend::database::TransactionDB;
use crate::model::Money;

verus! {

/// Why a transaction cannot be undone.
#[derive(Clone, Copy, Debug, PartialEq, Eq, Structural)]
pub enum UndoError {
    /// The user who asks for the undo does not exist.
    InvalidUser,
    /// No transaction has the given id.
    InvalidTransaction,
    /// The transaction was undone before.
    AlreadyUndone,
}

impl UndoError {
    /// The message that the client is given.
    pub fn message(&self) -> (r: &'static str)
        ensures
            r@ == match self {
                UndoError::InvalidUser => "Invalid user!"@,
                UndoError::InvalidTransaction => "Invalid transaction!"@,
                UndoError::AlreadyUndone => "The transaction is already undone!"@,
            },
    {
        match self {
            UndoError::InvalidUser => "Invalid user!",
            UndoError::InvalidTransaction => "Invalid transaction!",
            UndoError::AlreadyUndone => "The transaction is already undone!",
        }
    }
}

/// Checks, in this order, that the user who asks exists, that the
/// transaction exists and that it is not undone yet; gives back the
/// transaction.
pub fn check_undo(user_found: bool, row: Option<TransactionDB>) -> (r: Result<TransactionDB, UndoError>)
    ensures
        !user_found ==> r == Err::<TransactionDB, UndoError>(UndoError::InvalidUser),
        user_found && row is None ==> r == Err::<TransactionDB, UndoError>(UndoError::InvalidTransaction),
        user_found ==> (row matches Some(t) ==> if t.is_undone {
            r == Err::<TransactionDB, UndoError>(UndoError::AlreadyUndone)
        } else {
            r == Ok::<TransactionDB, UndoError>(t)
        }),
{
    if !user_found {
        return Err(UndoError::InvalidUser);
    }
    match row {
        None => Err(UndoError::InvalidTransaction),
        Some(t) => {
            if t.is_undone {
                Err(UndoError::AlreadyUndone)
            } else {
                Ok(t)
            }
        },
    }
}

/// Whether member `i` of a group of `members` gets a cent more than the even
/// share of `money`. After the even shares, one cent at a time goes to the
/// members in their order, and the member at which the count of the
/// remaining cents reaches zero still gets one: so when `money` does not
/// divide evenly, `money % members + 1` members get one cent more.
pub open spec fn gets_extra_cent(money: nat, members: nat, i: int) -> bool {
    money % members != 0 && 0 <= i <= money % members
}

/// The share of `money` that member `i` of a group of `members` gets back
/// (or gives back) when a transaction is undone.
pub open spec fn undo_share(money: nat, members: nat, i: int) -> nat {
    if gets_extra_cent(money, members, i) {
        money / members + 1
    } else {
        money / members
    }
}

/// The sum of the first `k` shares.
pub open spec fn shares_sum(money: nat, members: nat, k: int) -> int
    decreases k,
{
    if k <= 0 {
        0
    } else {
        shares_sum(money, members, k - 1) + undo_share(money, members, k - 1)
    }
}

/// Whether `v` is a value of `i64`.
pub open spec fn fits_i64(v: int) -> bool {
    i64::MIN <= v <= i64::MAX
}

/// The even share of `money` among `members`, as the signed amount that is
/// booked (the conversion to `i64` wraps, as `as` does).
pub open spec fn booked_share(money: nat, members: nat) -> int {
    ((money / members) as u64) as i64 as int
}

/// The balance of sender `i` after the undo: the booked share, then one cent
/// more when it gets the extra cent.
pub open spec fn sender_balance_after(old: Money, money: nat, members: nat, i: int) -> int {
    old.value + booked_share(money, members) + if gets_extra_cent(money, members, i) { 1int } else { 0 }
}

/// The balance of receiver `i` after the undo: the booked share taken away,
/// then one cent more when it gives the extra cent.
pub open spec fn receiver_balance_after(old: Money, money: nat, members: nat, i: int) -> int {
    old.value - booked_share(money, members) - if gets_extra_cent(money, members, i) { 1int } else { 0 }
}

/// Whether booking the undo for the senders stays within `i64` at each step.
pub open spec fn senders_fit(senders: Seq<Money>, money: nat) -> bool {
    forall|i: int| 0 <= i < senders.len() ==> {
        &&& fits_i64(#[trigger] senders[i].value + booked_share(money, senders.len()))
        &&& fits_i64(sender_balance_after(senders[i], money, senders.len(), i))
    }
}

/// Whether booking the undo for the receivers stays within `i64` at each step.
pub open spec fn receivers_fit(receivers: Seq<Money>, money: nat) -> bool {
    &&& booked_share(money, receivers.len()) != i64::MIN
    &&& forall|i: int| 0 <= i < receivers.len() ==> {
        &&& fits_i64(#[trigger] receivers[i].value - booked_share(money, receivers.len()))
        &&& fits_i64(receiver_balance_after(receivers[i], money, receivers.len(), i))
    }
}

/// The balances of the members of the sending and of the receiving group
/// after the transaction of `money` cents between them is undone: every
/// sender gets back its share of the money, every receiver gives back its
/// share.
pub fn undo_balances(money: u64, senders: &Vec<Money>, receivers: &Vec<Money>) -> (r: (Vec<Money>, Vec<Money>))
    requires
        senders.len() > 0,
        receivers.len() > 0,
        senders_fit(senders@, money as nat),
        receivers_fit(receivers@, money as nat),
    ensures
        r.0.len() == senders.len(),
        r.1.len() == receivers.len(),
        forall|i: int| 0 <= i < senders.len() ==>
            r.0@[i].value == sender_balance_after(senders@[i], money as nat, senders.len() as nat, i),
        forall|i: int| 0 <= i < receivers.len() ==>
            r.1@[i].value == receiver_balance_after(receivers@[i], money as nat, receivers.len() as nat, i),
{
    let n = senders.len() as u64;
    let share_sender = (money / n) as i64;
    let rest_sender = money % n;
    let mut new_senders: Vec<Money> = Vec::new();
    let mut i: usize = 0;
    while i < senders.len()
        invariant
            i <= senders.len(),
            n == senders.len(),
            share_sender as int == booked_share(money as nat, n as nat),
            rest_sender == money % n,
            senders_fit(senders@, money as nat),
            new_senders.len() == i,
            forall|j: int| 0 <= j < i ==>
                new_senders@[j].value == sender_balance_after(senders@[j], money as nat, n as nat, j),
        decreases senders.len() - i,
    {
        let old = senders[i];
        assert(fits_i64(senders@[i as int].value + booked_share(money as nat, n as nat)));
        let mut v = old.value + share_sender;
        if rest_sender != 0 && (i as u64) <= rest_sender {
            assert(fits_i64(sender_balance_after(senders@[i as int], money as nat, n as nat, i as int)));
            v = v + 1;
        }
        new_senders.push(Money { value: v });
        i = i + 1;
    }
    let m = receivers.len() as u64;
    let share_receiver = (money / m) as i64;
    let rest_receiver = money % m;
    let mut new_receivers: Vec<Money> = Vec::new();
    let mut k: usize = 0;
    while k < receivers.len()
        invariant
            k <= receivers.len(),
            m == receivers.len(),
            share_receiver as int == booked_share(money as nat, m as nat),
            rest_receiver == money % m,
            receivers_fit(receivers@, money as nat),
            new_receivers.len() == k,
            forall|j: int| 0 <= j < k ==>
                new_receivers@[j].value == receiver_balance_after(receivers@[j], money as nat, m as nat, j),
        decreases receivers.len() - k,
    {
        let old = receivers[k];
        assert(fits_i64(receivers@[k as int].value - booked_share(money as nat, m as nat)));
        let mut v = old.value + (-share_receiver);
        if rest_receiver != 0 && (k as u64) <= rest_receiver {
            assert(fits_i64(receiver_balance_after(receivers@[k as int], money as nat, m as nat, k as int)));
            v = v + (-1);
        }
        new_receivers.push(Money { value: v });
        k = k + 1;
    }
    (new_senders, new_receivers)
}

/// The number of members among the first `k` that get the extra cent.
pub open spec fn extra_cents(money: nat, members: nat, k: int) -> int {
    if money % members == 0 || k <= 0 {
        0
    } else if k <= money % members + 1 {
        k
    } else {
        (money % members + 1) as int
    }
}

proof fn lemma_shares_sum(money: nat, members: nat, k: int)
    requires
        members > 0,
        0 <= k,
    ensures
        shares_sum(money, members, k) == k * (money / members) + extra_cents(money, members, k),
    decreases k,
{
    if k > 0 {
        lemma_shares_sum(money, members, k - 1);
        assert(k * (money / members) == (k - 1) * (money / members) + money / members) by (nonlinear_arith);
        assert(shares_sum(money, members, k) == shares_sum(money, members, k - 1) + undo_share(money, members, k - 1));
        assert(extra_cents(money, members, k) == extra_cents(money, members, k - 1)
            + if gets_extra_cent(money, members, k - 1) { 1int } else { 0 });
    } else {
        assert(k * (money / members) == 0) by (nonlinear_arith)
            requires k == 0;
    }
}

/// Undoing a transaction of `money` cents hands out, over all the members of
/// a group, exactly `money` cents when the members can share it evenly, and
/// one cent more when they cannot; every member's share is the even share
/// rounded down, or one cent more.
pub proof fn undo_shares_total(money: nat, members: nat)
    requires
        members > 0,
    ensures
        shares_sum(money, members, members as int) == money + if money % members != 0 { 1int } else { 0 },
        money % members == 0 ==> shares_sum(money, members, members as int) == money,
        forall|i: int| 0 <= i < members ==> {
            ||| #[trigger] undo_share(money, members, i) == money / members
            ||| undo_share(money, members, i) == money / members + 1
        },
{
    lemma_shares_sum(money, members, members as int);
    assert(members * (money / members) + money % members == money) by (nonlinear_arith)
        requires members > 0;
}

/// When the amount fits in `i64`, the balance of every member after an undo
/// is its balance before, with its share of the money added (for a sender)
/// or taken away (for a receiver).
pub proof fn undo_moves_the_shares(money: u64, old: Money, members: nat, i: int)
    requires
        members > 0,
        money <= i64::MAX,
    ensures
        sender_balance_after(old, money as nat, members, i) == old.value + undo_share(money as nat, members, i),
        receiver_balance_after(old, money as nat, members, i) == old.value - undo_share(money as nat, members, i),
{
    assert(money as nat / members <= money as nat) by (nonlinear_arith)
        requires members > 0;
}

} // verus!
