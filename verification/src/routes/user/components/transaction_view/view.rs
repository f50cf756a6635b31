//! How a transaction is shown in the list of a user's transactions.

use vstd::prelude::*;

use crate::model::money::{eur_diff_text, eur_text};
use crate::model::Money;
use crate::models::{Transaction, TransactionType};
use crate::text::{joined, push_joined, texts};

verus! {

/// The change of the shown balance that a transaction made: positive for
/// money that came in, negative for money that went out.
pub open spec fn balance_change(t_type: TransactionType, money: Money) -> int {
    match t_type {
        TransactionType::Deposit => money.value as int,
        TransactionType::Received(_) => money.value as int,
        TransactionType::SentAndReceived(_) => money.value as int,
        _ => -money.value,
    }
}

/// The change of the shown balance that a transaction made, which undoing
/// it takes back.
pub fn balance_effect(t_type: TransactionType, money: Money) -> (r: i64)
    requires
        t_type is Withdraw || t_type is Bought || t_type is Sent ==> money.value != i64::MIN,
    ensures
        r == balance_change(t_type, money),
{
    match t_type {
        TransactionType::Deposit | TransactionType::Received(_) | TransactionType::SentAndReceived(_) => money.value,
        TransactionType::Withdraw | TransactionType::Bought(_) | TransactionType::Sent(_) => -money.value,
    }
}

/// Whether a transaction made at `timestamp` can still be undone at `now`
/// (milliseconds): it is not undone, and no more than two whole minutes
/// have passed.
pub open spec fn undo_is_offered(is_undone: bool, now: int, timestamp: int) -> bool {
    !is_undone && now - timestamp < 180000
}

/// Whether the list offers to undo a transaction made at `timestamp`, at
/// the time `now`.
pub fn undo_offered(is_undone: bool, now: i64, timestamp: i64) -> (r: bool)
    requires
        i64::MIN <= now - timestamp <= i64::MAX,
    ensures
        r == undo_is_offered(is_undone, now as int, timestamp as int),
{
    if is_undone {
        return false;
    }
    let minutes = (now - timestamp) / 60000;
    assert((minutes > 2) == (now - timestamp >= 180000)) by {
        let d = now - timestamp;
        if d >= 0 {
            assert((d / 60000 > 2) == (d >= 180000));
        }
    }
    !(minutes > 2)
}

/// The amount of a transaction as the list shows it.
pub open spec fn amount_text(t_type: TransactionType, money: Money) -> Seq<char> {
    match t_type {
        TransactionType::Deposit => eur_diff_text(money.value as int),
        TransactionType::Received(_) => if money.value < 0 {
            seq!['-'] + eur_text(money.value as int)
        } else {
            seq!['+'] + eur_text(money.value as int)
        },
        TransactionType::Sent(_) => if -money.value < 0 {
            seq!['-'] + eur_text(money.value as int)
        } else {
            seq!['+'] + eur_text(money.value as int)
        },
        _ => seq!['-'] + eur_text(money.value as int),
    }
}

/// The amount of a transaction as the list shows it: a withdrawal or a
/// purchase with a '-', a deposit with its sign, money received or sent
/// with the sign of the change it made.
pub fn format_amount(t_type: TransactionType, money: Money) -> (r: String)
    requires
        !(t_type is SentAndReceived),
        t_type is Withdraw || t_type is Bought || t_type is Sent ==> money.value != i64::MIN,
    ensures
        r@ == amount_text(t_type, money),
{
    match t_type {
        TransactionType::Deposit => money.format_eur_diff(),
        TransactionType::Received(_) | TransactionType::Sent(_) => {
            let money_value = match t_type {
                TransactionType::Received(_) => money.value,
                _ => -money.value,
            };
            let mut s = if money_value < 0 {
                String::from_str("-")
            } else {
                String::from_str("+")
            };
            proof {
                reveal_strlit("-");
                reveal_strlit("+");
            }
            let e = money.format_eur();
            s.append(e.as_str());
            s
        },
        _ => {
            let mut s = String::from_str("-");
            proof {
                reveal_strlit("-");
            }
            let e = money.format_eur();
            s.append(e.as_str());
            s
        },
    }
}

/// `sorted` (newest first) with `t` put after every transaction that is as
/// new as `t` or newer.
pub open spec fn insert_by_time(sorted: Seq<Transaction>, t: Transaction) -> Seq<Transaction>
    decreases sorted.len(),
{
    if sorted.len() == 0 {
        seq![t]
    } else if sorted.last().timestamp >= t.timestamp {
        sorted.push(t)
    } else {
        insert_by_time(sorted.drop_last(), t).push(sorted.last())
    }
}

/// The transactions ordered newest first; transactions of the same time
/// keep their order.
pub open spec fn newest_first(transactions: Seq<Transaction>) -> Seq<Transaction>
    decreases transactions.len(),
{
    if transactions.len() == 0 {
        Seq::empty()
    } else {
        insert_by_time(newest_first(transactions.drop_last()), transactions.last())
    }
}

/// Whether the transactions are ordered newest first.
pub open spec fn is_newest_first(s: Seq<Transaction>) -> bool {
    forall|i: int, j: int| 0 <= i < j < s.len() ==> s[i].timestamp >= s[j].timestamp
}

proof fn lemma_insert_by_time(sorted: Seq<Transaction>, t: Transaction)
    requires
        is_newest_first(sorted),
    ensures
        is_newest_first(insert_by_time(sorted, t)),
        insert_by_time(sorted, t).to_multiset() == sorted.to_multiset().insert(t),
        insert_by_time(sorted, t).len() == sorted.len() + 1,
    decreases sorted.len(),
{
    broadcast use vstd::seq_lib::group_seq_properties, vstd::multiset::group_multiset_axioms;
    if sorted.len() == 0 {
        assert(seq![t] =~= Seq::<Transaction>::empty().push(t));
    } else if sorted.last().timestamp >= t.timestamp {
    } else {
        let init = sorted.drop_last();
        assert(is_newest_first(init));
        lemma_insert_by_time(init, t);
        let ins = insert_by_time(init, t);
        assert(sorted =~= init.push(sorted.last()));
        let res = ins.push(sorted.last());
        assert forall|i: int, j: int| 0 <= i < j < res.len() implies res[i].timestamp >= res[j].timestamp by {
            if j == ins.len() && init.len() > 0 {
                // every entry of `ins` is an entry of `init`, or `t`
                assert(ins.to_multiset().count(ins[i]) > 0);
                assert(init.to_multiset().insert(t).count(ins[i]) > 0);
                if ins[i] != t {
                    assert(init.to_multiset().count(ins[i]) > 0);
                    assert(init.contains(ins[i]));
                    let k = choose|k: int| 0 <= k < init.len() && init[k] == ins[i];
                    assert(sorted[k] == init[k]);
                }
            }
        }
    }
}

proof fn lemma_newest_first(transactions: Seq<Transaction>)
    ensures
        is_newest_first(newest_first(transactions)),
        newest_first(transactions).to_multiset() == transactions.to_multiset(),
        newest_first(transactions).len() == transactions.len(),
    decreases transactions.len(),
{
    broadcast use vstd::seq_lib::group_seq_properties, vstd::multiset::group_multiset_axioms;
    if transactions.len() > 0 {
        lemma_newest_first(transactions.drop_last());
        lemma_insert_by_time(newest_first(transactions.drop_last()), transactions.last());
        assert(transactions =~= transactions.drop_last().push(transactions.last()));
    }
}

/// The list shows the newest transactions first, and shows every
/// transaction exactly as often as it was given.
pub proof fn newest_transactions_come_first(transactions: Seq<Transaction>)
    ensures
        is_newest_first(newest_first(transactions)),
        newest_first(transactions).to_multiset() == transactions.to_multiset(),
{
    lemma_newest_first(transactions);
}

/// Puts `t` into `v` (newest first) after every transaction as new as `t`
/// or newer.
fn insert_by_timestamp(v: &mut Vec<Transaction>, t: Transaction)
    ensures
        final(v)@ == insert_by_time(old(v)@, t),
    decreases old(v)@.len(),
{
    if v.len() == 0 {
        v.push(t);
        assert(final(v)@ =~= seq![t]);
    } else {
        let last_time = v[v.len() - 1].timestamp;
        if last_time >= t.timestamp {
            v.push(t);
        } else {
            let ghost before = v@;
            let popped = v.pop().unwrap();
            assert(v@ =~= before.drop_last());
            insert_by_timestamp(v, t);
            v.push(popped);
        }
    }
}

/// Orders the transactions newest first, as the list shows them;
/// transactions of the same time keep their order.
pub fn sort_newest_first(transactions: Vec<Transaction>) -> (r: Vec<Transaction>)
    ensures
        r@ == newest_first(transactions@),
{
    let ghost all = transactions@;
    let mut sorted: Vec<Transaction> = Vec::new();
    for t in it: transactions.into_iter()
        invariant
            it.seq() == all,
            sorted@ == newest_first(all.subrange(0, it.index() as int)),
    {
        let ghost k = it.index() as int;
        assert(all.subrange(0, k + 1).drop_last() =~= all.subrange(0, k));
        insert_by_timestamp(&mut sorted, t);
    }
    assert(all.subrange(0, all.len() as int) =~= all);
    sorted
}

/// The line that names the other side of a transfer: the nicknames of the
/// members of the other group, separated by commas, then the description
/// after a colon where there is one.
pub fn describe_transfer(members: &Vec<String>, description: &Option<String>) -> (r: String)
    ensures
        r@ == joined(texts(members@), ", "@) + match description {
            Some(d) => ": "@ + d@,
            None => Seq::empty(),
        },
{
    let mut s = String::new();
    push_joined(&mut s, members, ", ");
    match description {
        Some(d) => {
            s.append(": ");
            s.append(d.as_str());
        },
        None => {},
    }
    s
}

} // verus!
