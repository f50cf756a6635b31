//! Transactions as the application sees them, and their conversion from and
//! to rows of the database.

use vstd::prelude::*;

use crate::backend::database::{DBError, TransactionDB, DBGROUP_AUFLADUNG_ID, DBGROUP_SNACKBAR_ID};
use crate::model::{DatabaseId, GroupId, Money};

verus! {

/// What a transaction did, seen from the group it is shown for.
#[derive(Clone, Copy, Debug, PartialEq, Eq, Structural)]
pub enum TransactionType {
    Deposit,
    Withdraw,
    Bought(i64),
    Received(GroupId),
    Sent(GroupId),
    /// The sending group is the group the transaction is shown for.
    SentAndReceived(GroupId),
}

/// A balance before a transaction, and the change that the transaction makes.
pub struct TransactionDelta {
    pub amount_pre: i64,
    pub delta: i64,
}

impl TransactionDelta {
    /// The balance after the transaction.
    pub fn post_amount(&self) -> (r: i64)
        requires
            i64::MIN <= self.amount_pre + self.delta <= i64::MAX,
        ensures
            r == self.amount_pre + self.delta,
    {
        self.amount_pre + self.delta
    }
}

/// A transaction, seen from the group `group_id` (for a transfer between two
/// groups, the group it is shown for). `timestamp` counts milliseconds since
/// the Unix epoch.
#[derive(Clone, Debug)]
pub struct Transaction {
    pub id: DatabaseId,
    pub group_id: GroupId,
    pub is_undone: bool,
    pub t_type: TransactionType,
    pub money: Money,
    pub description: Option<String>,
    pub timestamp: i64,
}

/// The sending and the receiving group of the row that stores a transaction
/// of type `t_type` shown for `group_id`.
pub open spec fn stored_parties(group_id: GroupId, t_type: TransactionType) -> (GroupId, GroupId) {
    match t_type {
        TransactionType::Deposit => (group_id, GroupId(DBGROUP_AUFLADUNG_ID)),
        TransactionType::Withdraw => (GroupId(DBGROUP_AUFLADUNG_ID), group_id),
        TransactionType::Bought(_) => (group_id, GroupId(DBGROUP_SNACKBAR_ID)),
        TransactionType::Received(from) => (from, group_id),
        TransactionType::Sent(to) => (group_id, to),
        TransactionType::SentAndReceived(to) => (group_id, to),
    }
}

/// The extra datum stored with a transaction of type `t_type`: the other
/// group of a transfer, the article of a purchase.
pub open spec fn stored_type_data(t_type: TransactionType) -> Option<i64> {
    match t_type {
        TransactionType::Sent(g) => Some(g.0),
        TransactionType::SentAndReceived(g) => Some(g.0),
        TransactionType::Received(g) => Some(g.0),
        TransactionType::Bought(a) => Some(a),
        _ => None,
    }
}

/// The row that stores `t`.
pub open spec fn stored_row(t: Transaction) -> TransactionDB {
    TransactionDB {
        id: t.id,
        sender: stored_parties(t.group_id, t.t_type).0.0,
        receiver: stored_parties(t.group_id, t.t_type).1.0,
        is_undone: t.is_undone,
        t_type_data: stored_type_data(t.t_type),
        money: t.money.value as u64,
        description: t.description,
        timestamp: t.timestamp,
    }
}

impl From<Transaction> for TransactionDB {
    fn from(value: Transaction) -> (r: Self) {
        let Transaction { id, group_id, is_undone, t_type, money, description, timestamp } = value;
        let (sender, receiver) = match t_type {
            TransactionType::Deposit => (group_id, GroupId(DBGROUP_AUFLADUNG_ID)),
            TransactionType::Withdraw => (GroupId(DBGROUP_AUFLADUNG_ID), group_id),
            TransactionType::Bought(_) => (group_id, GroupId(DBGROUP_SNACKBAR_ID)),
            TransactionType::Received(from) => (from, group_id),
            TransactionType::Sent(to) => (group_id, to),
            TransactionType::SentAndReceived(to) => (group_id, to),
        };
        let t_type_data = match t_type {
            TransactionType::Sent(var) => Some(var.0),
            TransactionType::SentAndReceived(var) => Some(var.0),
            TransactionType::Received(var) => Some(var.0),
            TransactionType::Bought(var) => Some(var),
            _ => None,
        };
        TransactionDB {
            id,
            sender: sender.0,
            receiver: receiver.0,
            is_undone,
            t_type_data,
            money: money.value as u64,
            description,
            timestamp,
        }
    }
}

impl vstd::std_specs::convert::FromSpecImpl<Transaction> for TransactionDB {
    open spec fn obeys_from_spec() -> bool {
        true
    }

    open spec fn from_spec(v: Transaction) -> TransactionDB {
        stored_row(v)
    }
}

/// Whether the row belongs to one of the groups `group_ids`, as sender or as
/// receiver.
pub open spec fn row_is_visible(row: TransactionDB, group_ids: Seq<GroupId>) -> bool {
    group_ids.contains(GroupId(row.sender)) || group_ids.contains(GroupId(row.receiver))
}

/// Whether reading the row as a transaction needs its article: it is a
/// purchase, that is, money went to the snack bar but not from or to the
/// till.
pub open spec fn row_needs_article(row: TransactionDB, group_ids: Seq<GroupId>) -> bool {
    &&& row_is_visible(row, group_ids)
    &&& row.sender != DBGROUP_AUFLADUNG_ID
    &&& row.receiver != DBGROUP_AUFLADUNG_ID
    &&& row.receiver == DBGROUP_SNACKBAR_ID
}

/// The type of the transaction stored in `row`, seen from the groups
/// `group_ids`.
pub open spec fn read_type(row: TransactionDB, group_ids: Seq<GroupId>) -> TransactionType {
    let sender = GroupId(row.sender);
    let receiver = GroupId(row.receiver);
    let is_sender = group_ids.contains(sender);
    let is_receiver = group_ids.contains(receiver);
    if sender.0 == DBGROUP_AUFLADUNG_ID {
        TransactionType::Deposit
    } else if receiver.0 == DBGROUP_AUFLADUNG_ID {
        TransactionType::Withdraw
    } else if receiver.0 == DBGROUP_SNACKBAR_ID {
        TransactionType::Bought(row.t_type_data.unwrap())
    } else if is_sender && is_receiver {
        TransactionType::SentAndReceived(receiver)
    } else if is_sender {
        TransactionType::Sent(receiver)
    } else {
        TransactionType::Received(sender)
    }
}

/// The transaction stored in `row`, seen from the groups `group_ids`: shown
/// for the sender when it is one of them, else for the receiver.
pub open spec fn read_row(row: TransactionDB, group_ids: Seq<GroupId>) -> Transaction {
    Transaction {
        id: row.id,
        group_id: if group_ids.contains(GroupId(row.sender)) {
            GroupId(row.sender)
        } else {
            GroupId(row.receiver)
        },
        is_undone: row.is_undone,
        t_type: read_type(row, group_ids),
        money: Money { value: row.money as i64 },
        description: row.description,
        timestamp: row.timestamp,
    }
}

/// Whether `g` is one of `group_ids`.
fn contains_group(group_ids: &Vec<GroupId>, g: GroupId) -> (r: bool)
    ensures
        r == group_ids@.contains(g),
{
    let mut i: usize = 0;
    while i < group_ids.len()
        invariant
            i <= group_ids.len(),
            forall|j: int| 0 <= j < i ==> group_ids@[j] != g,
        decreases group_ids.len() - i,
    {
        if group_ids[i] == g {
            assert(group_ids@[i as int] == g);
            return true;
        }
        i = i + 1;
    }
    false
}

impl Transaction {
    /// Reads the row `row` as a transaction seen from the groups `group_ids`
    /// (the groups of the user who looks at it). The row must belong to one
    /// of them, as sender or as receiver; else the row cannot be shown and
    /// the result is an error.
    pub fn from_db(row: TransactionDB, group_ids: &Vec<GroupId>) -> (r: Result<Transaction, DBError>)
        requires
            row_needs_article(row, group_ids@) ==> row.t_type_data is Some,
        ensures
            r is Ok <==> row_is_visible(row, group_ids@),
            r matches Ok(t) ==> t == read_row(row, group_ids@),
            r matches Err(e) ==> e.message@
                == "invalid state when converting TransactionDB to Transaction either sender or reciever must be group id"@,
    {
        let sender = GroupId(row.sender);
        let receiver = GroupId(row.receiver);
        let is_sender = contains_group(group_ids, sender);
        let is_receiver = contains_group(group_ids, receiver);
        if !is_sender && !is_receiver {
            return Err(DBError::new(String::from_str(
                "invalid state when converting TransactionDB to Transaction either sender or reciever must be group id",
            )));
        }
        let group_id = if is_sender { sender } else { receiver };
        let t_type = if sender.0 == DBGROUP_AUFLADUNG_ID {
            TransactionType::Deposit
        } else if receiver.0 == DBGROUP_AUFLADUNG_ID {
            TransactionType::Withdraw
        } else if receiver.0 == DBGROUP_SNACKBAR_ID {
            TransactionType::Bought(row.t_type_data.unwrap())
        } else if is_sender && is_receiver {
            TransactionType::SentAndReceived(receiver)
        } else if is_sender {
            TransactionType::Sent(receiver)
        } else {
            TransactionType::Received(sender)
        };
        let TransactionDB { id, sender: _, receiver: _, is_undone, t_type_data: _, money, description, timestamp } = row;
        Ok(Transaction {
            id,
            group_id,
            is_undone,
            t_type,
            money: Money { value: money as i64 },
            description,
            timestamp,
        })
    }
}

/// The transfers and purchases that a row stores and gives back unchanged:
/// a purchase, or a transfer between the group it is shown for and another
/// group, where neither group is the till or the snack bar, and the groups
/// of the reader hold the group it is shown for and hold the other group
/// exactly when it is a transfer within the reader's groups.
pub open spec fn reads_back(t: Transaction, group_ids: Seq<GroupId>) -> bool {
    let own = t.group_id;
    &&& own.0 != DBGROUP_AUFLADUNG_ID
    &&& own.0 != DBGROUP_SNACKBAR_ID
    &&& group_ids.contains(own)
    &&& match t.t_type {
        TransactionType::Bought(_) => true,
        TransactionType::Sent(to) => to.0 != DBGROUP_AUFLADUNG_ID && to.0 != DBGROUP_SNACKBAR_ID
            && !group_ids.contains(to),
        TransactionType::SentAndReceived(to) => to.0 != DBGROUP_AUFLADUNG_ID
            && to.0 != DBGROUP_SNACKBAR_ID && group_ids.contains(to),
        TransactionType::Received(from) => from.0 != DBGROUP_AUFLADUNG_ID
            && from.0 != DBGROUP_SNACKBAR_ID && !group_ids.contains(from),
        _ => false,
    }
}

/// A purchase or a transfer that is stored as a row and read back from it,
/// by a reader whose groups hold the group it is shown for, is the same
/// transaction.
pub proof fn stored_transaction_reads_back(t: Transaction, group_ids: Seq<GroupId>)
    requires
        reads_back(t, group_ids),
    ensures
        row_is_visible(stored_row(t), group_ids),
        row_needs_article(stored_row(t), group_ids) ==> stored_row(t).t_type_data is Some,
        read_row(stored_row(t), group_ids) == t,
{
    let v = t.money.value;
    assert((v as u64) as i64 == v) by (bit_vector);
    let r = read_row(stored_row(t), group_ids);
    assert(r.money == t.money);
}

} // verus!
