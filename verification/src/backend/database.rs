//! The rows of the database as plain values, the errors of database work,
//! and the reserved groups and users that stand for the till and the snack
//! bar.

use vstd::prelude::*;

use crate::model::DatabaseId;

verus! {

/// The identifier of the group on the other side of every cash deposit and withdrawal.
pub const DBGROUP_AUFLADUNG_ID: DatabaseId = 1;

/// The identifier of the group that receives the money of every article bought.
pub const DBGROUP_SNACKBAR_ID: DatabaseId = 2;

/// The identifier of the user that stands for cash deposits and withdrawals.
pub const DBUSER_AUFLADUNG_ID: DatabaseId = 1;

/// The identifier of the user that stands for the snack bar.
pub const DBUSER_SNACKBAR_ID: DatabaseId = 2;

/// A failure of database work, with its message.
#[derive(Clone, Debug)]
pub struct DBError {
    pub message: String,
}

impl DBError {
    /// An error with the given message.
    pub fn new(message: String) -> (r: DBError)
        ensures
            r.message@ == message@,
    {
        DBError { message }
    }
}

/// A row of the table of transactions: money moves from the `sender` group
/// to the `receiver` group. `t_type_data` holds the article of a purchase or
/// the other group of a transfer. `timestamp` counts milliseconds since the
/// Unix epoch.
#[derive(Clone, Debug)]
pub struct TransactionDB {
    pub id: DatabaseId,
    pub sender: DatabaseId,
    pub receiver: DatabaseId,
    pub is_undone: bool,
    pub t_type_data: Option<i64>,
    pub money: u64,
    pub description: Option<String>,
    pub timestamp: i64,
}

/// A row of the table of users: the nickname and the balance in cents.
#[derive(Clone, Debug)]
pub struct UserDB {
    pub id: DatabaseId,
    pub nickname: String,
    pub money: i64,
}

} // verus!
