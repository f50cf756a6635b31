//! The failures of splitting a cost among users.

use vstd::prelude::*;

use crate::model::create_transaction_error::CreateTransactionError;

verus! {

/// Why a cost cannot be split. `ServerFn` holds the message of a failed
/// call of a server function.
#[derive(Clone, Debug)]
pub enum SplitCostError {
    ServerFn(String),
    DatabaseError(String),
    MoneyParseError(String),
    MoneyError(String),
    UserDoesNotExistError(String),
    CreateTransactionError(String),
    MayNotBeEmptyError(String),
}

impl SplitCostError {
    /// The failure to create the transaction of a split, with the message of
    /// `value`.
    pub fn from(value: CreateTransactionError) -> (r: Self)
        ensures
            r matches SplitCostError::CreateTransactionError(m) && m@ == value.display_text(),
    {
        Self::CreateTransactionError(value.to_string())
    }

    /// The message that tells what failed.
    pub fn to_string(&self) -> (r: String)
        ensures
            r@ == match self {
                SplitCostError::ServerFn(m) => "Server function error: "@ + m@,
                SplitCostError::DatabaseError(m) => "Database error: "@ + m@,
                SplitCostError::MoneyParseError(m) => "Failed to parse money: "@ + m@,
                SplitCostError::MoneyError(m) => "Money error: "@ + m@,
                SplitCostError::UserDoesNotExistError(m) => "User with nickname '"@ + m@ + "' does not exist!"@,
                SplitCostError::CreateTransactionError(m) => "Failed to create transaction: "@ + m@,
                SplitCostError::MayNotBeEmptyError(m) => m@ + " may not be empty"@,
            },
    {
        match self {
            SplitCostError::ServerFn(m) => {
                let mut s = String::from_str("Server function error: ");
                s.append(m.as_str());
                s
            },
            SplitCostError::DatabaseError(m) => {
                let mut s = String::from_str("Database error: ");
                s.append(m.as_str());
                s
            },
            SplitCostError::MoneyParseError(m) => {
                let mut s = String::from_str("Failed to parse money: ");
                s.append(m.as_str());
                s
            },
            SplitCostError::MoneyError(m) => {
                let mut s = String::from_str("Money error: ");
                s.append(m.as_str());
                s
            },
            SplitCostError::UserDoesNotExistError(m) => {
                let mut s = String::from_str("User with nickname '");
                s.append(m.as_str());
                s.append("' does not exist!");
                s
            },
            SplitCostError::CreateTransactionError(m) => {
                let mut s = String::from_str("Failed to create transaction: ");
                s.append(m.as_str());
                s
            },
            SplitCostError::MayNotBeEmptyError(m) => {
                let mut s = m.clone();
                s.append(" may not be empty");
                s
            },
        }
    }
}

} // verus!
