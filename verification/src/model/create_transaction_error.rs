//! The failures of creating a transaction.

use vstd::prelude::*;

use crate::model::{DatabaseId, UserId};
use crate::text::{joined, push_joined, push_signed_decimal, signed_decimal, texts};

verus! {

/// Why a transaction cannot be created. `ServerFn` holds the message of a
/// failed call of a server function.
#[derive(Clone, Debug)]
pub enum CreateTransactionError {
    TooLittleMoneyError(Vec<String>),
    TooMuchMoneyError(Vec<String>),
    StringMessage(String),
    ServerFn(String),
    ArticleDoesNotExist(DatabaseId),
    UserDoesNotExist(UserId),
}

impl CreateTransactionError {
    /// The failure with the message `value`.
    pub fn new(value: &str) -> (r: Self)
        ensures
            r matches CreateTransactionError::StringMessage(s) && s@ == value@,
    {
        Self::StringMessage(String::from_str(value))
    }

    /// The message that tells what failed.
    pub open spec fn display_text(&self) -> Seq<char> {
        match self {
            CreateTransactionError::TooLittleMoneyError(users) =>
                "the following users have too little money: "@ + joined(texts(users@), ", "@),
            CreateTransactionError::TooMuchMoneyError(users) =>
                "the following users have too much money: "@ + joined(texts(users@), ", "@),
            CreateTransactionError::StringMessage(m) => "Failed to create transaction: "@ + m@,
            CreateTransactionError::ServerFn(m) => "server fn error: "@ + m@,
            CreateTransactionError::ArticleDoesNotExist(id) =>
                "The article with id "@ + signed_decimal(*id as int) + " does not exist!"@,
            CreateTransactionError::UserDoesNotExist(id) =>
                "The user with id "@ + signed_decimal(id.0 as int) + " does not exist!"@,
        }
    }

    /// The message that tells what failed.
    pub fn to_string(&self) -> (r: String)
        ensures
            r@ == self.display_text(),
    {
        match self {
            CreateTransactionError::TooLittleMoneyError(users) => {
                let mut s = String::from_str("the following users have too little money: ");
                push_joined(&mut s, users, ", ");
                s
            },
            CreateTransactionError::TooMuchMoneyError(users) => {
                let mut s = String::from_str("the following users have too much money: ");
                push_joined(&mut s, users, ", ");
                s
            },
            CreateTransactionError::StringMessage(m) => {
                let mut s = String::from_str("Failed to create transaction: ");
                s.append(m.as_str());
                s
            },
            CreateTransactionError::ServerFn(m) => {
                let mut s = String::from_str("server fn error: ");
                s.append(m.as_str());
                s
            },
            CreateTransactionError::ArticleDoesNotExist(id) => {
                let mut s = String::from_str("The article with id ");
                push_signed_decimal(&mut s, *id);
                s.append(" does not exist!");
                s
            },
            CreateTransactionError::UserDoesNotExist(id) => {
                let mut s = String::from_str("The user with id ");
                push_signed_decimal(&mut s, id.0);
                s.append(" does not exist!");
                s
            },
        }
    }
}

} // verus!
