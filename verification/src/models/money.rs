//! The failures of reading an amount of money from a text.

use vstd::prelude::*;

verus! {

/// Why a text is not an amount of money; each holds the part of the text
/// that is wrong.
#[derive(Clone, Debug)]
pub enum MoneyParseError {
    InvalidEuros(String),
    InvalidCents(String),
}

impl MoneyParseError {
    /// The message that tells what is wrong.
    pub fn to_string(&self) -> (r: String)
        ensures
            r@ == match self {
                MoneyParseError::InvalidEuros(err) => "Invalid Euros: "@ + err@,
                MoneyParseError::InvalidCents(err) => "Invalid Cents: "@ + err@,
            },
    {
        match self {
            MoneyParseError::InvalidEuros(err) => {
                let mut s = String::from_str("Invalid Euros: ");
                s.append(err.as_str());
                s
            },
            MoneyParseError::InvalidCents(err) => {
                let mut s = String::from_str("Invalid Cents: ");
                s.append(err.as_str());
                s
            },
        }
    }
}

} // verus!
