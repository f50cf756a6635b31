//! The users of the tally sheet as the application sees them.

use vstd::prelude::*;

use crate::backend::database::UserDB;
use crate::model::{Money, UserId};

verus! {

/// A user, with the balance of its account.
#[derive(Clone, Debug)]
pub struct User {
    pub id: UserId,
    pub nickname: String,
    pub card_number: Option<String>,
    pub money: Money,
}

impl User {
    /// Adds `money` (which may be negative) to the balance of the user.
    pub fn add_money(&mut self, money: Money)
        requires
            i64::MIN <= old(self).money.value + money.value <= i64::MAX,
        ensures
            final(self).money.value == old(self).money.value + money.value,
            final(self).id == old(self).id,
            final(self).nickname == old(self).nickname,
            final(self).card_number == old(self).card_number,
    {
        let new_money = self.money.value + money.value;
        self.money = Money { value: new_money };
    }
    /// The user of the row `row`, with the card number read beside it.
    pub fn from_row(row: UserDB, card_number: Option<String>) -> (r: User)
        ensures
            r.id == UserId(row.id),
            r.nickname == row.nickname,
            r.card_number == card_number,
            r.money.value == row.money,
    {
        User { id: UserId(row.id), nickname: row.nickname, card_number, money: Money { value: row.money } }
    }
}

} // verus!
