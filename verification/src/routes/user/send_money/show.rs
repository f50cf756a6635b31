//! Sending money from one user to another.

use vstd::prelude::*;

use crate::backend::user::User;
use crate::model::money::parse_money;
use crate::model::{Money, UserId};
use crate::text::{contains, contains_text, lowercase, to_lowercase};
use crate::models::money::MoneyParseError;

verus! {

/// Why money cannot be sent.
#[derive(Clone, Debug)]
pub enum SendMoneyError {
    /// The amount is not an amount of money.
    InvalidAmount { amount: String, error: MoneyParseError },
    /// The amount is negative.
    NegativeAmount,
    /// The sending user does not exist.
    UnknownSender,
    /// No user has the given nickname.
    UnknownReceiver(String),
    /// A user cannot send money to itself.
    SameUser,
}

impl SendMoneyError {
    /// The message that the client is given.
    pub fn message(&self) -> (r: String)
        ensures
            r@ == match self {
                SendMoneyError::InvalidAmount { amount, error } => "Failed to convert '"@ + amount@
                    + "' to internal representation: "@ + match error {
                    MoneyParseError::InvalidEuros(t) => "Invalid Euros: "@ + t@,
                    MoneyParseError::InvalidCents(t) => "Invalid Cents: "@ + t@,
                },
                SendMoneyError::NegativeAmount => "Amount to be sent must be > 0!"@,
                SendMoneyError::UnknownSender => "The user you are trying to send the money from does not exist!"@,
                SendMoneyError::UnknownReceiver(nick) => "There is no such user with the nick '"@ + nick@ + "'!"@,
                SendMoneyError::SameUser => "Sending and receiving user must not be the same!"@,
            },
    {
        match self {
            SendMoneyError::InvalidAmount { amount, error } => {
                let mut s = String::from_str("Failed to convert '");
                s.append(amount.as_str());
                s.append("' to internal representation: ");
                let e = error.to_string();
                s.append(e.as_str());
                s
            },
            SendMoneyError::NegativeAmount => String::from_str("Amount to be sent must be > 0!"),
            SendMoneyError::UnknownSender => String::from_str(
                "The user you are trying to send the money from does not exist!",
            ),
            SendMoneyError::UnknownReceiver(nick) => {
                let mut s = String::from_str("There is no such user with the nick '");
                s.append(nick.as_str());
                s.append("'!");
                s
            },
            SendMoneyError::SameUser => String::from_str("Sending and receiving user must not be the same!"),
        }
    }
}

/// Whether sending `money` from `from` to `to` keeps both balances within
/// `i64`.
pub open spec fn transfer_fits(money: Money, from: User, to: User) -> bool {
    &&& i64::MIN <= from.money.value - money.value <= i64::MAX
    &&& i64::MIN <= to.money.value + money.value <= i64::MAX
}

/// `user` with `delta` added to its balance.
pub open spec fn with_added_money(user: User, delta: int) -> User {
    User { money: Money { value: (user.money.value + delta) as i64 }, ..user }
}

/// The outcome of sending `money` from `from` to the user found under the
/// nickname `to_nick` (`to`, if there is one).
pub open spec fn spec_send_money(money: Money, from: Option<User>, to_nick: String, to: Option<User>) -> Result<(User, User), SendMoneyError> {
    if money.value < 0 {
        Err(SendMoneyError::NegativeAmount)
    } else if from is None {
        Err(SendMoneyError::UnknownSender)
    } else if to is None {
        Err(SendMoneyError::UnknownReceiver(to_nick))
    } else if from->0.id == to->0.id {
        Err(SendMoneyError::SameUser)
    } else {
        Ok((with_added_money(from->0, -money.value), with_added_money(to->0, money.value as int)))
    }
}

/// Sends the amount written `amount` from the user `from` to the user found
/// under the nickname `to_nick` (`to`, if there is one). The checks come in
/// this order: the amount is an amount of money, it is not negative, the
/// sender exists, the receiver exists, they are two users. Gives back both
/// users with their new balances.
pub fn send_money(amount: &str, from: Option<User>, to_nick: String, to: Option<User>) -> (r: Result<(User, User), SendMoneyError>)
    requires
        parse_money(amount@) matches Ok(v) ==> (v >= 0 && from is Some && to is Some && from->0.id != to->0.id
            ==> transfer_fits(Money { value: v as i64 }, from->0, to->0)),
    ensures
        parse_money(amount@) matches Ok(v) ==> r == spec_send_money(Money { value: v as i64 }, from, to_nick, to),
        parse_money(amount@) matches Err((true, part)) ==> (r matches Err(SendMoneyError::InvalidAmount { amount: a, error: MoneyParseError::InvalidEuros(t) })
            && a@ == amount@ && t@ == part),
        parse_money(amount@) matches Err((false, part)) ==> (r matches Err(SendMoneyError::InvalidAmount { amount: a, error: MoneyParseError::InvalidCents(t) })
            && a@ == amount@ && t@ == part),
{
    let money = match Money::parse(amount) {
        Ok(value) => value,
        Err(e) => {
            return Err(SendMoneyError::InvalidAmount { amount: String::from_str(amount), error: e });
        },
    };
    if money.value < 0 {
        return Err(SendMoneyError::NegativeAmount);
    }
    let mut from_user = match from {
        Some(value) => value,
        None => {
            return Err(SendMoneyError::UnknownSender);
        },
    };
    let mut to_user = match to {
        Some(value) => value,
        None => {
            return Err(SendMoneyError::UnknownReceiver(to_nick));
        },
    };
    if from_user.id == to_user.id {
        return Err(SendMoneyError::SameUser);
    }
    from_user.add_money(Money { value: -money.value });
    to_user.add_money(money);
    Ok((from_user, to_user))
}

/// Money that is sent from one user to another is neither made nor lost:
/// when the transfer succeeds, the two balances add up to the same sum
/// before and after, and the sender's balance goes down by the amount.
pub proof fn send_money_keeps_the_sum(money: Money, from: User, to_nick: String, to: User)
    requires
        transfer_fits(money, from, to),
    ensures
        spec_send_money(money, Some(from), to_nick, Some(to)) matches Ok((f, t)) ==> {
            &&& f.money.value + t.money.value == from.money.value + to.money.value
            &&& f.money.value == from.money.value - money.value
        },
{
}

/// Whether `user` is offered as the receiver to the user `own` who searches
/// for `search`: it is another user, and its nickname holds the search text,
/// both in lower case.
pub open spec fn is_receiver_choice(user: User, own: UserId, search: Seq<char>) -> bool {
    user.id != own && contains_text(lowercase(user.nickname@), lowercase(search))
}

/// The users of `users` that are offered as receivers, in their order.
pub open spec fn receiver_choices(users: Seq<User>, own: UserId, search: Seq<char>) -> Seq<User>
    decreases users.len(),
{
    if users.len() == 0 {
        Seq::empty()
    } else if is_receiver_choice(users.last(), own, search) {
        receiver_choices(users.drop_last(), own, search).push(users.last())
    } else {
        receiver_choices(users.drop_last(), own, search)
    }
}

/// The receivers offered are exactly the users picked by any predicate `p`
/// that holds of the other users whose nickname, in lower case, holds the
/// search text in lower case: all of them, in their order, however many.
pub proof fn receivers_are_the_matching_other_users(
    users: Seq<User>,
    own: UserId,
    search: Seq<char>,
    p: spec_fn(User) -> bool,
)
    requires
        forall|u: User| #[trigger] p(u) == (u.id != own && contains_text(lowercase(u.nickname@), lowercase(search))),
    ensures
        receiver_choices(users, own, search) == users.filter(p),
    decreases users.len(),
{
    reveal(Seq::filter);
    if users.len() > 0 {
        receivers_are_the_matching_other_users(users.drop_last(), own, search, p);
        assert(p(users.last()) == is_receiver_choice(users.last(), own, search));
    }
}

/// Every other user whose nickname, in lower case, holds the search text in
/// lower case is offered as a receiver, and every user offered is such a
/// user of `users`.
pub proof fn every_matching_user_can_receive(users: Seq<User>, own: UserId, search: Seq<char>)
    ensures
        forall|i: int|
            #![trigger users[i]]
            0 <= i < users.len() && users[i].id != own && contains_text(lowercase(users[i].nickname@), lowercase(search))
                ==> receiver_choices(users, own, search).contains(users[i]),
        forall|j: int|
            #![trigger receiver_choices(users, own, search)[j]]
            0 <= j < receiver_choices(users, own, search).len() ==> {
                let u = receiver_choices(users, own, search)[j];
                &&& users.contains(u)
                &&& u.id != own
                &&& contains_text(lowercase(u.nickname@), lowercase(search))
            },
{
    broadcast use vstd::seq_lib::group_filter_ensures;
    let p = |u: User| u.id != own && contains_text(lowercase(u.nickname@), lowercase(search));
    receivers_are_the_matching_other_users(users, own, search, p);
    let rc = receiver_choices(users, own, search);
    assert forall|i: int|
        #![trigger users[i]]
        0 <= i < users.len() && users[i].id != own && contains_text(lowercase(users[i].nickname@), lowercase(search))
            implies rc.contains(users[i]) by {
        assert(p(users[i]));
    }
    assert forall|j: int| #![trigger rc[j]] 0 <= j < rc.len() implies {
        &&& users.contains(rc[j])
        &&& rc[j].id != own
        &&& contains_text(lowercase(rc[j].nickname@), lowercase(search))
    } by {
        assert(p(rc[j]));
        assert(rc.contains(rc[j]));
        users.lemma_filter_contains_rev(p, rc[j]);
    }
}

/// A copy of `user`.
fn copy_user(user: &User) -> (r: User)
    ensures
        r == *user,
{
    let card_number = match &user.card_number {
        Some(card) => Some(card.clone()),
        None => None,
    };
    User { id: user.id, nickname: user.nickname.clone(), card_number, money: user.money }
}

/// The users that the user `own` can send money to while it searches for
/// `search`: every other user whose nickname holds the search text, both in
/// lower case, in the order of `users`.
pub fn receivers_for(users: &Vec<User>, own: UserId, search: &str) -> (r: Vec<User>)
    ensures
        r@ == receiver_choices(users@, own, search@),
        forall|i: int|
            #![trigger users@[i]]
            0 <= i < users.len() && users@[i].id != own && contains_text(lowercase(users@[i].nickname@), lowercase(search@))
                ==> r@.contains(users@[i]),
        forall|j: int|
            #![trigger r@[j]]
            0 <= j < r.len() ==> users@.contains(r@[j]) && r@[j].id != own
                && contains_text(lowercase(r@[j].nickname@), lowercase(search@)),
{
    proof {
        every_matching_user_can_receive(users@, own, search@);
    }
    let lower_search = to_lowercase(search);
    let mut r: Vec<User> = Vec::new();
    let mut i: usize = 0;
    while i < users.len()
        invariant
            i <= users.len(),
            lower_search@ == lowercase(search@),
            r@ == receiver_choices(users@.take(i as int), own, search@),
        decreases users.len() - i,
    {
        let user = &users[i];
        assert(users@.take(i + 1).drop_last() =~= users@.take(i as int));
        assert(users@.take(i + 1).last() == *user);
        if user.id != own {
            let lower_nick = to_lowercase(user.nickname.as_str());
            if contains(lower_nick.as_str(), lower_search.as_str()) {
                r.push(copy_user(user));
            }
        }
        i = i + 1;
    }
    assert(users@.take(i as int) =~= users@);
    r
}

} // verus!
