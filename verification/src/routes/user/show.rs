//! The page of one user: booking deposits and withdrawals, and the sounds
//! that answer them.

use vstd::prelude::*;

use rand::seq::IndexedRandom;

use crate::backend::database::{DBGROUP_AUFLADUNG_ID, DBGROUP_SNACKBAR_ID, DBUSER_AUFLADUNG_ID, DBUSER_SNACKBAR_ID};
use crate::model::money::parse_money;
use crate::model::{GroupId, Money, UserId};
use crate::models::money::MoneyParseError;
use crate::backend::database::TransactionDB;
use crate::models::{AudioPlayback, Transaction, TransactionType};
use crate::routes::user::components::transaction_view::view::balance_change;
use crate::models::transaction::{read_row, row_is_visible, row_needs_article, stored_type_data};

verus! {

/// Whether the page of the user `id` may be shown: the users that stand for
/// the till and for the snack bar have none.
pub fn is_regular_user(id: UserId) -> (r: bool)
    ensures
        r == (id.0 != DBUSER_AUFLADUNG_ID && id.0 != DBUSER_SNACKBAR_ID),
{
    id.0 != DBUSER_AUFLADUNG_ID && id.0 != DBUSER_SNACKBAR_ID
}

/// Why a transaction cannot be booked for a user.
#[derive(Clone, Copy, Debug, PartialEq, Eq, Structural)]
pub enum TransactionRequestError {
    /// The amount is negative.
    NegativeMoney,
    /// Only deposits, withdrawals and purchases can be booked this way.
    Unsupported,
}

impl TransactionRequestError {
    /// The message that the client is given.
    pub fn message(&self) -> (r: &'static str)
        ensures
            r@ == match self {
                TransactionRequestError::NegativeMoney => "Money may not be negative"@,
                TransactionRequestError::Unsupported => "WIP"@,
            },
    {
        match self {
            TransactionRequestError::NegativeMoney => "Money may not be negative",
            TransactionRequestError::Unsupported => "WIP",
        }
    }
}

/// The sending and receiving groups of a transaction of `transaction_type`
/// booked for a user whose group is `user_group`.
pub open spec fn spec_transaction_groups(user_group: GroupId, money: Money, transaction_type: TransactionType) -> Result<(GroupId, GroupId), TransactionRequestError> {
    if money.value < 0 {
        Err(TransactionRequestError::NegativeMoney)
    } else {
        match transaction_type {
            TransactionType::Deposit => Ok((GroupId(DBGROUP_AUFLADUNG_ID), user_group)),
            TransactionType::Withdraw => Ok((user_group, GroupId(DBGROUP_AUFLADUNG_ID))),
            TransactionType::Bought(_) => Ok((user_group, GroupId(DBGROUP_SNACKBAR_ID))),
            _ => Err(TransactionRequestError::Unsupported),
        }
    }
}

/// The sending and receiving groups of a transaction of `money` and
/// `transaction_type` booked for a user whose group is `user_group`: a
/// deposit comes from the till, a withdrawal goes to it, a purchase goes to
/// the snack bar. Negative amounts and other types are refused.
pub fn transaction_groups(user_group: GroupId, money: Money, transaction_type: TransactionType) -> (r: Result<(GroupId, GroupId), TransactionRequestError>)
    ensures
        r == spec_transaction_groups(user_group, money, transaction_type),
{
    if money.value < 0 {
        return Err(TransactionRequestError::NegativeMoney);
    }
    match transaction_type {
        TransactionType::Deposit => Ok((GroupId(DBGROUP_AUFLADUNG_ID), user_group)),
        TransactionType::Withdraw => Ok((user_group, GroupId(DBGROUP_AUFLADUNG_ID))),
        TransactionType::Bought(_) => Ok((user_group, GroupId(DBGROUP_SNACKBAR_ID))),
        _ => Err(TransactionRequestError::Unsupported),
    }
}

/// A deposit, withdrawal or purchase booked for a user, stored as a row
/// between the groups that `transaction_groups` gives, reads back, for a
/// user of that group, as a transaction of the same type shown for the
/// user's group.
pub proof fn booked_transaction_reads_back(
    user_group: GroupId,
    money: Money,
    transaction_type: TransactionType,
    group_ids: Seq<GroupId>,
    row: TransactionDB,
)
    requires
        user_group.0 != DBGROUP_AUFLADUNG_ID,
        user_group.0 != DBGROUP_SNACKBAR_ID,
        group_ids.contains(user_group),
        !group_ids.contains(GroupId(DBGROUP_AUFLADUNG_ID)),
        spec_transaction_groups(user_group, money, transaction_type) matches Ok(p)
            && row.sender == p.0.0 && row.receiver == p.1.0,
        row.t_type_data == stored_type_data(transaction_type),
    ensures
        row_is_visible(row, group_ids),
        row_needs_article(row, group_ids) ==> row.t_type_data is Some,
        read_row(row, group_ids).t_type == transaction_type,
        read_row(row, group_ids).group_id == user_group,
{
}

/// The amount and type of the transaction that a change of the balance by
/// `money` books: a positive change is a deposit of it, any other a
/// withdrawal of its opposite.
pub fn money_change_request(money: Money) -> (r: (Money, TransactionType))
    requires
        money.value != i64::MIN,
    ensures
        r == change_request(money),
{
    if money.value > 0 {
        (money, TransactionType::Deposit)
    } else {
        (Money { value: -money.value }, TransactionType::Withdraw)
    }
}

/// The amount and type of the transaction that a change of the balance by
/// `money` books.
pub open spec fn change_request(money: Money) -> (Money, TransactionType) {
    if money.value > 0 {
        (money, TransactionType::Deposit)
    } else {
        (Money { value: (-money.value) as i64 }, TransactionType::Withdraw)
    }
}

/// The transaction booked for a change of the balance changes the shown
/// balance by exactly that amount, so undoing it (which takes back its
/// change) restores the balance.
pub proof fn booked_change_is_taken_back_by_undo(money: Money)
    requires
        money.value != i64::MIN,
    ensures
        balance_change(change_request(money).1, change_request(money).0) == money.value,
{
}

/// What the buttons for a custom amount do with the text `text` that was
/// typed: nothing for an empty text or a zero amount; else the amount, or
/// its opposite when `add` is false. A text that is not an amount is an
/// error.
pub open spec fn custom_change(add: bool, text: Seq<char>) -> Option<int> {
    if text.len() == 0 {
        None
    } else {
        match parse_money(text) {
            Ok(v) => if v == 0 {
                None
            } else if add {
                Some(v)
            } else {
                Some(-v)
            },
            Err(_) => None,
        }
    }
}

/// The change of the balance that the buttons for a custom amount ask for
/// with the text `text` (see `custom_change`).
pub fn custom_money_change(add: bool, text: &str) -> (r: Result<Option<Money>, MoneyParseError>)
    requires
        !add && text@.len() != 0 ==> parse_money(text@) != Ok::<int, (bool, Seq<char>)>(i64::MIN as int),
    ensures
        text@.len() != 0 && parse_money(text@) is Err ==> match parse_money(text@) {
            Err((true, part)) => r matches Err(MoneyParseError::InvalidEuros(t)) && t@ == part,
            Err((false, part)) => r matches Err(MoneyParseError::InvalidCents(t)) && t@ == part,
            _ => false,
        },
        text@.len() == 0 || parse_money(text@) is Ok ==> (r matches Ok(change) && match custom_change(add, text@) {
            None => change is None,
            Some(v) => change == Some(Money { value: v as i64 }),
        }),
{
    if text.unicode_len() == 0 {
        return Ok(None);
    }
    let mut money = match Money::parse(text) {
        Ok(value) => value,
        Err(e) => {
            return Err(e);
        },
    };
    if money.value == 0 {
        return Ok(None);
    }
    if !add {
        money.value = -money.value;
    }
    Ok(Some(money))
}

/// The sound that answers a transaction that was just booked: none for
/// money received.
pub fn sound_for_transaction(transaction: &Transaction) -> (r: Option<AudioPlayback>)
    ensures
        r == match transaction.t_type {
            TransactionType::Bought(id) => Some(AudioPlayback::Bought(id)),
            TransactionType::Deposit => Some(AudioPlayback::Deposit(transaction.money)),
            TransactionType::Withdraw => Some(AudioPlayback::Withdraw(transaction.money)),
            TransactionType::Received(_) => None,
            TransactionType::SentAndReceived(_) => None,
            TransactionType::Sent(_) => Some(AudioPlayback::Sent(transaction.money)),
        },
{
    match transaction.t_type {
        TransactionType::Bought(id) => Some(AudioPlayback::Bought(id)),
        TransactionType::Deposit => Some(AudioPlayback::Deposit(transaction.money)),
        TransactionType::Withdraw => Some(AudioPlayback::Withdraw(transaction.money)),
        TransactionType::Received(_) => None,
        TransactionType::SentAndReceived(_) => None,
        TransactionType::Sent(_) => Some(AudioPlayback::Sent(transaction.money)),
    }
}

/// One of `vec`, picked at random by the thread's random number generator
/// (`IndexedRandom::choose` with `rand::rng()`); `None` for an empty slice.
/// Which element comes back is left open.
#[verifier::external_body]
fn choose_random_item(vec: &[String]) -> (r: Option<&String>)
    ensures
        r is None <==> vec@.len() == 0,
        r matches Some(s) ==> vec@.contains(*s),
{
    vec.choose(&mut rand::rng())
}

/// The sound files from which the sound for `audio` is picked: the
/// failure sounds for a failure, the article's own sounds for a purchase of
/// an article that has some (`article_sounds`), else the generic sounds.
pub fn sound_candidates<'a>(
    audio: AudioPlayback,
    failed: &'a Vec<String>,
    generic: &'a Vec<String>,
    article_sounds: Option<&'a Vec<String>>,
) -> (r: &'a Vec<String>)
    ensures
        *r == match audio {
            AudioPlayback::Failed => *failed,
            AudioPlayback::Bought(_) => match article_sounds {
                Some(s) => *s,
                None => *generic,
            },
            _ => *generic,
        },
{
    match audio {
        AudioPlayback::Failed => failed,
        AudioPlayback::Undo => generic,
        AudioPlayback::Deposit(_) => generic,
        AudioPlayback::Sent(_) => generic,
        AudioPlayback::Withdraw(_) => generic,
        AudioPlayback::Bought(_) => match article_sounds {
            Some(sounds) => sounds,
            None => generic,
        },
    }
}

/// The failure to find a sound file: there are none to pick from.
#[derive(Clone, Copy, Debug, PartialEq, Eq, Structural)]
pub struct NoSoundFile;

impl NoSoundFile {
    /// The message that the client is given.
    pub fn message(&self) -> (r: &'static str)
        ensures
            r@ == "Failed to get sound file"@,
    {
        "Failed to get sound file"
    }
}

/// The address of a sound file picked at random from `candidates`, under
/// "/sounds/"; an error when there are none.
pub fn get_item_sound_url(candidates: &Vec<String>) -> (r: Result<String, NoSoundFile>)
    ensures
        r is Err <==> candidates@.len() == 0,
        r matches Ok(url) ==> exists|i: int| 0 <= i < candidates@.len() && url@ == "/sounds/"@ + candidates@[i]@,
{
    let file = choose_random_item(candidates.as_slice());
    match file {
        Some(val) => {
            let mut url = String::from_str("/sounds/");
            url.append(val.as_str());
            proof {
                let i = choose|i: int| 0 <= i < candidates@.len() && candidates@[i] == *val;
                assert(url@ == "/sounds/"@ + candidates@[i]@);
            }
            Ok(url)
        },
        None => Err(NoSoundFile),
    }
}

} // verus!
