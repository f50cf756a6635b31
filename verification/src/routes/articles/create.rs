//! Creating an article.

use vstd::prelude::*;

use crate::model::money::parse_money;
use crate::model::Money;
use crate::models::money::MoneyParseError;

verus! {

/// Why an article cannot be created.
#[derive(Clone, Debug)]
pub enum CreateArticleError {
    EmptyName,
    EmptyCost,
    InvalidCost(MoneyParseError),
}

impl CreateArticleError {
    /// The message that the client is given.
    pub fn message(&self) -> (r: String)
        ensures
            self matches CreateArticleError::EmptyName ==> r@ == "Name cannot be empty!"@,
            self matches CreateArticleError::EmptyCost ==> r@ == "Cost cannot be empty!"@,
            self matches CreateArticleError::InvalidCost(e) ==> r@ == match e {
                MoneyParseError::InvalidEuros(t) => "Invalid Euros: "@ + t@,
                MoneyParseError::InvalidCents(t) => "Invalid Cents: "@ + t@,
            },
    {
        match self {
            CreateArticleError::EmptyName => String::from_str("Name cannot be empty!"),
            CreateArticleError::EmptyCost => String::from_str("Cost cannot be empty!"),
            CreateArticleError::InvalidCost(e) => e.to_string(),
        }
    }
}

/// Checks the name and the price of a new article, in this order: the name
/// is not empty, the price is not empty, the price is an amount of money.
/// Gives back the price.
pub fn create_article(name: &str, cost: &str) -> (r: Result<Money, CreateArticleError>)
    ensures
        name@.len() == 0 ==> r matches Err(CreateArticleError::EmptyName),
        name@.len() != 0 && cost@.len() == 0 ==> r matches Err(CreateArticleError::EmptyCost),
        name@.len() != 0 && cost@.len() != 0 ==> match parse_money(cost@) {
            Ok(v) => r == Ok::<Money, CreateArticleError>(Money { value: v as i64 }),
            Err((true, part)) => r matches Err(CreateArticleError::InvalidCost(MoneyParseError::InvalidEuros(t))) && t@ == part,
            Err((false, part)) => r matches Err(CreateArticleError::InvalidCost(MoneyParseError::InvalidCents(t))) && t@ == part,
        },
{
    if name.unicode_len() == 0 {
        return Err(CreateArticleError::EmptyName);
    }
    if cost.unicode_len() == 0 {
        return Err(CreateArticleError::EmptyCost);
    }
    match Money::parse(cost) {
        Ok(money) => Ok(money),
        Err(e) => Err(CreateArticleError::InvalidCost(e)),
    }
}

} // verus!
