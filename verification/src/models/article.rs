//! Articles that users can buy.

use vstd::prelude::*;

pub mod article;
pub mod article_core;
pub mod article_cost;
pub mod article_sounds;
pub mod barcode;

verus! {

/// An article with its name and its price in cents; `id` is `None` until it
/// is stored.
#[derive(Clone, Debug)]
pub struct Article {
    pub id: Option<i64>,
    pub name: String,
    pub cost: i64,
}

impl Article {
    /// An article that is not stored yet, with an empty name and no price.
    pub fn new() -> (r: Self)
        ensures
            r.id is None,
            r.name@ == Seq::<char>::empty(),
            r.cost == 0,
    {
        Article { id: None, name: String::new(), cost: 0 }
    }
}

} // verus!
