//! The prices of articles over time.

use vstd::prelude::*;

use crate::model::DatabaseId;

verus! {

/// A row of the table of prices: from `effective_since` (milliseconds since
/// the Unix epoch) on, the article costs `cost` cents.
#[derive(Clone, Debug)]
pub struct ArticleCostMapDB {
    pub article_id: DatabaseId,
    pub cost: i64,
    pub effective_since: i64,
}

} // verus!
