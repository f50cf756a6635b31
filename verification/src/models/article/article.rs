//! Articles with their price, sounds and barcodes.

use vstd::prelude::*;

use crate::model::Money;
use crate::models::article::article_sounds::ArticleSound;
use crate::models::article::barcode::{Barcode, BarcodeDB};

verus! {

/// An article with its price, its sounds and its barcodes; `id` is `None`
/// until it is stored.
#[derive(Clone, Debug)]
pub struct Article {
    pub id: Option<i64>,
    pub name: String,
    pub cost: Money,
    pub sounds: Vec<ArticleSound>,
    pub barcodes: Vec<Barcode>,
}

impl Article {
    /// An article that is not stored yet, without sounds or barcodes.
    pub fn new(name: String, cost: Money) -> (r: Self)
        ensures
            r.id is None,
            r.name == name,
            r.cost == cost,
            r.sounds@.len() == 0,
            r.barcodes@.len() == 0,
    {
        Self { id: None, name, cost, barcodes: Vec::new(), sounds: Vec::new() }
    }
}

/// A row of the table of articles.
#[derive(Clone, Debug)]
pub struct ArticleDB {
    pub id: i64,
    pub name: String,
    pub cost: i64,
}

/// The barcodes that the rows `rows` hold, in their order.
pub open spec fn barcode_contents(rows: Seq<BarcodeDB>) -> Seq<Barcode> {
    rows.map_values(|r: BarcodeDB| Barcode(r.barcode_content))
}

impl Article {
    /// The article made of a stored row, its sounds and its barcode rows.
    pub fn from_db(row: ArticleDB, sounds: Vec<ArticleSound>, barcodes: Vec<BarcodeDB>) -> (r: Self)
        ensures
            r.id == Some(row.id),
            r.name == row.name,
            r.cost == (Money { value: row.cost }),
            r.sounds@ == sounds@,
            r.barcodes@ == barcode_contents(barcodes@),
    {
        let ArticleDB { id, name, cost } = row;
        let mut codes: Vec<Barcode> = Vec::new();
        let mut rows = barcodes;
        let ghost all = rows@;
        let mut i: usize = 0;
        let n = rows.len();
        while i < n
            invariant
                n == all.len(),
                i <= n,
                rows@ == all,
                codes@ =~= barcode_contents(all).subrange(0, i as int),
            decreases n - i,
        {
            let content = rows[i].barcode_content.clone();
            codes.push(Barcode(content));
            i = i + 1;
        }
        Self { id: Some(id), name, cost: Money { value: cost }, sounds, barcodes: codes }
    }
}

} // verus!
