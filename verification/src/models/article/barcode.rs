//! The barcodes of articles.

use vstd::prelude::*;

verus! {

/// The content of a barcode.
#[derive(Clone, Debug)]
pub struct Barcode(pub String);

/// A row of the table of barcodes: the barcode `barcode_content` stands for
/// the article `article_id`.
#[derive(Clone, Debug)]
pub struct BarcodeDB {
    pub article_id: i64,
    pub barcode_content: String,
}

impl From<BarcodeDB> for Barcode {
    fn from(value: BarcodeDB) -> (r: Self) {
        Self(value.barcode_content)
    }
}

impl vstd::std_specs::convert::FromSpecImpl<BarcodeDB> for Barcode {
    open spec fn obeys_from_spec() -> bool {
        true
    }

    open spec fn from_spec(v: BarcodeDB) -> Barcode {
        Barcode(v.barcode_content)
    }
}

/// One change of the barcodes of an article.
#[derive(Clone, Debug)]
pub enum BarcodeDiff {
    Removed(String),
    Added(String),
}

} // verus!
