//! Editing an article: its name, its price and its barcodes.

use vstd::prelude::*;

use crate::model::money::parse_money;
use crate::model::Money;
use crate::models::article::article::Article;
use crate::models::article::barcode::{Barcode, BarcodeDiff};
use crate::models::money::MoneyParseError;
use crate::text::{same_text, trim, trimmed};

verus! {

/// The changes that an update of an article makes: a new name (trimmed),
/// a new price, and the changes of the barcodes; each only when it is to be
/// made.
pub struct ArticleUpdate {
    pub name: Option<String>,
    pub cost: Option<Money>,
    pub barcodes: Option<Vec<BarcodeDiff>>,
}

/// The failure of an update: the price is not an amount of money.
#[derive(Clone, Debug)]
pub struct UpdateArticleError {
    pub cost: String,
    pub error: MoneyParseError,
}

impl UpdateArticleError {
    /// The message that the client is given.
    pub fn message(&self) -> (r: String)
        ensures
            r@ == "Failed to convert '"@ + self.cost@ + "' to internal money representation: "@
                + match self.error {
                MoneyParseError::InvalidEuros(t) => "Invalid Euros: "@ + t@,
                MoneyParseError::InvalidCents(t) => "Invalid Cents: "@ + t@,
            },
    {
        let mut s = String::from_str("Failed to convert '");
        s.append(self.cost.as_str());
        s.append("' to internal money representation: ");
        let e = self.error.to_string();
        s.append(e.as_str());
        s
    }
}

/// The update of `article` to the name `name`, the price written `cost`,
/// and the barcode changes `barcodes`. The price must be an amount of
/// money. The name changes (to `name` trimmed) when `name` differs from the
/// article's name; the price changes when it differs; the barcodes change
/// when changes are given.
pub fn update_article(article: &Article, name: &str, cost: &str, barcodes: Option<Vec<BarcodeDiff>>) -> (r: Result<ArticleUpdate, UpdateArticleError>)
    ensures
        match parse_money(cost@) {
            Ok(v) => r matches Ok(u) && {
                &&& (article.name@ != name@ ==> (u.name matches Some(n) && n@ == trimmed(name@)))
                &&& (article.name@ == name@ ==> u.name is None)
                &&& (article.cost.value != v ==> u.cost == Some(Money { value: v as i64 }))
                &&& (article.cost.value == v ==> u.cost is None)
                &&& u.barcodes == barcodes
            },
            Err((true, part)) => r matches Err(e) && e.cost@ == cost@
                && (e.error matches MoneyParseError::InvalidEuros(t) && t@ == part),
            Err((false, part)) => r matches Err(e) && e.cost@ == cost@
                && (e.error matches MoneyParseError::InvalidCents(t) && t@ == part),
        },
{
    let new_cost = match Money::parse(cost) {
        Ok(value) => value,
        Err(e) => {
            return Err(UpdateArticleError { cost: String::from_str(cost), error: e });
        },
    };
    let new_name = if !same_text(article.name.as_str(), name) {
        Some(trim(name))
    } else {
        None
    };
    let changed_cost = if article.cost.value != new_cost.value {
        Some(new_cost)
    } else {
        None
    };
    Ok(ArticleUpdate { name: new_name, cost: changed_cost, barcodes })
}

/// The list of barcodes after the change `diff`: a removed barcode leaves
/// the list at its first place, an added one goes at the end.
pub open spec fn apply_barcode_change(list: Seq<Seq<char>>, diff: BarcodeDiff) -> Seq<Seq<char>> {
    match diff {
        BarcodeDiff::Removed(code) => {
            let i = first_index(list, code@);
            list.subrange(0, i).add(list.subrange(i + 1, list.len() as int))
        },
        BarcodeDiff::Added(code) => list.push(code@),
    }
}

/// The first place of `code` in `list` (its length when it is not there).
pub open spec fn first_index(list: Seq<Seq<char>>, code: Seq<char>) -> int
    decreases list.len(),
{
    if list.len() == 0 || list[0] == code {
        0
    } else {
        1 + first_index(list.drop_first(), code)
    }
}

/// The list of barcodes after the changes `diffs`, in their order.
pub open spec fn replay_barcode_changes(list: Seq<Seq<char>>, diffs: Seq<BarcodeDiff>) -> Seq<Seq<char>>
    decreases diffs.len(),
{
    if diffs.len() == 0 {
        list
    } else {
        apply_barcode_change(replay_barcode_changes(list, diffs.drop_last()), diffs.last())
    }
}

/// The contents of the barcodes.
pub open spec fn codes(list: Seq<Barcode>) -> Seq<Seq<char>> {
    list.map_values(|b: Barcode| b.0@)
}

/// The barcodes of an article while they are edited, and the changes made
/// so far.
pub struct BarcodeEditor {
    pub barcodes: Vec<Barcode>,
    pub diff: Vec<BarcodeDiff>,
}

impl BarcodeEditor {
    /// Starts editing the barcodes `barcodes`, with no change made.
    pub fn new(barcodes: Vec<Barcode>) -> (r: BarcodeEditor)
        ensures
            r.barcodes@ == barcodes@,
            r.diff@.len() == 0,
    {
        BarcodeEditor { barcodes, diff: Vec::new() }
    }

    /// Removes the barcode `code` (its first occurrence), which must be in
    /// the list, and notes the change.
    pub fn remove(&mut self, code: String)
        requires
            codes(old(self).barcodes@).contains(code@),
        ensures
            codes(final(self).barcodes@) == apply_barcode_change(codes(old(self).barcodes@), BarcodeDiff::Removed(code)),
            final(self).diff@ == old(self).diff@.push(BarcodeDiff::Removed(code)),
    {
        let ghost before = codes(self.barcodes@);
        let mut i: usize = 0;
        assert(before.skip(0) =~= before);
        while !same_text(self.barcodes[i].0.as_str(), code.as_str())
            invariant
                before == codes(self.barcodes@),
                before.contains(code@),
                i < self.barcodes.len(),
                forall|j: int| 0 <= j < i ==> before[j] != code@,
                first_index(before, code@) == i + first_index(before.skip(i as int), code@),
            decreases self.barcodes.len() - i,
        {
            proof {
                assert(before[i as int] != code@);
                assert(before.skip(i as int).drop_first() =~= before.skip(i as int + 1));
                if i + 1 == self.barcodes.len() {
                    let k = choose|k: int| 0 <= k < before.len() && before[k] == code@;
                    assert(false);
                }
            }
            i = i + 1;
        }
        proof {
            assert(before.skip(i as int)[0] == before[i as int]);
        }
        let ghost old_list = self.barcodes@;
        self.barcodes.remove(i);
        assert(codes(self.barcodes@) =~= before.subrange(0, i as int).add(before.subrange(i + 1, before.len() as int)));
        self.diff.push(BarcodeDiff::Removed(code));
    }

    /// Adds the barcode `code`, unless it is empty, and notes the change.
    pub fn add(&mut self, code: String)
        ensures
            code@.len() == 0 ==> final(self).barcodes@ == old(self).barcodes@ && final(self).diff@ == old(self).diff@,
            code@.len() != 0 ==> codes(final(self).barcodes@) == apply_barcode_change(codes(old(self).barcodes@), BarcodeDiff::Added(code))
                && final(self).diff@ == old(self).diff@.push(BarcodeDiff::Added(code)),
    {
        if code.unicode_len() == 0 {
            return;
        }
        let copy = code.clone();
        self.barcodes.push(Barcode(copy));
        assert(codes(self.barcodes@) =~= codes(old(self).barcodes@).push(code@));
        self.diff.push(BarcodeDiff::Added(code));
    }
}

/// The changes that an editor notes, replayed on the barcodes it started
/// from, give the barcodes it holds: after any removal or addition, if this
/// held before, it holds after.
pub proof fn editor_changes_replay_to_its_list(start: Seq<Barcode>, before: Seq<Barcode>, diffs: Seq<BarcodeDiff>, after: Seq<Barcode>, change: BarcodeDiff)
    requires
        codes(before) == replay_barcode_changes(codes(start), diffs),
        codes(after) == apply_barcode_change(codes(before), change),
    ensures
        codes(after) == replay_barcode_changes(codes(start), diffs.push(change)),
{
    assert(diffs.push(change).drop_last() =~= diffs);
}

} // verus!
