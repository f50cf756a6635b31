//! Rows of the table of articles, and the order in which the articles are
//! offered to a user.

use vstd::prelude::*;

use crate::backend::database::DBError;
use crate::model::DatabaseId;
use crate::models::article::article::Article;

verus! {

/// How many articles the page of a user offers at first.
pub const DEFAULT_ARTICLE_AMOUNT: usize = 9;

/// A row of the table of articles (the prices are kept apart, with the time
/// from which each holds).
#[derive(Clone, Debug)]
pub struct ArticleDB {
    pub id: DatabaseId,
    pub name: String,
}

/// `sorted` (ordered by decreasing count) with `x` put after every entry
/// whose count is at least that of `x`.
pub open spec fn insert_by_count(sorted: Seq<(i64, i64)>, x: (i64, i64)) -> Seq<(i64, i64)>
    decreases sorted.len(),
{
    if sorted.len() == 0 {
        seq![x]
    } else if sorted.last().1 >= x.1 {
        sorted.push(x)
    } else {
        insert_by_count(sorted.drop_last(), x).push(sorted.last())
    }
}

/// The pairs (article, count) ordered by decreasing count; pairs with equal
/// counts keep their order.
pub open spec fn sort_by_count(pairs: Seq<(i64, i64)>) -> Seq<(i64, i64)>
    decreases pairs.len(),
{
    if pairs.len() == 0 {
        Seq::empty()
    } else {
        insert_by_count(sort_by_count(pairs.drop_last()), pairs.last())
    }
}

/// Puts `x` into `v` (ordered by decreasing count) after every entry whose
/// count is at least that of `x`.
fn insert_sorted(v: &mut Vec<(i64, i64)>, x: (i64, i64))
    ensures
        final(v)@ == insert_by_count(old(v)@, x),
    decreases old(v)@.len(),
{
    if v.len() == 0 {
        v.push(x);
        assert(final(v)@ =~= seq![x]);
    } else {
        let last = v[v.len() - 1];
        if last.1 >= x.1 {
            v.push(x);
        } else {
            let ghost before = v@;
            let popped = v.pop().unwrap();
            assert(v@ =~= before.drop_last());
            insert_sorted(v, x);
            v.push(popped);
        }
    }
}

/// Whether the pairs are ordered by decreasing count.
pub open spec fn by_decreasing_count(s: Seq<(i64, i64)>) -> bool {
    forall|i: int, j: int| 0 <= i < j < s.len() ==> s[i].1 >= s[j].1
}

proof fn lemma_insert_by_count(sorted: Seq<(i64, i64)>, x: (i64, i64))
    requires
        by_decreasing_count(sorted),
    ensures
        by_decreasing_count(insert_by_count(sorted, x)),
        insert_by_count(sorted, x).to_multiset() == sorted.to_multiset().insert(x),
        insert_by_count(sorted, x).len() == sorted.len() + 1,
    decreases sorted.len(),
{
    broadcast use vstd::seq_lib::group_seq_properties, vstd::multiset::group_multiset_axioms;
    if sorted.len() == 0 {
        assert(seq![x] =~= Seq::<(i64, i64)>::empty().push(x));
    } else if sorted.last().1 >= x.1 {
    } else {
        let init = sorted.drop_last();
        assert(by_decreasing_count(init));
        lemma_insert_by_count(init, x);
        let ins = insert_by_count(init, x);
        assert(sorted =~= init.push(sorted.last()));
        let res = ins.push(sorted.last());
        assert forall|i: int, j: int| 0 <= i < j < res.len() implies res[i].1 >= res[j].1 by {
            if j == ins.len() {
                if init.len() > 0 {
                    // every entry of `ins` is an entry of `init`, or `x`
                    assert(ins.to_multiset().count(ins[i]) > 0);
                    assert(init.to_multiset().insert(x).count(ins[i]) > 0);
                    if ins[i] != x {
                        assert(init.to_multiset().count(ins[i]) > 0);
                        assert(init.contains(ins[i]));
                        let k = choose|k: int| 0 <= k < init.len() && init[k] == ins[i];
                        assert(sorted[k] == init[k]);
                    }
                }
            }
        }
    }
}

proof fn lemma_sort_by_count(pairs: Seq<(i64, i64)>)
    ensures
        by_decreasing_count(sort_by_count(pairs)),
        sort_by_count(pairs).to_multiset() == pairs.to_multiset(),
        sort_by_count(pairs).len() == pairs.len(),
    decreases pairs.len(),
{
    broadcast use vstd::seq_lib::group_seq_properties, vstd::multiset::group_multiset_axioms;
    if pairs.len() > 0 {
        lemma_sort_by_count(pairs.drop_last());
        lemma_insert_by_count(sort_by_count(pairs.drop_last()), pairs.last());
        assert(pairs =~= pairs.drop_last().push(pairs.last()));
    }
}

/// Ordering the articles by how often they were bought puts the most bought
/// first, and keeps every pair exactly as often as it was there.
pub proof fn sorted_articles_are_ordered(pairs: Seq<(i64, i64)>)
    ensures
        by_decreasing_count(sort_by_count(pairs)),
        sort_by_count(pairs).to_multiset() == pairs.to_multiset(),
{
    lemma_sort_by_count(pairs);
}

/// Orders the pairs (article, count of purchases) by decreasing count, the
/// most bought first; pairs with equal counts keep their order.
pub fn sort_articles_by_amount(pairs: Vec<(i64, i64)>) -> (r: Vec<(i64, i64)>)
    ensures
        r@ == sort_by_count(pairs@),
{
    let mut sorted: Vec<(i64, i64)> = Vec::new();
    let mut i: usize = 0;
    while i < pairs.len()
        invariant
            i <= pairs.len(),
            sorted@ == sort_by_count(pairs@.subrange(0, i as int)),
        decreases pairs.len() - i,
    {
        let ghost prefix = pairs@.subrange(0, i as int + 1);
        assert(prefix.drop_last() =~= pairs@.subrange(0, i as int));
        insert_sorted(&mut sorted, pairs[i]);
        i = i + 1;
    }
    assert(pairs@.subrange(0, pairs@.len() as int) =~= pairs@);
    sorted
}

/// Whether one of `articles` has the id `id`.
pub open spec fn has_article_id(articles: Seq<Article>, id: Option<i64>) -> bool {
    exists|i: int| 0 <= i < articles.len() && articles[i].id == id
}

/// The articles of `all` whose id is not among the ids of `favorites`, in
/// their order.
pub open spec fn other_articles(all: Seq<Article>, favorites: Seq<Article>) -> Seq<Article>
    decreases all.len(),
{
    if all.len() == 0 {
        Seq::empty()
    } else if has_article_id(favorites, all.last().id) {
        other_articles(all.drop_last(), favorites)
    } else {
        other_articles(all.drop_last(), favorites).push(all.last())
    }
}

/// Whether no article of `favorites` has the id `id`.
pub open spec fn not_a_favorite(favorites: Seq<Article>, id: Option<i64>) -> bool {
    forall|k: int| 0 <= k < favorites.len() ==> #[trigger] favorites[k].id != id
}

/// The articles that follow the favourites are exactly those picked from
/// `all` by any predicate `p` that holds of the articles whose id is no
/// favourite's: all of them, in their order, however many there are.
pub proof fn other_articles_are_the_non_favorites(all: Seq<Article>, favorites: Seq<Article>, p: spec_fn(Article) -> bool)
    requires
        forall|a: Article| #[trigger] p(a) == not_a_favorite(favorites, a.id),
    ensures
        other_articles(all, favorites) == all.filter(p),
    decreases all.len(),
{
    reveal(Seq::filter);
    if all.len() > 0 {
        other_articles_are_the_non_favorites(all.drop_last(), favorites, p);
        assert(p(all.last()) == !has_article_id(favorites, all.last().id));
    }
}

/// Every article of `all` that is no favourite is offered after the
/// favourites, and everything offered after them is such an article of
/// `all`.
pub proof fn every_article_is_offered(all: Seq<Article>, favorites: Seq<Article>)
    ensures
        forall|i: int|
            #![trigger all[i]]
            0 <= i < all.len() && not_a_favorite(favorites, all[i].id) ==> other_articles(all, favorites).contains(all[i]),
        forall|j: int|
            #![trigger other_articles(all, favorites)[j]]
            0 <= j < other_articles(all, favorites).len() ==> all.contains(other_articles(all, favorites)[j])
                && not_a_favorite(favorites, other_articles(all, favorites)[j].id),
{
    broadcast use vstd::seq_lib::group_filter_ensures;
    let p = |a: Article| not_a_favorite(favorites, a.id);
    other_articles_are_the_non_favorites(all, favorites, p);
    let o = other_articles(all, favorites);
    assert forall|i: int|
        #![trigger all[i]]
        0 <= i < all.len() && not_a_favorite(favorites, all[i].id) implies o.contains(all[i]) by {
        assert(p(all[i]));
    }
    assert forall|j: int| #![trigger o[j]] 0 <= j < o.len() implies all.contains(o[j]) && not_a_favorite(
        favorites,
        o[j].id,
    ) by {
        assert(p(o[j]));
        assert(o.contains(o[j]));
        all.lemma_filter_contains_rev(p, o[j]);
    }
}

/// Whether one of `favorites` has the id `id`.
fn contains_article_id(favorites: &Vec<Article>, id: Option<i64>) -> (r: bool)
    ensures
        r == has_article_id(favorites@, id),
{
    let mut i: usize = 0;
    while i < favorites.len()
        invariant
            i <= favorites.len(),
            forall|j: int| 0 <= j < i ==> favorites@[j].id != id,
        decreases favorites.len() - i,
    {
        if favorites[i].id == id {
            return true;
        }
        i = i + 1;
    }
    false
}

/// The articles offered to a user: first `favorites` (the articles the user
/// bought most, most bought first), then the other articles of `all` in
/// their order.
pub fn articles_for_user(favorites: Vec<Article>, all: Vec<Article>) -> (r: Vec<Article>)
    ensures
        r@ == favorites@ + other_articles(all@, favorites@),
        r@.subrange(0, favorites.len() as int) == favorites@,
        forall|i: int|
            #![trigger all@[i]]
            0 <= i < all.len() && not_a_favorite(favorites@, all@[i].id)
                ==> r@.subrange(favorites.len() as int, r.len() as int).contains(all@[i]),
        forall|j: int|
            #![trigger r@[j]]
            favorites.len() <= j < r.len() ==> all@.contains(r@[j]) && not_a_favorite(favorites@, r@[j].id),
{
    proof {
        every_article_is_offered(all@, favorites@);
    }
    let mut others: Vec<Article> = Vec::new();
    let ghost all_seq = all@;
    for a in it: all.into_iter()
        invariant
            it.seq() == all_seq,
            others@ == other_articles(all_seq.subrange(0, it.index() as int), favorites@),
    {
        let ghost k = it.index() as int;
        assert(all_seq.subrange(0, k + 1).drop_last() =~= all_seq.subrange(0, k));
        if !contains_article_id(&favorites, a.id) {
            others.push(a);
        }
    }
    assert(all_seq.subrange(0, all_seq.len() as int) =~= all_seq);
    let ghost fav = favorites@;
    let ghost rest = others@;
    let mut result = favorites;
    result.append(&mut others);
    assert(result@.subrange(0, fav.len() as int) =~= fav);
    assert(result@.subrange(fav.len() as int, result@.len() as int) =~= rest);
    result
}

impl ArticleDB {
    /// The error of adding the barcode `barcode` to an article when another
    /// article holds it already.
    pub fn barcode_in_use(barcode: &str) -> (r: DBError)
        ensures
            r.message@ == "The barcode '"@ + barcode@ + "' is already used elsewhere!"@,
    {
        let mut message = String::from_str("The barcode '");
        message.append(barcode);
        message.append("' is already used elsewhere!");
        DBError::new(message)
    }
}

} // verus!
