//! The list of all articles, ordered by name.

use vstd::prelude::*;

use crate::models::article::article::Article;

verus! {

/// Whether the text `a` comes before `b`, or equals it, in the order of
/// the characters' code points (the order of `String` comparison).
pub open spec fn text_le(a: Seq<char>, b: Seq<char>) -> bool
    decreases a.len(),
{
    if a.len() == 0 {
        true
    } else if b.len() == 0 {
        false
    } else if a[0] != b[0] {
        (a[0] as int) < (b[0] as int)
    } else {
        text_le(a.drop_first(), b.drop_first())
    }
}

/// Whether the text `a` comes before `b`, or equals it.
fn name_le(a: &str, b: &str) -> (r: bool)
    ensures
        r == text_le(a@, b@),
{
    let n = a.unicode_len();
    let m = b.unicode_len();
    let mut i: usize = 0;
    assert(a@.skip(0) =~= a@ && b@.skip(0) =~= b@);
    while i < n && i < m && a.get_char(i) == b.get_char(i)
        invariant
            n == a@.len(),
            m == b@.len(),
            i <= n,
            i <= m,
            text_le(a@, b@) == text_le(a@.skip(i as int), b@.skip(i as int)),
        decreases n - i,
    {
        proof {
            let sa = a@.skip(i as int);
            let sb = b@.skip(i as int);
            assert(sa[0] == a@[i as int]);
            assert(sb[0] == b@[i as int]);
            assert(sa.drop_first() =~= a@.skip(i + 1));
            assert(sb.drop_first() =~= b@.skip(i + 1));
        }
        i = i + 1;
    }
    if i == n {
        return true;
    }
    if i == m {
        return false;
    }
    proof {
        assert(a@.skip(i as int)[0] == a@[i as int]);
        assert(b@.skip(i as int)[0] == b@[i as int]);
    }
    (a.get_char(i) as u32) < (b.get_char(i) as u32)
}

/// `sorted` (by name) with `x` put after every article whose name comes
/// before it or equals it.
pub open spec fn insert_by_name(sorted: Seq<Article>, x: Article) -> Seq<Article>
    decreases sorted.len(),
{
    if sorted.len() == 0 {
        seq![x]
    } else if text_le(sorted.last().name@, x.name@) {
        sorted.push(x)
    } else {
        insert_by_name(sorted.drop_last(), x).push(sorted.last())
    }
}

/// The articles ordered by name; articles of the same name keep their
/// order.
pub open spec fn by_name(articles: Seq<Article>) -> Seq<Article>
    decreases articles.len(),
{
    if articles.len() == 0 {
        Seq::empty()
    } else {
        insert_by_name(by_name(articles.drop_last()), articles.last())
    }
}

fn insert_sorted_by_name(v: &mut Vec<Article>, x: Article)
    ensures
        final(v)@ == insert_by_name(old(v)@, x),
    decreases old(v)@.len(),
{
    if v.len() == 0 {
        v.push(x);
        assert(final(v)@ =~= seq![x]);
    } else {
        let le = name_le(v[v.len() - 1].name.as_str(), x.name.as_str());
        if le {
            v.push(x);
        } else {
            let ghost before = v@;
            let popped = v.pop().unwrap();
            assert(v@ =~= before.drop_last());
            insert_sorted_by_name(v, x);
            v.push(popped);
        }
    }
}

/// Orders the articles by name, as the list of articles shows them;
/// articles of the same name keep their order.
pub fn sort_articles_by_name(articles: Vec<Article>) -> (r: Vec<Article>)
    ensures
        r@ == by_name(articles@),
{
    let ghost all = articles@;
    let mut sorted: Vec<Article> = Vec::new();
    for a in it: articles.into_iter()
        invariant
            it.seq() == all,
            sorted@ == by_name(all.subrange(0, it.index() as int)),
    {
        let ghost k = it.index() as int;
        assert(all.subrange(0, k + 1).drop_last() =~= all.subrange(0, k));
        insert_sorted_by_name(&mut sorted, a);
    }
    assert(all.subrange(0, all.len() as int) =~= all);
    sorted
}

/// Of two texts, one comes before the other or equals it.
proof fn lemma_text_le_total(a: Seq<char>, b: Seq<char>)
    ensures
        text_le(a, b) || text_le(b, a),
    decreases a.len(),
{
    if a.len() > 0 && b.len() > 0 && a[0] == b[0] {
        lemma_text_le_total(a.drop_first(), b.drop_first());
    }
}

/// A text that comes before a second one, which comes before a third,
/// comes before the third.
proof fn lemma_text_le_transitive(a: Seq<char>, b: Seq<char>, c: Seq<char>)
    requires
        text_le(a, b),
        text_le(b, c),
    ensures
        text_le(a, c),
    decreases a.len(),
{
    if a.len() > 0 && a[0] == b[0] && b[0] == c[0] {
        lemma_text_le_transitive(a.drop_first(), b.drop_first(), c.drop_first());
    }
}

/// Whether the articles are ordered by name.
pub open spec fn is_by_name(s: Seq<Article>) -> bool {
    forall|i: int, j: int| 0 <= i < j < s.len() ==> text_le(s[i].name@, s[j].name@)
}

proof fn lemma_insert_by_name(sorted: Seq<Article>, x: Article)
    requires
        is_by_name(sorted),
    ensures
        is_by_name(insert_by_name(sorted, x)),
        insert_by_name(sorted, x).to_multiset() == sorted.to_multiset().insert(x),
        insert_by_name(sorted, x).len() == sorted.len() + 1,
    decreases sorted.len(),
{
    broadcast use vstd::seq_lib::group_seq_properties, vstd::multiset::group_multiset_axioms;
    if sorted.len() == 0 {
        assert(seq![x] =~= Seq::<Article>::empty().push(x));
    } else if text_le(sorted.last().name@, x.name@) {
        assert forall|i: int| 0 <= i < sorted.len() implies text_le(sorted[i].name@, x.name@) by {
            if i < sorted.len() - 1 {
                lemma_text_le_transitive(sorted[i].name@, sorted.last().name@, x.name@);
            }
        }
        assert(insert_by_name(sorted, x) =~= sorted.push(x));
    } else {
        lemma_text_le_total(sorted.last().name@, x.name@);
        let init = sorted.drop_last();
        assert(is_by_name(init));
        lemma_insert_by_name(init, x);
        let ins = insert_by_name(init, x);
        assert(sorted =~= init.push(sorted.last()));
        let res = ins.push(sorted.last());
        assert forall|i: int, j: int| 0 <= i < j < res.len() implies text_le(res[i].name@, res[j].name@) by {
            if j == ins.len() && init.len() > 0 {
                // every entry of `ins` is an entry of `init`, or `x`
                assert(ins.to_multiset().count(ins[i]) > 0);
                assert(init.to_multiset().insert(x).count(ins[i]) > 0);
                if ins[i] != x {
                    assert(init.to_multiset().count(ins[i]) > 0);
                    assert(init.contains(ins[i]));
                    let k = choose|k: int| 0 <= k < init.len() && init[k] == ins[i];
                    assert(sorted[k] == init[k]);
                }
            }
        }
    }
}

proof fn lemma_by_name(articles: Seq<Article>)
    ensures
        is_by_name(by_name(articles)),
        by_name(articles).to_multiset() == articles.to_multiset(),
        by_name(articles).len() == articles.len(),
    decreases articles.len(),
{
    broadcast use vstd::seq_lib::group_seq_properties, vstd::multiset::group_multiset_axioms;
    if articles.len() > 0 {
        lemma_by_name(articles.drop_last());
        lemma_insert_by_name(by_name(articles.drop_last()), articles.last());
        assert(articles =~= articles.drop_last().push(articles.last()));
    }
}

/// The list of articles is ordered by name, and shows every article exactly
/// as often as it was given.
pub proof fn articles_are_listed_by_name(articles: Seq<Article>)
    ensures
        is_by_name(by_name(articles)),
        by_name(articles).to_multiset() == articles.to_multiset(),
{
    lemma_by_name(articles);
}

} // verus!
