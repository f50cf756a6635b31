//! Picking a user by typing a part of its nickname.

use vstd::prelude::*;

use crate::text::{contains, contains_text, lowercase, same_text, texts, to_lowercase};

verus! {

/// How many users are proposed at most.
pub const MAX_USER_DISPLAY_LIMIT: usize = 5;

/// Whether the nickname `nick` is proposed for the search text `search`: it
/// holds the search text, both in lower case, and it is not one of the
/// names left out (`filter_names`).
pub open spec fn is_proposed(nick: Seq<char>, search: Seq<char>, filter_names: Option<Seq<Seq<char>>>) -> bool {
    &&& contains_text(lowercase(nick), lowercase(search))
    &&& match filter_names {
        None => true,
        Some(names) => !names.contains(nick),
    }
}

/// The nicknames of `nicks` that are proposed, in their order.
pub open spec fn proposed(nicks: Seq<Seq<char>>, search: Seq<char>, filter_names: Option<Seq<Seq<char>>>) -> Seq<Seq<char>>
    decreases nicks.len(),
{
    if nicks.len() == 0 {
        Seq::empty()
    } else if is_proposed(nicks.last(), search, filter_names) {
        proposed(nicks.drop_last(), search, filter_names).push(nicks.last())
    } else {
        proposed(nicks.drop_last(), search, filter_names)
    }
}

/// Whether the nickname `nick` holds the search text (both in lower case)
/// and differs from every name of `filter_names`.
pub open spec fn matches_and_not_left_out(nick: Seq<char>, search: Seq<char>, filter_names: Option<Seq<Seq<char>>>) -> bool {
    &&& contains_text(lowercase(nick), lowercase(search))
    &&& forall|k: int| #![trigger filter_names->0[k]]
        filter_names is Some && 0 <= k < filter_names->0.len() ==> filter_names->0[k] != nick
}

/// The nicknames proposed, before the limit, are exactly those picked from
/// `nicks` by any predicate `p` that holds of the nicknames that hold the
/// search text (both in lower case) and are none of the names left out:
/// all of them, in their order.
pub proof fn proposed_are_the_matching_names(
    nicks: Seq<Seq<char>>,
    search: Seq<char>,
    filter_names: Option<Seq<Seq<char>>>,
    p: spec_fn(Seq<char>) -> bool,
)
    requires
        forall|n: Seq<char>| #[trigger] p(n) == matches_and_not_left_out(n, search, filter_names),
    ensures
        proposed(nicks, search, filter_names) == nicks.filter(p),
    decreases nicks.len(),
{
    reveal(Seq::filter);
    if nicks.len() > 0 {
        proposed_are_the_matching_names(nicks.drop_last(), search, filter_names, p);
        let n = nicks.last();
        assert(p(n) == is_proposed(n, search, filter_names)) by {
            if let Some(names) = filter_names {
                if names.contains(n) {
                    let k = choose|k: int| 0 <= k < names.len() && names[k] == n;
                    assert(filter_names->0[k] == n);
                }
            }
        }
    }
}

/// No nickname proposed is one of the names left out, every nickname
/// proposed holds the search text, and every nickname of `nicks` that holds
/// it and is not left out is proposed (before the limit).
pub proof fn left_out_names_are_never_proposed(nicks: Seq<Seq<char>>, search: Seq<char>, filter_names: Option<Seq<Seq<char>>>)
    ensures
        forall|j: int, k: int|
            #![trigger proposed(nicks, search, filter_names)[j], filter_names->0[k]]
            filter_names is Some && 0 <= j < proposed(nicks, search, filter_names).len() && 0 <= k < filter_names->0.len()
                ==> proposed(nicks, search, filter_names)[j] != filter_names->0[k],
        forall|j: int|
            #![trigger proposed(nicks, search, filter_names)[j]]
            0 <= j < proposed(nicks, search, filter_names).len() ==> nicks.contains(proposed(nicks, search, filter_names)[j])
                && contains_text(lowercase(proposed(nicks, search, filter_names)[j]), lowercase(search)),
        forall|i: int|
            #![trigger nicks[i]]
            0 <= i < nicks.len() && matches_and_not_left_out(nicks[i], search, filter_names)
                ==> proposed(nicks, search, filter_names).contains(nicks[i]),
{
    broadcast use vstd::seq_lib::group_filter_ensures;
    let p = |n: Seq<char>| matches_and_not_left_out(n, search, filter_names);
    proposed_are_the_matching_names(nicks, search, filter_names, p);
    let o = proposed(nicks, search, filter_names);
    assert forall|j: int, k: int|
        #![trigger o[j], filter_names->0[k]]
        filter_names is Some && 0 <= j < o.len() && 0 <= k < filter_names->0.len() implies o[j] != filter_names->0[k] by {
        assert(p(o[j]));
    }
    assert forall|j: int| #![trigger o[j]] 0 <= j < o.len() implies nicks.contains(o[j])
        && contains_text(lowercase(o[j]), lowercase(search)) by {
        assert(p(o[j]));
        assert(o.contains(o[j]));
        nicks.lemma_filter_contains_rev(p, o[j]);
    }
    assert forall|i: int|
        #![trigger nicks[i]]
        0 <= i < nicks.len() && matches_and_not_left_out(nicks[i], search, filter_names) implies o.contains(nicks[i]) by {
        assert(p(nicks[i]));
    }
}

/// Whether `name` is one of `names`.
fn is_listed(names: &Vec<String>, name: &str) -> (r: bool)
    ensures
        r == texts(names@).contains(name@),
{
    let mut i: usize = 0;
    while i < names.len()
        invariant
            i <= names.len(),
            forall|j: int| 0 <= j < i ==> names@[j]@ != name@,
        decreases names.len() - i,
    {
        if same_text(names[i].as_str(), name) {
            assert(texts(names@)[i as int] == name@);
            return true;
        }
        i = i + 1;
    }
    assert forall|j: int| 0 <= j < texts(names@).len() implies texts(names@)[j] != name@ by {
        assert(texts(names@)[j] == names@[j]@);
    }
    false
}

proof fn lemma_proposed_grows(nicks: Seq<Seq<char>>, search: Seq<char>, filter_names: Option<Seq<Seq<char>>>, i: int)
    requires
        0 <= i <= nicks.len(),
    ensures
        proposed(nicks.take(i), search, filter_names).len() <= proposed(nicks, search, filter_names).len(),
        proposed(nicks.take(i), search, filter_names) == proposed(nicks, search, filter_names).take(
            proposed(nicks.take(i), search, filter_names).len() as int,
        ),
    decreases nicks.len() - i,
{
    if i < nicks.len() {
        lemma_proposed_grows(nicks, search, filter_names, i + 1);
        assert(nicks.take(i + 1).drop_last() =~= nicks.take(i));
        let a = proposed(nicks.take(i), search, filter_names);
        let b = proposed(nicks.take(i + 1), search, filter_names);
        let all = proposed(nicks, search, filter_names);
        assert(a =~= b.take(a.len() as int) || a =~= b);
        assert(a =~= all.take(a.len() as int));
    } else {
        assert(nicks.take(i) =~= nicks);
        let all = proposed(nicks, search, filter_names);
        assert(all.take(all.len() as int) =~= all);
    }
}

/// The nicknames proposed for the search text `search`: those of `nicks`
/// that hold it (both in lower case) and are not left out by
/// `filter_names`, in their order, at most `MAX_USER_DISPLAY_LIMIT` of them.
pub fn select_users(nicks: &Vec<String>, search: &str, filter_names: Option<&Vec<String>>) -> (r: Vec<String>)
    ensures
        ({
            let filter = match filter_names {
                None => None,
                Some(names) => Some(texts(names@)),
            };
            let all = proposed(texts(nicks@), search@, filter);
            texts(r@) == all.take(if all.len() < MAX_USER_DISPLAY_LIMIT { all.len() as int } else { MAX_USER_DISPLAY_LIMIT as int })
        }),
        r.len() <= MAX_USER_DISPLAY_LIMIT,
        forall|j: int, k: int|
            #![trigger r@[j], filter_names->0@[k]]
            filter_names is Some && 0 <= j < r.len() && 0 <= k < filter_names->0.len() ==> r@[j]@ != filter_names->0@[k]@,
        forall|j: int|
            #![trigger r@[j]]
            0 <= j < r.len() ==> texts(nicks@).contains(r@[j]@) && contains_text(lowercase(r@[j]@), lowercase(search@)),
        ({
            let filter = match filter_names {
                None => None,
                Some(names) => Some(texts(names@)),
            };
            r.len() < MAX_USER_DISPLAY_LIMIT ==> forall|i: int|
                #![trigger nicks@[i]]
                0 <= i < nicks.len() && matches_and_not_left_out(nicks@[i]@, search@, filter) ==> texts(r@).contains(nicks@[i]@)
        }),
{
    let ghost filter = match filter_names {
        None => None,
        Some(names) => Some(texts(names@)),
    };
    let ghost all_nicks = texts(nicks@);
    let ghost all = proposed(all_nicks, search@, filter);
    let lower_search = to_lowercase(search);
    let mut r: Vec<String> = Vec::new();
    let mut i: usize = 0;
    while i < nicks.len() && r.len() < MAX_USER_DISPLAY_LIMIT
        invariant
            i <= nicks.len(),
            all_nicks == texts(nicks@),
            all == proposed(all_nicks, search@, filter),
            lower_search@ == lowercase(search@),
            r.len() <= MAX_USER_DISPLAY_LIMIT,
            texts(r@) == proposed(all_nicks.take(i as int), search@, filter),
            filter == match filter_names {
                None => None,
                Some(names) => Some(texts(names@)),
            },
        decreases nicks.len() - i,
    {
        let nick = &nicks[i];
        let lower_nick = to_lowercase(nick.as_str());
        let mut keep = contains(lower_nick.as_str(), lower_search.as_str());
        if keep {
            match filter_names {
                None => {},
                Some(names) => {
                    keep = !is_listed(names, nick.as_str());
                },
            }
        }
        assert(all_nicks.take(i + 1).drop_last() =~= all_nicks.take(i as int));
        assert(all_nicks.take(i + 1).last() == nick@);
        if keep {
            let copy = nick.clone();
            r.push(copy);
            assert(texts(r@) =~= texts(r@).drop_last().push(nick@));
        }
        i = i + 1;
    }
    proof {
        lemma_proposed_grows(all_nicks, search@, filter, i as int);
        if i == nicks.len() {
            assert(all_nicks.take(i as int) =~= all_nicks);
        }
        left_out_names_are_never_proposed(all_nicks, search@, filter);
        let shown = texts(r@);
        assert(shown == all.take(shown.len() as int));
        assert forall|j: int| #![trigger r@[j]] 0 <= j < r.len() implies all_nicks.contains(r@[j]@)
            && contains_text(lowercase(r@[j]@), lowercase(search@))
            && (filter_names is Some ==> forall|k: int| #![trigger filter_names->0@[k]]
                0 <= k < filter_names->0.len() ==> r@[j]@ != filter_names->0@[k]@) by {
            assert(shown[j] == r@[j]@);
            assert(all[j] == shown[j]);
            if filter_names is Some {
                assert forall|k: int| #![trigger filter_names->0@[k]] 0 <= k < filter_names->0.len()
                    implies r@[j]@ != filter_names->0@[k]@ by {
                    assert(filter->0[k] == filter_names->0@[k]@);
                }
            }
        }
        if r.len() < MAX_USER_DISPLAY_LIMIT {
            assert(shown =~= all);
            assert forall|i: int| #![trigger nicks@[i]] 0 <= i < nicks.len()
                && matches_and_not_left_out(nicks@[i]@, search@, filter) implies shown.contains(nicks@[i]@) by {
                assert(all_nicks[i] == nicks@[i]@);
            }
        }
    }
    r
}

} // verus!
