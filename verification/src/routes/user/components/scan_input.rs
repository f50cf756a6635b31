//! Reading barcodes from a scanner that types them, key by key, followed by
//! Enter, while no input field has the focus.

use vstd::prelude::*;

use crate::text::same_text;

verus! {

/// Whether more than 30 whole seconds passed from `last` to `now`
/// (timestamps in milliseconds).
pub open spec fn is_stale(now: int, last: int) -> bool {
    now - last >= 31000
}

/// The keys typed so far, and when the last one was typed (milliseconds
/// since the Unix epoch).
pub struct ScanInput {
    pub input: String,
    pub last_input: i64,
}

/// What a key press does to the scanned text: the text with the key
/// appended, after the text is dropped when it is stale.
pub open spec fn typed(input: Seq<char>, last: int, key: Seq<char>, now: int) -> Seq<char> {
    if is_stale(now, last) {
        key
    } else {
        input + key
    }
}

impl ScanInput {
    /// Nothing typed yet, at the time `now`.
    pub fn new(now: i64) -> (r: ScanInput)
        ensures
            r.input@ == Seq::<char>::empty(),
            r.last_input == now,
    {
        ScanInput { input: String::new(), last_input: now }
    }

    /// Handles the key `key` pressed at the time `now`. Nothing happens while
    /// an input field has the focus. Enter ends a scan: the text typed so
    /// far (nothing, when the last key is more than 30 seconds old) is given
    /// back when it is not empty, and the text starts anew. Any other key is
    /// appended to the text (which is first dropped when it is stale) and
    /// its time is kept.
    pub fn on_key(&mut self, key: &str, now: i64, is_focused: bool) -> (r: Option<String>)
        requires
            i64::MIN <= now - old(self).last_input <= i64::MAX,
        ensures
            is_focused ==> r is None && final(self).input@ == old(self).input@
                && final(self).last_input == old(self).last_input,
            !is_focused && key@ == "Enter"@ ==> {
                let scanned = if is_stale(now as int, old(self).last_input as int) {
                    Seq::<char>::empty()
                } else {
                    old(self).input@
                };
                &&& final(self).input@ == Seq::<char>::empty()
                &&& final(self).last_input == old(self).last_input
                &&& scanned.len() == 0 ==> r is None
                &&& scanned.len() != 0 ==> (r matches Some(s) && s@ == scanned)
            },
            !is_focused && key@ != "Enter"@ ==> {
                &&& r is None
                &&& final(self).input@ == typed(old(self).input@, old(self).last_input as int, key@, now as int)
                &&& final(self).last_input == now
            },
    {
        if is_focused {
            return None;
        }
        let stale = (now - self.last_input) / 1000 > 30;
        assert(stale == is_stale(now as int, self.last_input as int)) by {
            let d = now - self.last_input;
            if d >= 0 {
                assert((d / 1000 > 30) == (d >= 31000));
            }
        }
        if same_text(key, "Enter") {
            if stale {
                self.input = String::new();
            }
            let mut scanned = String::new();
            std::mem::swap(&mut scanned, &mut self.input);
            if scanned.unicode_len() == 0 {
                return None;
            }
            Some(scanned)
        } else {
            if stale {
                self.input = String::new();
            }
            self.input.append(key);
            self.last_input = now;
            None
        }
    }
}

/// The text after the keys `keys` are pressed at the times `times`, none of
/// them Enter, starting from the text `input` whose last key came at `last`.
pub open spec fn type_keys(input: Seq<char>, last: int, keys: Seq<Seq<char>>, times: Seq<int>) -> Seq<char>
    decreases keys.len(),
{
    if keys.len() == 0 || times.len() == 0 {
        input
    } else {
        type_keys(typed(input, last, keys[0], times[0]), times[0], keys.drop_first(), times.drop_first())
    }
}

/// Whether each key follows the one before within 30 seconds.
pub open spec fn typed_in_time(last: int, times: Seq<int>) -> bool {
    &&& times.len() > 0 ==> !is_stale(times[0], last)
    &&& forall|i: int| 0 < i < times.len() ==> !is_stale(#[trigger] times[i], times[i - 1])
}

proof fn lemma_type_keys(input: Seq<char>, last: int, keys: Seq<Seq<char>>, times: Seq<int>)
    requires
        keys.len() == times.len(),
        typed_in_time(last, times),
    ensures
        type_keys(input, last, keys, times) == input + keys.flatten(),
    decreases keys.len(),
{
    if keys.len() == 0 {
        assert(input + keys.flatten() =~= input);
    } else {
        let rest_times = times.drop_first();
        assert forall|i: int| 0 < i < rest_times.len() implies !is_stale(#[trigger] rest_times[i], rest_times[i - 1]) by {
            assert(rest_times[i] == times[i + 1]);
            assert(!is_stale(times[i + 1], times[i]));
        }
        if rest_times.len() > 0 {
            assert(!is_stale(times[1], times[0]));
        }
        lemma_type_keys(input + keys[0], times[0], keys.drop_first(), rest_times);
        assert(input + keys[0] + keys.drop_first().flatten() =~= input + keys.flatten());
    }
}

/// The keys pressed after Enter, each within 30 seconds of the one before,
/// make up the text that the next Enter reads (when that Enter comes within
/// 30 seconds of the last key): the keys joined in their order.
pub proof fn scan_reads_what_was_typed(last: int, keys: Seq<Seq<char>>, times: Seq<int>)
    requires
        keys.len() == times.len(),
        keys.len() > 0,
        forall|i: int| 0 < i < times.len() ==> !is_stale(#[trigger] times[i], times[i - 1]),
    ensures
        type_keys(Seq::empty(), last, keys, times) == keys.flatten(),
{
    let first = typed(Seq::empty(), last, keys[0], times[0]);
    assert(first =~= keys[0]);
    let rest_times = times.drop_first();
    assert forall|i: int| 0 < i < rest_times.len() implies !is_stale(#[trigger] rest_times[i], rest_times[i - 1]) by {
        assert(rest_times[i] == times[i + 1]);
        assert(!is_stale(times[i + 1], times[i]));
    }
    if rest_times.len() > 0 {
        assert(!is_stale(times[1], times[0]));
    }
    lemma_type_keys(keys[0], times[0], keys.drop_first(), rest_times);
}

} // verus!
