//! Completion of target chip names from the configured catalogue.

use vstd::prelude::*;
use vstd::string::StrSliceExecFns;

verus! {

/// What `str::to_lowercase` makes of a text.
pub uninterp spec fn lower_of(s: Seq<char>) -> Seq<char>;

/// Relies on `str::to_lowercase`: the result depends on the characters alone.
#[verifier::external_body]
fn lowercase(s: &str) -> (r: String)
    ensures
        r@ == lower_of(s@),
{
    s.to_lowercase()
}

/// `n` occurs in `h` as a run of consecutive characters.
pub open spec fn is_infix(n: Seq<char>, h: Seq<char>) -> bool {
    exists|i: int| 0 <= i && i + n.len() <= h.len() && #[trigger] h.subrange(i, i + n.len()) == n
}

/// The catalogue entries, in order, whose lower-case form holds the lower-case
/// form of `query`.
pub open spec fn completions(query: Seq<char>, list: Seq<Seq<char>>) -> Seq<Seq<char>>
    decreases list.len(),
{
    if list.len() == 0 {
        Seq::empty()
    } else {
        let rest = completions(query, list.drop_last());
        if is_infix(lower_of(query), lower_of(list.last())) {
            rest.push(list.last())
        } else {
            rest
        }
    }
}

/// The views of a list of strings.
pub open spec fn texts(v: Seq<String>) -> Seq<Seq<char>> {
    v.map_values(|s: String| s@)
}

/// Whether `needle` occurs in `haystack` at character index `at`.
fn occurs_at(haystack: &str, at: usize, needle: &str) -> (r: bool)
    requires
        at + needle@.len() <= haystack@.len(),
    ensures
        r == (haystack@.subrange(at as int, at + needle@.len()) == needle@),
{
    let nlen = needle.unicode_len();
    let hlen = haystack.unicode_len();
    let mut k: usize = 0;
    while k < nlen
        invariant
            nlen == needle@.len(),
            hlen == haystack@.len(),
            at + nlen <= haystack@.len(),
            k <= nlen,
            forall|j: int| 0 <= j < k ==> haystack@[at + j] == needle@[j],
        decreases nlen - k,
    {
        if haystack.get_char(at + k) != needle.get_char(k) {
            assert(haystack@.subrange(at as int, at + nlen)[k as int] != needle@[k as int]);
            return false;
        }
        k = k + 1;
    }
    assert(haystack@.subrange(at as int, at + nlen) =~= needle@);
    true
}

/// Whether an already lower-cased catalogue entry matches an already
/// lower-cased query: the query occurs in the entry.
pub fn completion_matches(entry_lower: &str, query_lower: &str) -> (r: bool)
    ensures
        r == is_infix(query_lower@, entry_lower@),
{
    let hlen = entry_lower.unicode_len();
    let nlen = query_lower.unicode_len();
    if nlen > hlen {
        return false;
    }
    if nlen == 0 {
        assert(entry_lower@.subrange(0, 0 + query_lower@.len() as int) =~= query_lower@);
        return true;
    }
    let mut i: usize = 0;
    while i <= hlen - nlen
        invariant
            hlen == entry_lower@.len(),
            nlen == query_lower@.len(),
            0 < nlen <= hlen,
            i <= hlen - nlen + 1,
            forall|j: int|
                0 <= j < i ==> #[trigger] entry_lower@.subrange(j, j + nlen) != query_lower@,
        decreases hlen - nlen + 1 - i,
    {
        if occurs_at(entry_lower, i, query_lower) {
            return true;
        }
        i = i + 1;
    }
    false
}

/// The catalogue entries whose name holds `name`, compared without regard to
/// case, in catalogue order.
pub fn mcu_completion(name: String, mcu_list: Vec<String>) -> (r: Vec<String>)
    ensures
        texts(r@) == completions(name@, texts(mcu_list@)),
{
    let query = lowercase(name.as_str());
    let mut out: Vec<String> = Vec::new();
    let mut i: usize = 0;
    while i < mcu_list.len()
        invariant
            i <= mcu_list@.len(),
            query@ == lower_of(name@),
            texts(out@) == completions(name@, texts(mcu_list@.take(i as int))),
        decreases mcu_list@.len() - i,
    {
        let entry = lowercase(mcu_list[i].as_str());
        let hit = completion_matches(entry.as_str(), query.as_str());
        assert(texts(mcu_list@.take(i + 1)).drop_last() =~= texts(mcu_list@.take(i as int)));
        assert(texts(mcu_list@.take(i + 1)).last() == mcu_list@[i as int]@);
        if hit {
            let item = mcu_list[i].clone();
            out.push(item);
            assert(texts(out@) =~= completions(name@, texts(mcu_list@.take(i as int))).push(
                mcu_list@[i as int]@,
            ));
        }
        i = i + 1;
    }
    assert(mcu_list@.take(mcu_list@.len() as int) =~= mcu_list@);
    out
}

} // verus!
