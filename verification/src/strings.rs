//! Vectors of strings: copies, searches, and lists kept in rising order.

use crate::text::{
    lemma_precedes_irreflexive, lemma_precedes_total, lemma_precedes_transitive, lowercase,
    precedes, text_before,
};
use vstd::prelude::*;
use vstd::string::StringExecFns;

verus! {

/// The texts that a vector of strings holds.
pub open spec fn texts(strings: Seq<String>) -> Seq<Seq<char>> {
    strings.map_values(|s: String| s@)
}

/// Copies a vector of strings.
pub fn copy_texts(strings: &Vec<String>) -> (r: Vec<String>)
    ensures
        texts(r@) == texts(strings@),
{
    let mut out: Vec<String> = Vec::new();
    let mut i: usize = 0;
    while i < strings.len()
        invariant
            i <= strings.len(),
            out.len() == i,
            forall|k: int| 0 <= k < i ==> (#[trigger] out[k])@ == strings[k]@,
        decreases strings.len() - i,
    {
        out.push(strings[i].clone());
        i += 1;
    }
    out
}

/// The lowercase forms of a vector of strings.
pub fn lowered_texts(strings: &Vec<String>) -> (r: Vec<String>)
    ensures
        texts(r@) == texts(strings@).map_values(|t: Seq<char>| lowercase(t)),
{
    let mut out: Vec<String> = Vec::new();
    let mut i: usize = 0;
    while i < strings.len()
        invariant
            i <= strings.len(),
            out.len() == i,
            forall|k: int| 0 <= k < i ==> (#[trigger] out[k])@ == lowercase(strings[k]@),
        decreases strings.len() - i,
    {
        out.push(strings[i].as_str().to_lowercase());
        i += 1;
    }
    out
}

/// The first place in `strings` where `text` stands, if it stands anywhere.
pub fn position_of(strings: &Vec<String>, text: &str) -> (r: Option<usize>)
    ensures
        r is None <==> !texts(strings@).contains(text@),
        r matches Some(at) ==> at < strings.len() && texts(strings@)[at as int] == text@
            && forall|k: int| 0 <= k < at ==> #[trigger] texts(strings@)[k] != text@,
{
    let mut i: usize = 0;
    while i < strings.len()
        invariant
            i <= strings.len(),
            forall|k: int| 0 <= k < i ==> #[trigger] texts(strings@)[k] != text@,
        decreases strings.len() - i,
    {
        if *strings[i].as_str() == *text {
            assert(texts(strings@)[i as int] == text@);
            return Some(i);
        }
        i += 1;
    }
    None
}

/// Tells whether one of `strings` is `text`.
pub fn holds_text(strings: &Vec<String>, text: &str) -> (r: bool)
    ensures
        r == texts(strings@).contains(text@),
{
    position_of(strings, text).is_some()
}

/// Tells whether no text occurs twice in `strings`.
pub fn all_distinct(strings: &Vec<String>) -> (r: bool)
    ensures
        r == texts(strings@).no_duplicates(),
{
    let mut i: usize = 0;
    while i < strings.len()
        invariant
            i <= strings.len(),
            forall|a: int, b: int|
                0 <= a < i && 0 <= b < strings.len() && a != b ==> #[trigger] texts(
                    strings@,
                )[a] != #[trigger] texts(strings@)[b],
        decreases strings.len() - i,
    {
        let mut j: usize = i + 1;
        while j < strings.len()
            invariant
                i < j <= strings.len(),
                forall|b: int|
                    i < b < j ==> texts(strings@)[i as int] != #[trigger] texts(strings@)[b],
            decreases strings.len() - j,
        {
            if strings[i] == strings[j] {
                assert(texts(strings@)[i as int] == texts(strings@)[j as int]);
                return false;
            }
            j += 1;
        }
        i += 1;
    }
    true
}

/// Whether the texts stand in strictly rising order, so that none occurs
/// twice.
pub open spec fn ascending(list: Seq<Seq<char>>) -> bool {
    forall|i: int, j: int|
        0 <= i < j < list.len() ==> precedes(#[trigger] list[i], #[trigger] list[j])
}

/// Texts in strictly rising order are all different.
pub proof fn lemma_ascending_is_distinct(list: Seq<Seq<char>>)
    requires
        ascending(list),
    ensures
        list.no_duplicates(),
{
    assert forall|i: int, j: int|
        0 <= i < list.len() && 0 <= j < list.len() && i != j implies list[i] != list[j] by {
        lemma_precedes_irreflexive(list[i]);
        if i < j {
            assert(precedes(list[i], list[j]));
        } else {
            assert(precedes(list[j], list[i]));
        }
    }
}

/// Puts `text` at its place in a rising list, unless the list has it.
pub(crate) fn insert_ascending(list: &mut Vec<String>, text: &String)
    requires
        ascending(texts(old(list)@)),
    ensures
        ascending(texts(final(list)@)),
        forall|t: Seq<char>| #[trigger]
            texts(final(list)@).contains(t) <==> texts(old(list)@).contains(t) || t == text@,
{
    let ghost before = texts(list@);
    let mut at: usize = 0;
    while at < list.len() && text_before(list[at].as_str(), text.as_str())
        invariant
            at <= list.len(),
            texts(list@) == before,
            forall|k: int| 0 <= k < at ==> precedes(#[trigger] before[k], text@),
        decreases list.len() - at,
    {
        at += 1;
    }
    if at < list.len() && list[at] == *text {
        assert(before[at as int] == text@);
        return ;
    }
    list.insert(at, text.clone());
    proof {
        let after = texts(list@);
        assert(after =~= before.insert(at as int, text@));
        assert forall|k: int| at <= k < before.len() implies precedes(
            text@,
            #[trigger] before[k],
        ) by {
            lemma_precedes_total(text@, before[at as int]);
            if k > at {
                lemma_precedes_transitive(text@, before[at as int], before[k]);
            }
        }
        assert forall|i: int, j: int| 0 <= i < j < after.len() implies precedes(
            #[trigger] after[i],
            #[trigger] after[j],
        ) by {
            if i < at && j > at {
                assert(after[i] == before[i] && after[j] == before[j - 1]);
            } else if i < at && j < at {
                assert(after[i] == before[i] && after[j] == before[j]);
            } else if i > at {
                assert(after[i] == before[i - 1] && after[j] == before[j - 1]);
            } else if i == at {
                assert(after[j] == before[j - 1]);
            } else {
                assert(after[i] == before[i]);
            }
        }
        assert forall|t: Seq<char>| #[trigger]
            after.contains(t) <==> before.contains(t) || t == text@ by {
            if after.contains(t) {
                let k = choose|k: int| 0 <= k < after.len() && after[k] == t;
                if k < at {
                    assert(before[k] == t);
                } else if k > at {
                    assert(before[k - 1] == t);
                }
            }
            if before.contains(t) {
                let k = choose|k: int| 0 <= k < before.len() && before[k] == t;
                if k < at {
                    assert(after[k] == t);
                } else {
                    assert(after[k + 1] == t);
                }
            }
            if t == text@ {
                assert(after[at as int] == t);
            }
        }
    }
}

/// Puts each of `tags` at its place in a rising list.
pub(crate) fn insert_all_ascending(list: &mut Vec<String>, tags: &Vec<String>)
    requires
        ascending(texts(old(list)@)),
    ensures
        ascending(texts(final(list)@)),
        forall|t: Seq<char>| #[trigger]
            texts(final(list)@).contains(t) <==> texts(old(list)@).contains(t) || texts(
                tags@,
            ).contains(t),
{
    let ghost before = texts(list@);
    let mut j: usize = 0;
    while j < tags.len()
        invariant
            j <= tags.len(),
            ascending(texts(list@)),
            forall|t: Seq<char>| #[trigger]
                texts(list@).contains(t) <==> before.contains(t) || texts(tags@).take(
                    j as int,
                ).contains(t),
        decreases tags.len() - j,
    {
        let ghost earlier = texts(list@);
        insert_ascending(list, &tags[j]);
        proof {
            let seen = texts(tags@).take(j as int);
            let next = texts(tags@).take(j + 1);
            assert(next =~= seen.push(tags[j as int]@));
            assert forall|t: Seq<char>| #[trigger]
                texts(list@).contains(t) <==> before.contains(t) || next.contains(t) by {
                assert(earlier.contains(t) <==> before.contains(t) || seen.contains(t));
                if seen.contains(t) {
                    let k = choose|k: int| 0 <= k < seen.len() && seen[k] == t;
                    assert(next[k] == t);
                }
                if next.contains(t) {
                    let k = choose|k: int| 0 <= k < next.len() && next[k] == t;
                    if k < j {
                        assert(seen[k] == t);
                    }
                }
                if t == tags[j as int]@ {
                    assert(next[j as int] == t);
                }
            }
        }
        j += 1;
    }
    assert(texts(tags@).take(j as int) =~= texts(tags@));
}

/// The texts of `parts` in a row, with `separator` between each two.
pub open spec fn joined(parts: Seq<Seq<char>>, separator: Seq<char>) -> Seq<char>
    decreases parts.len(),
{
    if parts.len() == 0 {
        Seq::empty()
    } else if parts.len() == 1 {
        parts[0]
    } else {
        joined(parts.drop_last(), separator) + separator + parts.last()
    }
}

/// The texts of `parts` in a row, with `separator` between each two.
pub fn join_texts(parts: &Vec<String>, separator: &str) -> (r: String)
    ensures
        r@ == joined(texts(parts@), separator@),
{
    let mut out = String::new();
    let mut i: usize = 0;
    while i < parts.len()
        invariant
            i <= parts.len(),
            out@ == joined(texts(parts@).take(i as int), separator@),
        decreases parts.len() - i,
    {
        proof {
            assert(texts(parts@).take(i + 1).drop_last() =~= texts(parts@).take(i as int));
        }
        if i > 0 {
            out.append(separator);
        }
        out.append(parts[i].as_str());
        i += 1;
    }
    assert(texts(parts@).take(i as int) =~= texts(parts@));
    out
}

} // verus!
