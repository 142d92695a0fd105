//! Small verified helpers on strings, stated over their character sequences.

use vstd::prelude::*;
use vstd::string::*;

verus! {

/// The characters of an optional string slice.
pub open spec fn opt_str(text: Option<&str>) -> Option<Seq<char>> {
    match text {
        Some(given) => Some(given@),
        None => None,
    }
}

/// The characters of an optional string.
pub open spec fn opt_string(text: Option<String>) -> Option<Seq<char>> {
    match text {
        Some(given) => Some(given@),
        None => None,
    }
}

/// Whether two strings hold the same characters.
pub fn same_text(a: &str, b: &str) -> (same: bool)
    ensures
        same == (a@ == b@),
{
    let left = a.to_owned();
    let right = b.to_owned();
    left == right
}

/// The rest of `text` behind `prefix`, or `None` where `text` does not start
/// with `prefix`.
pub fn strip_prefix(text: &str, prefix: &str) -> (rest: Option<String>)
    ensures
        match rest {
            Some(tail) => text@ == prefix@ + tail@,
            None => !prefix@.is_prefix_of(text@),
        },
{
    let text_len = text.unicode_len();
    let prefix_len = prefix.unicode_len();
    if text_len < prefix_len {
        return None;
    }
    let head = text.substring_char(0, prefix_len);
    if !same_text(head, prefix) {
        return None;
    }
    let tail = text.substring_char(prefix_len, text_len);
    proof {
        assert(text@ =~= text@.subrange(0, prefix_len as int) + text@.subrange(
            prefix_len as int,
            text_len as int,
        ));
    }
    Some(tail.to_owned())
}

/// The texts of a list of strings, in order.
pub open spec fn texts(list: Seq<String>) -> Seq<Seq<char>> {
    list.map_values(|item: String| item@)
}

/// Whether `list` holds `item`.
pub fn contains_text(list: &Vec<String>, item: &str) -> (found: bool)
    ensures
        found == texts(list@).contains(item@),
{
    let mut i: usize = 0;
    while i < list.len()
        invariant
            i <= list.len(),
            forall|k: int| 0 <= k < i ==> texts(list@)[k] != item@,
        decreases list.len() - i,
    {
        if same_text(list[i].as_str(), item) {
            assert(texts(list@)[i as int] == item@);
            return true;
        }
        i += 1;
    }
    false
}

/// `list` without every occurrence of `item`; what stays keeps its order.
pub fn without_text(list: &Vec<String>, item: &str) -> (kept: Vec<String>)
    ensures
        texts(kept@) == texts(list@).filter(|other: Seq<char>| other != item@),
{
    let ghost differs = |other: Seq<char>| other != item@;
    let mut kept: Vec<String> = Vec::new();
    let mut i: usize = 0;
    proof {
        reveal(Seq::filter);
        assert(texts(list@).take(0).filter(differs) =~= texts(kept@));
    }
    while i < list.len()
        invariant
            i <= list.len(),
            differs == |other: Seq<char>| other != item@,
            texts(kept@) == texts(list@).take(i as int).filter(differs),
        decreases list.len() - i,
    {
        let ghost before = texts(kept@);
        proof {
            let head = texts(list@).take(i as int);
            assert(texts(list@).take(i + 1) =~= head.push(texts(list@)[i as int]));
            head.lemma_filter_push(texts(list@)[i as int], differs);
        }
        if !same_text(list[i].as_str(), item) {
            kept.push(list[i].clone());
            assert(texts(kept@) =~= before.push(texts(list@)[i as int]));
        }
        i += 1;
    }
    proof {
        assert(texts(list@).take(list.len() as int) =~= texts(list@));
    }
    kept
}

/// `list` with `item` added at its end.
pub fn with_text(list: &Vec<String>, item: &str) -> (grown: Vec<String>)
    ensures
        texts(grown@) == texts(list@).push(item@),
{
    let mut grown: Vec<String> = Vec::new();
    let mut i: usize = 0;
    while i < list.len()
        invariant
            i <= list.len(),
            texts(grown@) =~= texts(list@).take(i as int),
        decreases list.len() - i,
    {
        let ghost before = texts(grown@);
        grown.push(list[i].clone());
        assert(texts(grown@) =~= before.push(texts(list@)[i as int]));
        i += 1;
    }
    let ghost before = texts(grown@);
    grown.push(item.to_owned());
    assert(texts(grown@) =~= before.push(item@));
    assert(texts(list@).take(list.len() as int) =~= texts(list@));
    grown
}

/// A copy of an optional string.
pub fn clone_opt(text: &Option<String>) -> (copy: Option<String>)
    ensures
        copy == *text,
{
    match text {
        Some(given) => Some(given.clone()),
        None => None,
    }
}

/// `head` followed by `tail`.
pub fn joined(head: &str, tail: &str) -> (text: String)
    ensures
        text@ == head@ + tail@,
{
    let mut text = head.to_owned();
    text.append(tail);
    text
}

} // verus!
