//! Narrowing a directory listing to the entries that match a search query.

use vstd::prelude::*;

use crate::entries::FsEntry;
use crate::strings::{
    contains_chars, lowercase_chars, occurs_in, trimmed, unicode_lowercase, unicode_trim,
};

verus! {

/// The text a query is matched with: trimmed, then lowercased.
pub open spec fn search_text(query: Seq<char>) -> Seq<char> {
    unicode_lowercase(unicode_trim(query))
}

/// Whether the lowercased search text `q` occurs in the entry's lowercased
/// name or lowercased extension.
pub open spec fn entry_matches(e: FsEntry, q: Seq<char>) -> bool {
    ||| occurs_in(q, unicode_lowercase(e.name@))
    ||| (match e.extension {
        Some(x) => occurs_in(q, unicode_lowercase(x@)),
        None => false,
    })
}

/// What `filter_entries` keeps of `entries` for `query`.
pub open spec fn filtered(entries: Seq<FsEntry>, query: Seq<char>) -> Seq<FsEntry> {
    let q = search_text(query);
    if q.len() == 0 {
        entries
    } else {
        entries.filter(|e: FsEntry| entry_matches(e, q))
    }
}

/// Whether an entry matches a query depends on its name and extension only:
/// entries that agree on those (whatever their paths, ids, sizes or times)
/// are kept or dropped alike.
pub proof fn lemma_match_ignores_path(a: FsEntry, b: FsEntry, q: Seq<char>)
    requires
        a.name@ == b.name@,
        a.extension.deep_view() == b.extension.deep_view(),
    ensures
        entry_matches(a, q) == entry_matches(b, q),
{
}

/// An empty (or all white space) query keeps the listing as it is; any other
/// query keeps an entry exactly when the trimmed, lowercased query occurs in
/// the entry's lowercased name or lowercased extension.
pub proof fn lemma_filter_keeps(entries: Seq<FsEntry>, query: Seq<char>, i: int)
    requires
        0 <= i < entries.len(),
    ensures
        ({
            let q = unicode_lowercase(unicode_trim(query));
            &&& q.len() == 0 ==> filtered(entries, query) == entries
            &&& q.len() > 0 ==> (filtered(entries, query).contains(entries[i]) <==> (occurs_in(
                q,
                unicode_lowercase(entries[i].name@),
            ) || match entries[i].extension {
                Some(x) => occurs_in(q, unicode_lowercase(x@)),
                None => false,
            }))
        }),
{
    let q = search_text(query);
    if q.len() > 0 {
        let pred = |e: FsEntry| entry_matches(e, q);
        let f = entries.filter(pred);
        if pred(entries[i]) {
            entries.lemma_filter_contains(pred, i);
        }
        if f.contains(entries[i]) {
            let j = choose|j: int| 0 <= j < f.len() && f[j] == entries[i];
            entries.lemma_filter_pred(pred, j);
        }
    }
}

/// Whether `e` matches the search text `q`.
pub fn matches_query(e: &FsEntry, q: &Vec<char>) -> (r: bool)
    ensures
        r == entry_matches(*e, q@),
{
    let name = lowercase_chars(e.name.as_str());
    if contains_chars(&name, q) {
        return true;
    }
    match &e.extension {
        Some(x) => {
            let ext = lowercase_chars(x.as_str());
            contains_chars(&ext, q)
        },
        None => false,
    }
}

/// Keeps the entries whose name or extension contains the trimmed query,
/// ignoring case; an empty query keeps every entry. Order is kept.
pub fn filter_entries(entries: Vec<FsEntry>, query: &str) -> (r: Vec<FsEntry>)
    ensures
        r@ == filtered(entries@, query@),
{
    let q = lowercase_chars(trimmed(query));
    if q.len() == 0 {
        return entries;
    }
    let ghost pred = |e: FsEntry| entry_matches(e, q@);
    let mut out: Vec<FsEntry> = Vec::new();
    let mut i: usize = 0;
    while i < entries.len()
        invariant
            i <= entries.len(),
            out@ == entries@.take(i as int).filter(pred),
            pred == (|e: FsEntry| entry_matches(e, q@)),
        decreases entries.len() - i,
    {
        let keep = matches_query(&entries[i], &q);
        proof {
            reveal(Seq::filter);
            assert(entries@.take(i + 1).drop_last() == entries@.take(i as int));
            assert(entries@.take(i + 1).last() == entries@[i as int]);
        }
        if keep {
            out.push(entries[i].clone());
        }
        i = i + 1;
    }
    assert(entries@.take(entries.len() as int) == entries@);
    out
}

} // verus!
