//! Ordering of directory entries by the user's chosen key.

use vstd::prelude::*;

use crate::entries::FsEntry;
use crate::strings::{
    lemma_lex_order_antisymmetric, lemma_lex_order_transitive, lemma_lex_order_zero_equal, lex_compare,
    lex_order,
    lowercase_chars, unicode_lowercase, chars_of,
};

verus! {

/// The property entries are ordered by.
#[derive(Debug, Clone, Copy, PartialEq, Eq, Structural)]
pub enum SortKey {
    Name,
    Modified,
    Size,
    Type,
}

/// The key entries are ordered by, and the direction.
#[derive(Debug, Clone, Copy)]
pub struct SortState {
    pub key: SortKey,
    pub ascending: bool,
}

impl Default for SortState {
    fn default() -> (r: Self)
        ensures
            r.key == SortKey::Name,
            r.ascending,
    {
        SortState { key: SortKey::Name, ascending: true }
    }
}

impl SortState {
    /// Flips between ascending and descending order.
    pub fn toggle_direction(&mut self)
        ensures
            final(self).key == old(self).key,
            final(self).ascending == !old(self).ascending,
    {
        self.ascending = !self.ascending;
    }
}

/// Order of two integers: -1, 0 or 1.
pub open spec fn int_order(a: int, b: int) -> int {
    if a < b {
        -1
    } else if a > b {
        1
    } else {
        0
    }
}

/// Order of two optional times: an unknown time comes first.
pub open spec fn time_order(a: Option<i128>, b: Option<i128>) -> int {
    match (a, b) {
        (None, None) => 0,
        (None, Some(_)) => -1,
        (Some(_), None) => 1,
        (Some(x), Some(y)) => int_order(x as int, y as int),
    }
}

/// The extension of an entry, or the empty text when it has none.
pub open spec fn extension_text(e: FsEntry) -> Seq<char> {
    match e.extension {
        Some(x) => x@,
        None => Seq::empty(),
    }
}

/// The text an entry is ordered by under a text key.
pub open spec fn key_text(key: SortKey, e: FsEntry) -> Seq<char> {
    match key {
        SortKey::Name => unicode_lowercase(e.name@),
        _ => extension_text(e),
    }
}

/// Ascending order of two entries under `key`: -1, 0 or 1.
/// Names compare case-insensitively, times and sizes numerically,
/// extensions as written.
pub open spec fn key_order(key: SortKey, a: FsEntry, b: FsEntry) -> int {
    match key {
        SortKey::Name => lex_order(key_text(key, a), key_text(key, b)),
        SortKey::Modified => time_order(a.modified, b.modified),
        SortKey::Size => int_order(a.size as int, b.size as int),
        SortKey::Type => lex_order(key_text(key, a), key_text(key, b)),
    }
}

/// Order of two entries under `sort`, its direction taken into account.
pub open spec fn entry_order(sort: SortState, a: FsEntry, b: FsEntry) -> int {
    if sort.ascending {
        key_order(sort.key, a, b)
    } else {
        -key_order(sort.key, a, b)
    }
}

/// Swapping two entries negates their order.
pub proof fn lemma_entry_order_antisymmetric(sort: SortState, a: FsEntry, b: FsEntry)
    ensures
        entry_order(sort, a, b) == -entry_order(sort, b, a),
{
    match sort.key {
        SortKey::Name => lemma_lex_order_antisymmetric(key_text(sort.key, a), key_text(sort.key, b)),
        SortKey::Type => lemma_lex_order_antisymmetric(key_text(sort.key, a), key_text(sort.key, b)),
        _ => {},
    }
}

/// "Not after" in the order of `sort` is transitive.
pub proof fn lemma_entry_order_transitive(sort: SortState, a: FsEntry, b: FsEntry, c: FsEntry)
    requires
        entry_order(sort, a, b) <= 0,
        entry_order(sort, b, c) <= 0,
    ensures
        entry_order(sort, a, c) <= 0,
{
    lemma_entry_order_antisymmetric(sort, a, b);
    lemma_entry_order_antisymmetric(sort, b, c);
    lemma_entry_order_antisymmetric(sort, a, c);
    let (ta, tb, tc) = (key_text(sort.key, a), key_text(sort.key, b), key_text(sort.key, c));
    match sort.key {
        SortKey::Name => {
            if sort.ascending {
                lemma_lex_order_transitive(ta, tb, tc);
            } else {
                lemma_lex_order_antisymmetric(ta, tb);
                lemma_lex_order_antisymmetric(tb, tc);
                lemma_lex_order_antisymmetric(ta, tc);
                lemma_lex_order_transitive(tc, tb, ta);
            }
        },
        SortKey::Type => {
            if sort.ascending {
                lemma_lex_order_transitive(ta, tb, tc);
            } else {
                lemma_lex_order_antisymmetric(ta, tb);
                lemma_lex_order_antisymmetric(tb, tc);
                lemma_lex_order_antisymmetric(ta, tc);
                lemma_lex_order_transitive(tc, tb, ta);
            }
        },
        _ => {},
    }
}

/// `perm` lists each index below `n` exactly once.
pub open spec fn is_permutation(perm: Seq<int>, n: int) -> bool {
    &&& perm.len() == n
    &&& forall|k: int| 0 <= k < n ==> 0 <= #[trigger] perm[k] < n
    &&& forall|k: int, l: int| 0 <= k < l < n ==> perm[k] != perm[l]
}

/// `out` is `inp` rearranged by `perm` into the order of `sort`, entries that
/// compare equal keeping their relative order.
pub open spec fn stable_sort_by(sort: SortState, inp: Seq<FsEntry>, out: Seq<FsEntry>, perm: Seq<int>) -> bool {
    &&& out.len() == inp.len()
    &&& is_permutation(perm, inp.len() as int)
    &&& forall|k: int| 0 <= k < out.len() ==> #[trigger] out[k] == inp[perm[k]]
    &&& forall|k: int, l: int|
        0 <= k < l < out.len() ==> entry_order(sort, #[trigger] out[k], #[trigger] out[l]) <= 0
    &&& forall|k: int, l: int|
        0 <= k < l < out.len() && entry_order(sort, out[k], out[l]) == 0 ==> #[trigger] perm[k]
            < #[trigger] perm[l]
}

/// `out` is a stable sort of `inp` in the order of `sort`.
pub open spec fn is_stable_sort(sort: SortState, inp: Seq<FsEntry>, out: Seq<FsEntry>) -> bool {
    exists|perm: Seq<int>| stable_sort_by(sort, inp, out, perm)
}

/// Where `x` goes in the sorted `t`: after every entry not after it.
pub open spec fn insert_pos(sort: SortState, t: Seq<FsEntry>, x: FsEntry) -> nat
    decreases t.len(),
{
    if t.len() == 0 || entry_order(sort, t.last(), x) <= 0 {
        t.len()
    } else {
        insert_pos(sort, t.drop_last(), x)
    }
}

/// `s` sorted in the order of `sort`, each entry placed after the earlier
/// entries that are not after it.
pub open spec fn sorted_by(sort: SortState, s: Seq<FsEntry>) -> Seq<FsEntry>
    decreases s.len(),
{
    if s.len() == 0 {
        s
    } else {
        let t = sorted_by(sort, s.drop_last());
        t.insert(insert_pos(sort, t, s.last()) as int, s.last())
    }
}

/// Where each entry of `sorted_by(sort, s)` comes from in `s`.
pub open spec fn sorted_origins(sort: SortState, s: Seq<FsEntry>) -> Seq<int>
    decreases s.len(),
{
    if s.len() == 0 {
        Seq::empty()
    } else {
        let t = sorted_by(sort, s.drop_last());
        sorted_origins(sort, s.drop_last()).insert(insert_pos(sort, t, s.last()) as int, s.len() - 1)
    }
}

/// The insertion place of `x` in `t` follows every entry not after `x`
/// and precedes every entry after it.
proof fn lemma_insert_pos(sort: SortState, t: Seq<FsEntry>, x: FsEntry)
    ensures
        insert_pos(sort, t, x) <= t.len(),
        forall|m: int| insert_pos(sort, t, x) <= m < t.len() ==> entry_order(sort, #[trigger] t[m], x) > 0,
        insert_pos(sort, t, x) > 0 ==> entry_order(sort, t[insert_pos(sort, t, x) - 1], x) <= 0,
    decreases t.len(),
{
    if t.len() > 0 && entry_order(sort, t.last(), x) > 0 {
        lemma_insert_pos(sort, t.drop_last(), x);
        assert forall|m: int| insert_pos(sort, t, x) <= m < t.len() implies entry_order(sort, #[trigger] t[m], x) > 0 by {
            if m < t.len() - 1 {
                assert(t[m] == t.drop_last()[m]);
            }
        }
    }
}

/// Sorting puts the entries in the order of `sort`, as a rearrangement of
/// them that keeps entries comparing equal in their original order.
pub proof fn lemma_sorted_by_is_stable_sort(sort: SortState, s: Seq<FsEntry>)
    ensures
        stable_sort_by(sort, s, sorted_by(sort, s), sorted_origins(sort, s)),
        is_stable_sort(sort, s, sorted_by(sort, s)),
    decreases s.len(),
{
    if s.len() > 0 {
        let s0 = s.drop_last();
        let x = s.last();
        let n = s.len() as int;
        let t = sorted_by(sort, s0);
        let p = sorted_origins(sort, s0);
        lemma_sorted_by_is_stable_sort(sort, s0);
        lemma_insert_pos(sort, t, x);
        let j = insert_pos(sort, t, x) as int;
        let out = sorted_by(sort, s);
        let q = sorted_origins(sort, s);
        assert(out == t.insert(j, x));
        assert(q == p.insert(j, n - 1));
        assert forall|k: int| 0 <= k < n implies 0 <= #[trigger] q[k] < n && out[k] == s[q[k]] by {
            if k < j {
                assert(out[k] == t[k] && q[k] == p[k]);
            } else if k > j {
                assert(out[k] == t[k - 1] && q[k] == p[k - 1]);
            }
        }
        assert forall|k: int, l: int| 0 <= k < l < n implies q[k] != q[l] by {
            if l < j {
            } else if k > j {
                assert(q[k] == p[k - 1] && q[l] == p[l - 1]);
            } else if k == j {
                assert(q[l] == p[l - 1]);
            } else if l == j {
                assert(q[k] == p[k]);
            } else {
                assert(q[k] == p[k] && q[l] == p[l - 1]);
            }
        }
        assert forall|k: int, l: int| 0 <= k < l < n implies entry_order(sort, #[trigger] out[k], #[trigger] out[l]) <= 0
            && (entry_order(sort, out[k], out[l]) == 0 ==> q[k] < q[l]) by {
            if l < j {
                assert(out[k] == t[k] && out[l] == t[l] && q[k] == p[k] && q[l] == p[l]);
            } else if k > j {
                assert(out[k] == t[k - 1] && out[l] == t[l - 1]);
                assert(q[k] == p[k - 1] && q[l] == p[l - 1]);
            } else if k == j {
                assert(out[l] == t[l - 1]);
                lemma_entry_order_antisymmetric(sort, t[l - 1], x);
            } else if l == j {
                assert(out[k] == t[k] && q[k] == p[k]);
                if k < j - 1 {
                    lemma_entry_order_transitive(sort, t[k], t[j - 1], x);
                }
            } else {
                assert(out[k] == t[k] && out[l] == t[l - 1]);
                assert(q[k] == p[k] && q[l] == p[l - 1]);
            }
        }
        assert(stable_sort_by(sort, s, out, q));
    }
    assert(stable_sort_by(sort, s, sorted_by(sort, s), sorted_origins(sort, s)));
}

/// The order of each key, stated on the entries themselves: names compare
/// as their whole lowercased texts by code point, times with an unknown time
/// first, sizes as numbers, extensions as their whole texts (none as empty).
pub proof fn lemma_key_orders(a: FsEntry, b: FsEntry)
    ensures
        key_order(SortKey::Name, a, b) == lex_order(unicode_lowercase(a.name@), unicode_lowercase(b.name@)),
        key_order(SortKey::Size, a, b) == (if a.size < b.size { -1int } else if a.size > b.size { 1int } else { 0int }),
        key_order(SortKey::Modified, a, b) == (match (a.modified, b.modified) {
            (None, None) => 0int,
            (None, Some(_)) => -1int,
            (Some(_), None) => 1int,
            (Some(x), Some(y)) => if x < y { -1int } else if x > y { 1int } else { 0int },
        }),
        key_order(SortKey::Type, a, b) == lex_order(
            match a.extension { Some(x) => x@, None => Seq::<char>::empty() },
            match b.extension { Some(x) => x@, None => Seq::<char>::empty() },
        ),
        unicode_lowercase(a.name@) != unicode_lowercase(b.name@) ==> key_order(SortKey::Name, a, b) != 0,
{
    if lex_order(unicode_lowercase(a.name@), unicode_lowercase(b.name@)) == 0 {
        lemma_lex_order_zero_equal(unicode_lowercase(a.name@), unicode_lowercase(b.name@));
    }
}

/// Sorting by name puts the entries in the code-point order of their whole
/// lowercased names (reversed when descending); entries with the same
/// lowercased name keep their relative order.
pub proof fn lemma_sorted_by_name(ascending: bool, s: Seq<FsEntry>)
    ensures
        ({
            let out = sorted_by(SortState { key: SortKey::Name, ascending }, s);
            forall|k: int, l: int|
                0 <= k < l < out.len() ==> if ascending {
                    lex_order(unicode_lowercase((#[trigger] out[k]).name@), unicode_lowercase((#[trigger] out[l]).name@)) <= 0
                } else {
                    lex_order(unicode_lowercase(out[k].name@), unicode_lowercase(out[l].name@)) >= 0
                }
        }),
{
    let sort = SortState { key: SortKey::Name, ascending };
    let out = sorted_by(sort, s);
    lemma_sorted_by_is_stable_sort(sort, s);
    assert forall|k: int, l: int| 0 <= k < l < out.len() implies if ascending {
        lex_order(unicode_lowercase((#[trigger] out[k]).name@), unicode_lowercase((#[trigger] out[l]).name@)) <= 0
    } else {
        lex_order(unicode_lowercase(out[k].name@), unicode_lowercase(out[l].name@)) >= 0
    } by {
        assert(entry_order(sort, out[k], out[l]) <= 0);
        lemma_key_orders(out[k], out[l]);
    }
}

/// Sorting by size puts the entries in numeric order of size (reversed when
/// descending).
pub proof fn lemma_sorted_by_size(ascending: bool, s: Seq<FsEntry>)
    ensures
        ({
            let out = sorted_by(SortState { key: SortKey::Size, ascending }, s);
            forall|k: int, l: int|
                0 <= k < l < out.len() ==> if ascending {
                    (#[trigger] out[k]).size <= (#[trigger] out[l]).size
                } else {
                    out[k].size >= out[l].size
                }
        }),
{
    let sort = SortState { key: SortKey::Size, ascending };
    let out = sorted_by(sort, s);
    lemma_sorted_by_is_stable_sort(sort, s);
    assert forall|k: int, l: int| 0 <= k < l < out.len() implies if ascending {
        (#[trigger] out[k]).size <= (#[trigger] out[l]).size
    } else {
        out[k].size >= out[l].size
    } by {
        assert(entry_order(sort, out[k], out[l]) <= 0);
        lemma_key_orders(out[k], out[l]);
    }
}

/// The texts entries are ordered by, computed once per entry.
fn key_texts(key: SortKey, entries: &Vec<FsEntry>) -> (r: Vec<Vec<char>>)
    ensures
        r.len() == entries.len(),
        key is Name || key is Type ==> forall|i: int|
            0 <= i < entries.len() ==> (#[trigger] r[i])@ == key_text(key, entries[i]),
{
    let mut out: Vec<Vec<char>> = Vec::new();
    let mut i: usize = 0;
    while i < entries.len()
        invariant
            i <= entries.len(),
            out.len() == i,
            key is Name || key is Type ==> forall|j: int|
                0 <= j < i ==> (#[trigger] out[j])@ == key_text(key, entries[j]),
        decreases entries.len() - i,
    {
        let text = match key {
            SortKey::Name => lowercase_chars(entries[i].name.as_str()),
            SortKey::Type => match &entries[i].extension {
                Some(x) => chars_of(x.as_str()),
                None => Vec::new(),
            },
            _ => Vec::new(),
        };
        out.push(text);
        i = i + 1;
    }
    out
}

/// Order of two optional times, an unknown time first.
fn time_compare(a: Option<i128>, b: Option<i128>) -> (r: i8)
    ensures
        r == time_order(a, b),
{
    match (a, b) {
        (None, None) => 0,
        (None, Some(_)) => -1,
        (Some(_), None) => 1,
        (Some(x), Some(y)) => if x < y {
            -1
        } else if x > y {
            1
        } else {
            0
        },
    }
}

/// Order of `entries[a]` and `entries[b]` under `sort`.
fn compare_at(sort: &SortState, texts: &Vec<Vec<char>>, entries: &Vec<FsEntry>, a: usize, b: usize) -> (r: i8)
    requires
        a < entries.len(),
        b < entries.len(),
        texts.len() == entries.len(),
        sort.key is Name || sort.key is Type ==> forall|i: int|
            0 <= i < entries.len() ==> (#[trigger] texts[i])@ == key_text(sort.key, entries[i]),
    ensures
        r == entry_order(*sort, entries[a as int], entries[b as int]),
{
    let base: i8 = match sort.key {
        SortKey::Name => lex_compare(&texts[a], &texts[b]),
        SortKey::Type => lex_compare(&texts[a], &texts[b]),
        SortKey::Modified => time_compare(entries[a].modified, entries[b].modified),
        SortKey::Size => if entries[a].size < entries[b].size {
            -1
        } else if entries[a].size > entries[b].size {
            1
        } else {
            0
        },
    };
    proof {
        lemma_lex_order_antisymmetric(key_text(sort.key, entries[a as int]), key_text(sort.key, entries[b as int]));
    }
    if sort.ascending {
        base
    } else {
        -base
    }
}

/// Sorts `entries` by `sort.key`, ascending or descending as `sort` says.
/// The sort is stable: entries that compare equal keep their order.
pub fn sort_entries(entries: &mut Vec<FsEntry>, sort: &SortState)
    ensures
        final(entries)@ == sorted_by(*sort, old(entries)@),
        is_stable_sort(*sort, old(entries)@, final(entries)@),
{
    let texts = key_texts(sort.key, entries);
    let n = entries.len();
    let ghost inp = entries@;
    // `order` holds the indices below `i`, in the order `sorted_by` gives them.
    let mut order: Vec<usize> = Vec::new();
    let mut i: usize = 0;
    assert(inp.take(0) =~= Seq::<FsEntry>::empty());
    assert(order@.map_values(|k: usize| inp[k as int]) =~= Seq::<FsEntry>::empty());
    while i < n
        invariant
            n == entries.len(),
            entries@ == inp,
            texts.len() == n,
            sort.key is Name || sort.key is Type ==> forall|q: int|
                0 <= q < n ==> (#[trigger] texts[q])@ == key_text(sort.key, entries[q]),
            i <= n,
            order.len() == i,
            forall|k: int| 0 <= k < i ==> #[trigger] order[k] < i,
            order@.map_values(|k: usize| inp[k as int]) == sorted_by(*sort, inp.take(i as int)),
        decreases n - i,
    {
        let ghost t = order@.map_values(|k: usize| inp[k as int]);
        let ghost x = inp[i as int];
        let mut j: usize = i;
        assert(t.take(i as int) =~= t);
        while j > 0 && compare_at(sort, &texts, entries, order[j - 1], i) > 0
            invariant
                n == entries.len(),
                entries@ == inp,
                texts.len() == n,
                sort.key is Name || sort.key is Type ==> forall|q: int|
                    0 <= q < n ==> (#[trigger] texts[q])@ == key_text(sort.key, entries[q]),
                i < n,
                order.len() == i,
                forall|k: int| 0 <= k < i ==> #[trigger] order[k] < i,
                t == order@.map_values(|k: usize| inp[k as int]),
                x == inp[i as int],
                j <= i,
                insert_pos(*sort, t, x) == insert_pos(*sort, t.take(j as int), x),
            decreases j,
        {
            assert(t.take(j as int).drop_last() =~= t.take(j - 1));
            assert(t.take(j as int).last() == t[j - 1]);
            j = j - 1;
        }
        proof {
            if j > 0 {
                assert(t.take(j as int).last() == t[j - 1]);
            }
            assert(insert_pos(*sort, t.take(j as int), x) == j);
        }
        order.insert(j, i);
        proof {
            assert(order@.map_values(|k: usize| inp[k as int]) =~= t.insert(j as int, x));
            assert(inp.take(i + 1).drop_last() =~= inp.take(i as int));
            assert(inp.take(i + 1).last() == x);
        }
        i = i + 1;
    }
    let mut out: Vec<FsEntry> = Vec::new();
    let mut k: usize = 0;
    while k < n
        invariant
            n == entries.len(),
            entries@ == inp,
            order.len() == n,
            forall|q: int| 0 <= q < n ==> #[trigger] order[q] < n,
            out.len() == k,
            k <= n,
            forall|q: int| 0 <= q < k ==> #[trigger] out@[q] == inp[order[q] as int],
        decreases n - k,
    {
        out.push(entries[order[k]].clone());
        k = k + 1;
    }
    proof {
        assert(inp.take(n as int) =~= inp);
        assert(out@ =~= order@.map_values(|k: usize| inp[k as int]));
        lemma_sorted_by_is_stable_sort(*sort, inp);
    }
    *entries = out;
}

} // verus!
