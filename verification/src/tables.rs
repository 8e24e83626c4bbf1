//! Tables keyed by name: lists of `(name, value)` pairs that stand for
//! maps, each name occurring once, in key order.
use vstd::prelude::*;

use crate::runtime::{key_index, table_find};

verus! {

/// The keys of a table, in order.
pub open spec fn table_keys<V>(table: Seq<(String, V)>) -> Seq<Seq<char>> {
    table.map_values(|e: (String, V)| e.0@)
}

/// No key occurs twice in a table: it stands for a map.
pub open spec fn unique_keys<V>(table: Seq<(String, V)>) -> bool {
    table_keys(table).no_duplicates()
}

/// `key_index` finds the key exactly when it occurs, and at an entry
/// with that key.
pub proof fn lemma_key_index_found<V>(table: Seq<(String, V)>, key: Seq<char>)
    ensures
        key_index(table, key) matches Some(i) ==> 0 <= i < table.len() && table[i].0@ == key,
        key_index(table, key) is None <==> !table_keys(table).contains(key),
    decreases table.len(),
{
    if table.len() > 0 {
        lemma_key_index_found(table.drop_last(), key);
        assert(table_keys(table.drop_last()) =~= table_keys(table).drop_last());
        if table_keys(table).contains(key) {
            let j = choose|j: int| 0 <= j < table_keys(table).len() && table_keys(table)[j] == key;
            if j < table.len() - 1 {
                assert(table_keys(table.drop_last())[j] == key);
            }
        }
        if key_index(table.drop_last(), key) is Some {
            let i = key_index(table.drop_last(), key)->0;
            assert(table_keys(table)[i] == key);
        }
        if table.last().0@ == key {
            assert(table_keys(table)[table.len() - 1] == key);
        }
    }
}

/// In a table whose keys are unique, each entry is the one its key finds.
pub proof fn lemma_unique_key_index<V>(table: Seq<(String, V)>, i: int)
    requires
        unique_keys(table),
        0 <= i < table.len(),
    ensures
        key_index(table, table[i].0@) == Some(i),
{
    let k = table[i].0@;
    lemma_key_index_found(table, k);
    assert(table_keys(table)[i] == k);
    let j = key_index(table, k)->0;
    assert(table_keys(table)[j] == k);
}

// ---------------------------------------------------------------------------
// Key order
// ---------------------------------------------------------------------------

/// Whether text `a` comes before text `b`: compared character by character
/// by code point, a proper prefix first. This is the order of `String`,
/// which compares the UTF-8 bytes, and UTF-8 keeps code point order.
pub open spec fn text_less(a: Seq<char>, b: Seq<char>) -> bool
    decreases a.len(),
{
    if a.len() == 0 {
        b.len() > 0
    } else if b.len() == 0 {
        false
    } else if a[0] != b[0] {
        (a[0] as int) < (b[0] as int)
    } else {
        text_less(a.drop_first(), b.drop_first())
    }
}

/// The keys of a table go up strictly, as a `BTreeMap` walks them.
pub open spec fn sorted_keys<V>(table: Seq<(String, V)>) -> bool {
    forall|i: int, j: int|
        0 <= i < j < table.len() ==> text_less(#[trigger] table[i].0@, #[trigger] table[j].0@)
}

/// No text comes before itself.
pub proof fn lemma_text_less_irreflexive(a: Seq<char>)
    ensures
        !text_less(a, a),
    decreases a.len(),
{
    if a.len() > 0 {
        lemma_text_less_irreflexive(a.drop_first());
    }
}

/// Of two different texts, one comes first.
pub proof fn lemma_text_less_total(a: Seq<char>, b: Seq<char>)
    requires
        a != b,
    ensures
        text_less(a, b) || text_less(b, a),
    decreases a.len(),
{
    if a.len() > 0 && b.len() > 0 && a[0] == b[0] {
        if a.drop_first() == b.drop_first() {
            assert(a =~= seq![a[0]] + a.drop_first());
            assert(b =~= seq![b[0]] + b.drop_first());
        }
        lemma_text_less_total(a.drop_first(), b.drop_first());
    } else if a.len() == 0 && b.len() == 0 {
        assert(a =~= b);
    } else if a.len() > 0 && b.len() > 0 {
        assert((a[0] as int) != (b[0] as int));
    }
}

/// The order is transitive.
pub proof fn lemma_text_less_transitive(a: Seq<char>, b: Seq<char>, c: Seq<char>)
    requires
        text_less(a, b),
        text_less(b, c),
    ensures
        text_less(a, c),
    decreases a.len(),
{
    if a.len() > 0 && a[0] == b[0] && b[0] == c[0] {
        lemma_text_less_transitive(a.drop_first(), b.drop_first(), c.drop_first());
    }
}

/// Keys that go up strictly occur once each.
pub proof fn lemma_sorted_unique<V>(table: Seq<(String, V)>)
    requires
        sorted_keys(table),
    ensures
        unique_keys(table),
{
    assert forall|i: int, j: int|
        0 <= i < table_keys(table).len() && 0 <= j < table_keys(table).len() && i != j
        implies table_keys(table)[i] != table_keys(table)[j] by {
        lemma_text_less_irreflexive(table[i].0@);
        if i < j {
            assert(text_less(table[i].0@, table[j].0@));
        } else {
            assert(text_less(table[j].0@, table[i].0@));
        }
    }
}

/// Whether text `a` comes before text `b` in key order.
pub fn text_before(a: &str, b: &str) -> (r: bool)
    ensures
        r == text_less(a@, b@),
{
    let ca = crate::text::chars_of(a);
    let cb = crate::text::chars_of(b);
    let mut i: usize = 0;
    assert(a@.skip(0) =~= a@);
    assert(b@.skip(0) =~= b@);
    while i < ca.len() && i < cb.len()
        invariant
            i <= ca.len(),
            i <= cb.len(),
            ca@ == a@,
            cb@ == b@,
            text_less(a@, b@) == text_less(a@.skip(i as int), b@.skip(i as int)),
        decreases ca.len() - i,
    {
        assert(a@.skip(i as int)[0] == ca@[i as int]);
        assert(b@.skip(i as int)[0] == cb@[i as int]);
        if ca[i] != cb[i] {
            return ca[i] < cb[i];
        }
        assert(a@.skip(i as int).drop_first() =~= a@.skip(i + 1));
        assert(b@.skip(i as int).drop_first() =~= b@.skip(i + 1));
        i = i + 1;
    }
    i == ca.len() && i < cb.len()
}

/// Where a key goes in a table in key order: after every key before it.
fn key_position<V>(table: &Vec<(String, V)>, key: &str) -> (p: usize)
    requires
        sorted_keys(table@),
    ensures
        p <= table@.len(),
        forall|i: int| 0 <= i < p ==> text_less(#[trigger] table@[i].0@, key@),
        p < table@.len() ==> !text_less(table@[p as int].0@, key@),
{
    let mut p: usize = 0;
    while p < table.len()
        invariant
            p <= table@.len(),
            forall|i: int| 0 <= i < p ==> text_less(#[trigger] table@[i].0@, key@),
        decreases table.len() - p,
    {
        if !text_before(table[p].0.as_str(), key) {
            return p;
        }
        p = p + 1;
    }
    p
}

/// The table of the given entries in key order, each key once, as a
/// `BTreeMap` built from them holds them: a later entry under a key seen
/// before replaces that entry. Entries already in key order are kept as they
/// are.
pub fn keyed_table<V>(entries: Vec<(String, V)>) -> (r: Vec<(String, V)>)
    ensures
        sorted_keys(r@),
        unique_keys(r@),
        sorted_keys(entries@) ==> r@ == entries@,
        forall|k: Seq<char>| table_keys(r@).contains(k) <==> table_keys(entries@).contains(k),
{
    let ghost all = entries@;
    let mut rest = entries;
    let mut out: Vec<(String, V)> = Vec::new();
    let ghost mut n: int = 0;
    while rest.len() > 0
        invariant
            0 <= n <= all.len(),
            rest@ == all.skip(n),
            sorted_keys(out@),
            sorted_keys(all) ==> out@ == all.take(n),
            forall|k: Seq<char>| table_keys(out@).contains(k) <==> table_keys(all.take(n)).contains(k),
        decreases rest.len(),
    {
        let ghost before = out@;
        let ghost done = all.take(n);
        let e = rest.remove(0);
        let ghost k = e.0@;
        assert(e == all[n]);
        assert(all.take(n + 1) =~= done.push(e));
        assert(table_keys(done.push(e)) =~= table_keys(done).push(k));
        let p = key_position(&out, e.0.as_str());
        proof {
            if sorted_keys(all) {
                assert forall|i: int| 0 <= i < before.len() implies text_less(before[i].0@, k) by {
                    assert(before[i] == all[i]);
                }
                if p < before.len() {
                    assert(text_less(before[p as int].0@, k));
                }
            }
        }
        if p < out.len() && crate::text::same(out[p].0.as_str(), e.0.as_str()) {
            proof {
                lemma_text_less_irreflexive(k);
            }
            out.set(p, e);
            assert(table_keys(out@) =~= table_keys(before));
            assert forall|i: int, j: int| 0 <= i < j < out@.len() implies text_less(
                #[trigger] out@[i].0@,
                #[trigger] out@[j].0@,
            ) by {
                assert(out@[i].0@ == before[i].0@);
                assert(out@[j].0@ == before[j].0@);
            }
            assert forall|x: Seq<char>| table_keys(out@).contains(x) <==> table_keys(
                all.take(n + 1),
            ).contains(x) by {
                if table_keys(all.take(n + 1)).contains(x) {
                    let j = choose|j: int|
                        0 <= j < table_keys(all.take(n + 1)).len() && #[trigger] table_keys(
                            all.take(n + 1),
                        )[j] == x;
                    if j < n {
                        assert(table_keys(done)[j] == x);
                        assert(table_keys(done).contains(x));
                        assert(table_keys(before).contains(x));
                    } else {
                        assert(table_keys(before)[p as int] == x);
                    }
                }
                if table_keys(out@).contains(x) {
                    assert(table_keys(before).contains(x));
                    assert(table_keys(done).contains(x));
                    let j = choose|j: int| 0 <= j < table_keys(done).len() && #[trigger] table_keys(done)[j] == x;
                    assert(table_keys(all.take(n + 1))[j] == x);
                }
            }
        } else {
            proof {
                if p < before.len() {
                    lemma_text_less_total(k, before[p as int].0@);
                    assert(text_less(k, before[p as int].0@));
                }
                assert forall|j: int| p <= j < before.len() implies text_less(k, #[trigger] before[j].0@) by {
                    if j > p {
                        lemma_text_less_transitive(k, before[p as int].0@, before[j].0@);
                    }
                }
            }
            out.insert(p, e);
            assert(out@ =~= before.insert(p as int, e));
            assert forall|i: int, j: int| 0 <= i < j < out@.len() implies text_less(
                #[trigger] out@[i].0@,
                #[trigger] out@[j].0@,
            ) by {
                if j < p {
                    assert(out@[i] == before[i] && out@[j] == before[j]);
                } else if j == p {
                    assert(out@[i] == before[i]);
                } else if i < p {
                    assert(out@[i] == before[i] && out@[j] == before[j - 1]);
                    assert(text_less(before[i].0@, k));
                    lemma_text_less_transitive(before[i].0@, k, before[j - 1].0@);
                } else if i == p {
                    assert(out@[j] == before[j - 1]);
                } else {
                    assert(out@[i] == before[i - 1] && out@[j] == before[j - 1]);
                }
            }
            assert(table_keys(out@) =~= table_keys(before).insert(p as int, k));
            assert forall|x: Seq<char>| table_keys(out@).contains(x) <==> table_keys(
                all.take(n + 1),
            ).contains(x) by {
                if table_keys(all.take(n + 1)).contains(x) {
                    let j = choose|j: int|
                        0 <= j < table_keys(all.take(n + 1)).len() && #[trigger] table_keys(
                            all.take(n + 1),
                        )[j] == x;
                    if j < n {
                        assert(table_keys(done)[j] == x);
                        assert(table_keys(done).contains(x));
                        assert(table_keys(before).contains(x));
                        let m = choose|m: int| 0 <= m < table_keys(before).len() && #[trigger] table_keys(before)[m] == x;
                        if m < p {
                            assert(table_keys(out@)[m] == x);
                        } else {
                            assert(table_keys(out@)[m + 1] == x);
                        }
                    } else {
                        assert(table_keys(out@)[p as int] == x);
                    }
                }
                if table_keys(out@).contains(x) {
                    let m = choose|m: int| 0 <= m < table_keys(out@).len() && #[trigger] table_keys(out@)[m] == x;
                    if m == p {
                        assert(table_keys(all.take(n + 1))[n] == x);
                    } else {
                        if m < p {
                            assert(table_keys(before)[m] == x);
                        } else {
                            assert(table_keys(before)[m - 1] == x);
                        }
                        assert(table_keys(before).contains(x));
                        assert(table_keys(done).contains(x));
                        let j = choose|j: int| 0 <= j < table_keys(done).len() && #[trigger] table_keys(done)[j] == x;
                        assert(table_keys(all.take(n + 1))[j] == x);
                    }
                }
            }
            proof {
                if sorted_keys(all) {
                    assert(p == before.len());
                    assert(out@ =~= all.take(n + 1));
                }
            }
        }
        proof {
            n = n + 1;
        }
    }
    assert(all.take(n) =~= all);
    proof {
        lemma_sorted_unique(out@);
    }
    out
}
} // verus!
