//! Sequence-level semantics of a table: removal by primary id, insertion
//! keeping a date-descending order, and in-place upsert by key.
//!
//! Every table of the store is modelled as a sequence of ghost records; the
//! spec functions here say what each storage operation does to it, and the
//! lemmas connect those recursive definitions to the index-based shapes the
//! executable code produces.

use vstd::prelude::*;
use crate::order::{lex_le, lemma_lex_le_total, lemma_lex_le_trans};

verus! {

/// All rows whose id differs from `id`, in their original order.
pub open spec fn remove_by_id<T>(s: Seq<T>, idf: spec_fn(T) -> Seq<char>, id: Seq<char>) -> Seq<T>
    decreases s.len(),
{
    if s.len() == 0 {
        s
    } else if idf(s[0]) == id {
        remove_by_id(s.drop_first(), idf, id)
    } else {
        seq![s[0]] + remove_by_id(s.drop_first(), idf, id)
    }
}

/// `t` inserted after every row whose key is at or above `t`'s key,
/// in a sequence kept in descending key order.
pub open spec fn insert_sorted_desc<T>(s: Seq<T>, keyf: spec_fn(T) -> Seq<char>, t: T) -> Seq<T>
    decreases s.len(),
{
    if s.len() == 0 {
        seq![t]
    } else if lex_le(keyf(t), keyf(s[0])) {
        seq![s[0]] + insert_sorted_desc(s.drop_first(), keyf, t)
    } else {
        seq![t] + s
    }
}

/// The whole effect of a save on a date-ordered table: the old row with
/// `t`'s id (if any) leaves, and `t` takes its place in key order.
pub open spec fn upsert_sorted<T>(
    s: Seq<T>,
    idf: spec_fn(T) -> Seq<char>,
    keyf: spec_fn(T) -> Seq<char>,
    t: T,
) -> Seq<T> {
    insert_sorted_desc(remove_by_id(s, idf, idf(t)), keyf, t)
}

/// The effect of a save on an unordered keyed table: the first row with
/// `t`'s key is replaced in place, or `t` is appended.
pub open spec fn upsert_by_key<T>(s: Seq<T>, idf: spec_fn(T) -> Seq<char>, t: T) -> Seq<T>
    decreases s.len(),
{
    if s.len() == 0 {
        seq![t]
    } else if idf(s[0]) == idf(t) {
        seq![t] + s.drop_first()
    } else {
        seq![s[0]] + upsert_by_key(s.drop_first(), idf, t)
    }
}

/// The first row carrying `id`, if any.
pub open spec fn find_by_id<T>(s: Seq<T>, idf: spec_fn(T) -> Seq<char>, id: Seq<char>) -> Option<T>
    decreases s.len(),
{
    if s.len() == 0 {
        Option::None
    } else if idf(s[0]) == id {
        Option::Some(s[0])
    } else {
        find_by_id(s.drop_first(), idf, id)
    }
}

/// Keys never grow along the sequence.
pub open spec fn sorted_desc<T>(s: Seq<T>, keyf: spec_fn(T) -> Seq<char>) -> bool {
    forall|i: int, j: int| 0 <= i < j < s.len() ==> lex_le(keyf(s[j]), keyf(s[i]))
}

/// No two rows share an id.
pub open spec fn unique_ids<T>(s: Seq<T>, idf: spec_fn(T) -> Seq<char>) -> bool {
    forall|i: int, j: int| 0 <= i < j < s.len() ==> idf(s[i]) != idf(s[j])
}

/// Removing an absent id changes nothing.
pub proof fn lemma_remove_by_id_absent<T>(s: Seq<T>, idf: spec_fn(T) -> Seq<char>, id: Seq<char>)
    requires
        forall|i: int| 0 <= i < s.len() ==> idf(s[i]) != id,
    ensures
        remove_by_id(s, idf, id) == s,
    decreases s.len(),
{
    if s.len() == 0 {
        assert(remove_by_id(s, idf, id) =~= s);
    } else {
        lemma_remove_by_id_absent(s.drop_first(), idf, id);
        assert(remove_by_id(s, idf, id) =~= s);
    }
}

/// When exactly one row carries `id`, removal drops just that row.
pub proof fn lemma_remove_by_id_at<T>(
    s: Seq<T>,
    idf: spec_fn(T) -> Seq<char>,
    id: Seq<char>,
    i: int,
)
    requires
        0 <= i < s.len(),
        idf(s[i]) == id,
        forall|j: int| 0 <= j < s.len() && j != i ==> idf(s[j]) != id,
    ensures
        remove_by_id(s, idf, id) == s.remove(i),
    decreases s.len(),
{
    if i == 0 {
        lemma_remove_by_id_absent(s.drop_first(), idf, id);
        assert(remove_by_id(s, idf, id) =~= s.remove(0));
    } else {
        lemma_remove_by_id_at(s.drop_first(), idf, id, i - 1);
        assert(remove_by_id(s, idf, id) =~= s.remove(i));
    }
}

/// No row of the result carries `id`, and every row comes from `s`.
pub proof fn lemma_remove_by_id_elements<T>(s: Seq<T>, idf: spec_fn(T) -> Seq<char>, id: Seq<char>)
    ensures
        forall|k: int|
            0 <= k < remove_by_id(s, idf, id).len() ==> idf(
                #[trigger] remove_by_id(s, idf, id)[k],
            ) != id && s.contains(remove_by_id(s, idf, id)[k]),
        remove_by_id(s, idf, id).len() <= s.len(),
    decreases s.len(),
{
    if s.len() == 0 {
    } else {
        lemma_remove_by_id_elements(s.drop_first(), idf, id);
        assert forall|k: int| 0 <= k < remove_by_id(s, idf, id).len() implies idf(
            #[trigger] remove_by_id(s, idf, id)[k],
        ) != id && s.contains(remove_by_id(s, idf, id)[k]) by {
            let r = remove_by_id(s, idf, id);
            let rt = remove_by_id(s.drop_first(), idf, id);
            if idf(s[0]) == id {
                assert(s.drop_first().contains(rt[k]));
                let w = choose|w: int| 0 <= w < s.drop_first().len() && s.drop_first()[w] == rt[k];
                assert(s[w + 1] == rt[k]);
            } else {
                if k == 0 {
                    assert(s[0] == r[0]);
                } else {
                    assert(r[k] == rt[k - 1]);
                    assert(s.drop_first().contains(rt[k - 1]));
                    let w = choose|w: int|
                        0 <= w < s.drop_first().len() && s.drop_first()[w] == rt[k - 1];
                    assert(s[w + 1] == rt[k - 1]);
                }
            }
        }
    }
}

/// Inserting at the scan's stopping point matches the recursive definition,
/// and keeps the sequence ordered.
pub proof fn lemma_insert_sorted_at<T>(
    s: Seq<T>,
    keyf: spec_fn(T) -> Seq<char>,
    t: T,
    i: int,
)
    requires
        0 <= i <= s.len(),
        forall|j: int| 0 <= j < i ==> lex_le(keyf(t), keyf(#[trigger] s[j])),
        i < s.len() ==> !lex_le(keyf(t), keyf(s[i])),
    ensures
        insert_sorted_desc(s, keyf, t) == s.insert(i, t),
        sorted_desc(s, keyf) ==> sorted_desc(s.insert(i, t), keyf),
    decreases s.len(),
{
    if s.len() == 0 {
        assert(insert_sorted_desc(s, keyf, t) =~= s.insert(0, t));
    } else if i == 0 {
        assert(insert_sorted_desc(s, keyf, t) =~= s.insert(0, t));
    } else {
        lemma_insert_sorted_at(s.drop_first(), keyf, t, i - 1);
        assert(insert_sorted_desc(s, keyf, t) =~= s.insert(i, t));
    }
    if sorted_desc(s, keyf) {
        let r = s.insert(i, t);
        assert forall|a: int, b: int| 0 <= a < b < r.len() implies lex_le(
            keyf(r[b]),
            keyf(r[a]),
        ) by {
            if a < i && b < i {
                assert(r[a] == s[a] && r[b] == s[b]);
            } else if a < i && b == i {
                assert(r[a] == s[a]);
            } else if a < i && b > i {
                assert(r[a] == s[a] && r[b] == s[b - 1]);
            } else if a == i {
                assert(r[b] == s[b - 1]);
                lemma_lex_le_total(keyf(t), keyf(s[i]));
                if b - 1 > i {
                    lemma_lex_le_trans(keyf(s[b - 1]), keyf(s[i]), keyf(t));
                }
            } else {
                assert(r[a] == s[a - 1] && r[b] == s[b - 1]);
            }
        }
    }
}

/// The inserted sequence holds `t` and otherwise only rows of `s`.
pub proof fn lemma_insert_sorted_elements<T>(s: Seq<T>, keyf: spec_fn(T) -> Seq<char>, t: T)
    ensures
        insert_sorted_desc(s, keyf, t).len() == s.len() + 1,
        insert_sorted_desc(s, keyf, t).contains(t),
        forall|k: int|
            0 <= k < insert_sorted_desc(s, keyf, t).len() ==> #[trigger] insert_sorted_desc(
                s,
                keyf,
                t,
            )[k] == t || s.contains(insert_sorted_desc(s, keyf, t)[k]),
    decreases s.len(),
{
    if s.len() == 0 {
        assert(insert_sorted_desc(s, keyf, t)[0] == t);
        assert(insert_sorted_desc(s, keyf, t).contains(t));
    } else if lex_le(keyf(t), keyf(s[0])) {
        lemma_insert_sorted_elements(s.drop_first(), keyf, t);
        let r = insert_sorted_desc(s, keyf, t);
        let rt = insert_sorted_desc(s.drop_first(), keyf, t);
        assert(rt.contains(t));
        let w = choose|w: int| 0 <= w < rt.len() && rt[w] == t;
        assert(r[w + 1] == t);
        assert(r.contains(t));
        assert forall|k: int| 0 <= k < r.len() implies #[trigger] r[k] == t || s.contains(
            r[k],
        ) by {
            if k == 0 {
                assert(s[0] == r[0]);
            } else {
                assert(r[k] == rt[k - 1]);
                if rt[k - 1] != t {
                    assert(s.drop_first().contains(rt[k - 1]));
                    let v = choose|v: int|
                        0 <= v < s.drop_first().len() && s.drop_first()[v] == rt[k - 1];
                    assert(s[v + 1] == rt[k - 1]);
                }
            }
        }
    } else {
        let r = insert_sorted_desc(s, keyf, t);
        assert(r[0] == t);
        assert(r.contains(t));
        assert forall|k: int| 0 <= k < r.len() implies #[trigger] r[k] == t || s.contains(
            r[k],
        ) by {
            if k > 0 {
                assert(r[k] == s[k - 1]);
            }
        }
    }
}

/// Replacing the one row that carries the key matches the recursive
/// definition.
pub proof fn lemma_upsert_by_key_at<T>(s: Seq<T>, idf: spec_fn(T) -> Seq<char>, t: T, i: int)
    requires
        0 <= i < s.len(),
        idf(s[i]) == idf(t),
        forall|j: int| 0 <= j < i ==> idf(#[trigger] s[j]) != idf(t),
    ensures
        upsert_by_key(s, idf, t) == s.update(i, t),
    decreases s.len(),
{
    if i == 0 {
        assert(upsert_by_key(s, idf, t) =~= s.update(0, t));
    } else {
        lemma_upsert_by_key_at(s.drop_first(), idf, t, i - 1);
        assert(upsert_by_key(s, idf, t) =~= s.update(i, t));
    }
}

/// Appending a fresh key matches the recursive definition.
pub proof fn lemma_upsert_by_key_absent<T>(s: Seq<T>, idf: spec_fn(T) -> Seq<char>, t: T)
    requires
        forall|j: int| 0 <= j < s.len() ==> idf(#[trigger] s[j]) != idf(t),
    ensures
        upsert_by_key(s, idf, t) == s.push(t),
    decreases s.len(),
{
    if s.len() == 0 {
        assert(upsert_by_key(s, idf, t) =~= s.push(t));
    } else {
        lemma_upsert_by_key_absent(s.drop_first(), idf, t);
        assert(upsert_by_key(s, idf, t) =~= s.push(t));
    }
}

/// Dropping one row keeps the order, keeps ids unique, and leaves no row
/// with the dropped row's id.
pub proof fn lemma_remove_index_keeps_wf<T>(
    s: Seq<T>,
    idf: spec_fn(T) -> Seq<char>,
    keyf: spec_fn(T) -> Seq<char>,
    i: int,
)
    requires
        0 <= i < s.len(),
        sorted_desc(s, keyf),
        unique_ids(s, idf),
    ensures
        sorted_desc(s.remove(i), keyf),
        unique_ids(s.remove(i), idf),
        forall|k: int| 0 <= k < s.remove(i).len() ==> idf(#[trigger] s.remove(i)[k]) != idf(s[i]),
{
    let r = s.remove(i);
    assert forall|a: int, b: int| 0 <= a < b < r.len() implies lex_le(keyf(r[b]), keyf(r[a]))
        && idf(r[a]) != idf(r[b]) by {
        let a0: int = if a < i { a } else { a + 1 };
        let b0: int = if b < i { b } else { b + 1 };
        assert(r[a] == s[a0] && r[b] == s[b0]);
    }
    assert forall|k: int| 0 <= k < r.len() implies idf(#[trigger] r[k]) != idf(s[i]) by {
        let k0: int = if k < i { k } else { k + 1 };
        assert(r[k] == s[k0]);
    }
}

/// Inserting a row with a fresh id keeps ids unique.
pub proof fn lemma_insert_index_keeps_unique<T>(
    s: Seq<T>,
    idf: spec_fn(T) -> Seq<char>,
    t: T,
    i: int,
)
    requires
        0 <= i <= s.len(),
        unique_ids(s, idf),
        forall|k: int| 0 <= k < s.len() ==> idf(#[trigger] s[k]) != idf(t),
    ensures
        unique_ids(s.insert(i, t), idf),
{
    let r = s.insert(i, t);
    assert forall|a: int, b: int| 0 <= a < b < r.len() implies idf(r[a]) != idf(r[b]) by {
        if a < i {
            assert(r[a] == s[a]);
        } else if a > i {
            assert(r[a] == s[a - 1]);
        }
        if b < i {
            assert(r[b] == s[b]);
        } else if b > i {
            assert(r[b] == s[b - 1]);
        }
    }
}

/// A scan that stopped at the first hit computed `find_by_id`.
pub proof fn lemma_find_by_id_at<T>(s: Seq<T>, idf: spec_fn(T) -> Seq<char>, id: Seq<char>, i: int)
    requires
        0 <= i < s.len(),
        idf(s[i]) == id,
        forall|j: int| 0 <= j < i ==> idf(#[trigger] s[j]) != id,
    ensures
        find_by_id(s, idf, id) == Option::Some(s[i]),
    decreases s.len(),
{
    if i > 0 {
        lemma_find_by_id_at(s.drop_first(), idf, id, i - 1);
    }
}

/// A scan that found nothing computed `find_by_id`.
pub proof fn lemma_find_by_id_absent<T>(s: Seq<T>, idf: spec_fn(T) -> Seq<char>, id: Seq<char>)
    requires
        forall|j: int| 0 <= j < s.len() ==> idf(#[trigger] s[j]) != id,
    ensures
        find_by_id(s, idf, id) is None,
    decreases s.len(),
{
    if s.len() > 0 {
        lemma_find_by_id_absent(s.drop_first(), idf, id);
    }
}

} // verus!
