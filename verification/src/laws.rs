//! Laws of the storage operations, stated over the same spec functions the
//! operations' contracts use, and proved once and for all.

use vstd::prelude::*;
use crate::order::lex_le;
use crate::records::{PlannedEntryModel, SettingModel, TradeModel, ZoneModel};
use crate::store::{entry_created, entry_id, setting_key, trade_date, trade_id, zone_date, zone_id};
use crate::table::{
    find_by_id, insert_sorted_desc, lemma_insert_sorted_at, lemma_insert_sorted_elements,
    lemma_remove_by_id_absent, lemma_remove_by_id_elements, lemma_upsert_by_key_absent,
    remove_by_id, sorted_desc, unique_ids, upsert_by_key, upsert_sorted,
};
use crate::emit::{bool_lit, dec, digit_char, esc, esc_char, qstr};
use crate::json::{
    is_digit, digit_val, kw_false, kw_null, kw_true, parse_member, parse_num, parse_num_rec,
    parse_scalar, parse_str_body, MemberModel, ScalarModel,
};
use crate::transfer::{saved_entries, saved_settings, saved_trades, saved_zones};

verus! {

/// A dropped first row keeps ids pairwise distinct.
proof fn lemma_drop_first_unique<T>(s: Seq<T>, idf: spec_fn(T) -> Seq<char>)
    requires
        s.len() > 0,
        unique_ids(s, idf),
    ensures
        unique_ids(s.drop_first(), idf),
{
    assert forall|i: int, j: int|
        0 <= i < j < s.drop_first().len() implies idf(s.drop_first()[i]) != idf(
        s.drop_first()[j],
    ) by {
        assert(s.drop_first()[i] == s[i + 1] && s.drop_first()[j] == s[j + 1]);
    }
}

/// Removing rows by id keeps the remaining ids pairwise distinct.
pub proof fn lemma_remove_by_id_keeps_unique<T>(
    s: Seq<T>,
    idf: spec_fn(T) -> Seq<char>,
    id: Seq<char>,
)
    requires
        unique_ids(s, idf),
    ensures
        unique_ids(remove_by_id(s, idf, id), idf),
    decreases s.len(),
{
    if s.len() == 0 {
    } else {
        lemma_drop_first_unique(s, idf);
        lemma_remove_by_id_keeps_unique(s.drop_first(), idf, id);
        if idf(s[0]) == id {
        } else {
            let r = remove_by_id(s, idf, id);
            let rt = remove_by_id(s.drop_first(), idf, id);
            lemma_remove_by_id_elements(s.drop_first(), idf, id);
            assert forall|a: int, b: int| 0 <= a < b < r.len() implies idf(r[a]) != idf(
                r[b],
            ) by {
                if a == 0 {
                    assert(r[b] == rt[b - 1]);
                    assert(s.drop_first().contains(rt[b - 1]));
                    let w = choose|w: int|
                        0 <= w < s.drop_first().len() && s.drop_first()[w] == rt[b - 1];
                    assert(s[w + 1] == rt[b - 1]);
                } else {
                    assert(r[a] == rt[a - 1] && r[b] == rt[b - 1]);
                }
            }
        }
    }
}

/// Inserting a row whose id is fresh keeps ids pairwise distinct.
pub proof fn lemma_insert_sorted_keeps_unique<T>(
    s: Seq<T>,
    idf: spec_fn(T) -> Seq<char>,
    keyf: spec_fn(T) -> Seq<char>,
    t: T,
)
    requires
        unique_ids(s, idf),
        forall|k: int| 0 <= k < s.len() ==> idf(#[trigger] s[k]) != idf(t),
    ensures
        unique_ids(insert_sorted_desc(s, keyf, t), idf),
    decreases s.len(),
{
    let r = insert_sorted_desc(s, keyf, t);
    if s.len() == 0 {
    } else if crate::order::lex_le(keyf(t), keyf(s[0])) {
        lemma_drop_first_unique(s, idf);
        lemma_insert_sorted_keeps_unique(s.drop_first(), idf, keyf, t);
        let rt = insert_sorted_desc(s.drop_first(), keyf, t);
        lemma_insert_sorted_elements(s.drop_first(), keyf, t);
        assert forall|a: int, b: int| 0 <= a < b < r.len() implies idf(r[a]) != idf(r[b]) by {
            if a == 0 {
                assert(r[b] == rt[b - 1]);
                if rt[b - 1] == t {
                } else {
                    assert(s.drop_first().contains(rt[b - 1]));
                    let w = choose|w: int|
                        0 <= w < s.drop_first().len() && s.drop_first()[w] == rt[b - 1];
                    assert(s[w + 1] == rt[b - 1]);
                }
            } else {
                assert(r[a] == rt[a - 1] && r[b] == rt[b - 1]);
            }
        }
    } else {
        assert forall|a: int, b: int| 0 <= a < b < r.len() implies idf(r[a]) != idf(r[b]) by {
            if a == 0 {
                assert(r[b] == s[b - 1]);
            } else {
                assert(r[a] == s[a - 1] && r[b] == s[b - 1]);
            }
        }
    }
}

/// A save puts the saved row in the table: the upserted sequence contains
/// it, whatever was there before. With the listing contracts, a save
/// followed by a read-all always shows the record just saved.
pub proof fn law_save_then_get_all_contains<T>(
    s: Seq<T>,
    idf: spec_fn(T) -> Seq<char>,
    keyf: spec_fn(T) -> Seq<char>,
    t: T,
)
    ensures
        upsert_sorted(s, idf, keyf, t).contains(t),
{
    lemma_insert_sorted_elements(remove_by_id(s, idf, idf(t)), keyf, t);
}

/// Saving over an existing id replaces the prior row: afterwards the table
/// holds the new row, every row carrying that id is the new row, and ids
/// stay pairwise distinct — so exactly one row for that id remains, and it
/// reflects only the new values.
pub proof fn law_save_replaces_row<T>(
    s: Seq<T>,
    idf: spec_fn(T) -> Seq<char>,
    keyf: spec_fn(T) -> Seq<char>,
    t: T,
)
    requires
        unique_ids(s, idf),
    ensures
        upsert_sorted(s, idf, keyf, t).contains(t),
        forall|k: int|
            0 <= k < upsert_sorted(s, idf, keyf, t).len() && idf(
                #[trigger] upsert_sorted(s, idf, keyf, t)[k],
            ) == idf(t) ==> upsert_sorted(s, idf, keyf, t)[k] == t,
        unique_ids(upsert_sorted(s, idf, keyf, t), idf),
{
    let m1 = remove_by_id(s, idf, idf(t));
    lemma_remove_by_id_elements(s, idf, idf(t));
    lemma_remove_by_id_keeps_unique(s, idf, idf(t));
    lemma_insert_sorted_elements(m1, keyf, t);
    lemma_insert_sorted_keeps_unique(m1, idf, keyf, t);
}

/// Deleting an id that no row carries leaves the table unchanged, row for
/// row and in count; with the delete contract, such a delete still
/// returns success.
pub proof fn law_delete_missing_id_is_noop(s: Seq<TradeModel>, id: Seq<char>)
    requires
        forall|i: int| 0 <= i < s.len() ==> (#[trigger] s[i]).id != id,
    ensures
        remove_by_id(s, trade_id(), id) == s,
        remove_by_id(s, trade_id(), id).len() == s.len(),
{
    crate::table::lemma_remove_by_id_absent(s, trade_id(), id);
}

/// The value a key reads back after an upsert is the row just written.
pub proof fn lemma_upsert_by_key_then_find<T>(s: Seq<T>, idf: spec_fn(T) -> Seq<char>, t: T)
    ensures
        find_by_id(upsert_by_key(s, idf, t), idf, idf(t)) == Option::Some(t),
    decreases s.len(),
{
    if s.len() == 0 {
    } else if idf(s[0]) == idf(t) {
    } else {
        lemma_upsert_by_key_then_find(s.drop_first(), idf, t);
        let r = upsert_by_key(s, idf, t);
        assert(r.drop_first() =~= upsert_by_key(s.drop_first(), idf, t));
    }
}

/// An upsert by key keeps keys pairwise distinct.
pub proof fn lemma_upsert_by_key_keeps_unique<T>(s: Seq<T>, idf: spec_fn(T) -> Seq<char>, t: T)
    requires
        unique_ids(s, idf),
    ensures
        unique_ids(upsert_by_key(s, idf, t), idf),
    decreases s.len(),
{
    let r = upsert_by_key(s, idf, t);
    if s.len() == 0 {
    } else if idf(s[0]) == idf(t) {
        assert forall|a: int, b: int| 0 <= a < b < r.len() implies idf(r[a]) != idf(r[b]) by {
            if a == 0 {
                assert(r[b] == s[b]);
            } else {
                assert(r[a] == s[a] && r[b] == s[b]);
            }
        }
    } else {
        lemma_drop_first_unique(s, idf);
        lemma_upsert_by_key_keeps_unique(s.drop_first(), idf, t);
        let rt = upsert_by_key(s.drop_first(), idf, t);
        lemma_upsert_by_key_elements(s.drop_first(), idf, t);
        assert forall|a: int, b: int| 0 <= a < b < r.len() implies idf(r[a]) != idf(r[b]) by {
            if a == 0 {
                assert(r[b] == rt[b - 1]);
                if rt[b - 1] == t {
                } else {
                    assert(s.drop_first().contains(rt[b - 1]));
                    let w = choose|w: int|
                        0 <= w < s.drop_first().len() && s.drop_first()[w] == rt[b - 1];
                    assert(s[w + 1] == rt[b - 1]);
                }
            } else {
                assert(r[a] == rt[a - 1] && r[b] == rt[b - 1]);
            }
        }
    }
}

/// Every row of an upserted sequence is the new row or one of the old
/// rows, and the new row is present.
pub proof fn lemma_upsert_by_key_elements<T>(s: Seq<T>, idf: spec_fn(T) -> Seq<char>, t: T)
    ensures
        upsert_by_key(s, idf, t).contains(t),
        forall|k: int|
            0 <= k < upsert_by_key(s, idf, t).len() ==> #[trigger] upsert_by_key(s, idf, t)[k]
                == t || s.contains(upsert_by_key(s, idf, t)[k]),
    decreases s.len(),
{
    let r = upsert_by_key(s, idf, t);
    if s.len() == 0 {
        assert(r[0] == t);
        assert(r.contains(t));
    } else if idf(s[0]) == idf(t) {
        assert(r[0] == t);
        assert(r.contains(t));
        assert forall|k: int| 0 <= k < r.len() implies #[trigger] r[k] == t || s.contains(
            r[k],
        ) by {
            if k > 0 {
                assert(r[k] == s[k]);
            }
        }
    } else {
        lemma_upsert_by_key_elements(s.drop_first(), idf, t);
        let rt = upsert_by_key(s.drop_first(), idf, t);
        assert(rt.contains(t));
        let w = choose|w: int| 0 <= w < rt.len() && rt[w] == t;
        assert(r[w + 1] == t);
        assert(r.contains(t));
        assert forall|k: int| 0 <= k < r.len() implies #[trigger] r[k] == t || s.contains(
            r[k],
        ) by {
            if k == 0 {
                assert(r[0] == s[0]);
            } else {
                assert(r[k] == rt[k - 1]);
                if rt[k - 1] != t {
                    assert(s.drop_first().contains(rt[k - 1]));
                    let w2 = choose|w2: int|
                        0 <= w2 < s.drop_first().len() && s.drop_first()[w2] == rt[k - 1];
                    assert(s[w2 + 1] == rt[k - 1]);
                }
            }
        }
    }
}

/// Writing a key twice leaves exactly one row for it, carrying the second
/// value: the lookup finds the second row, every row with that key is the
/// second row, and keys stay pairwise distinct.
pub proof fn law_setting_overwrite(s: Seq<SettingModel>, m1: SettingModel, m2: SettingModel)
    requires
        unique_ids(s, setting_key()),
        m1.key == m2.key,
    ensures
        find_by_id(
            upsert_by_key(upsert_by_key(s, setting_key(), m1), setting_key(), m2),
            setting_key(),
            m2.key,
        ) == Option::Some(m2),
        forall|k: int|
            0 <= k < upsert_by_key(upsert_by_key(s, setting_key(), m1), setting_key(), m2).len()
                && (#[trigger] upsert_by_key(
                upsert_by_key(s, setting_key(), m1),
                setting_key(),
                m2,
            )[k]).key == m2.key ==> upsert_by_key(
                upsert_by_key(s, setting_key(), m1),
                setting_key(),
                m2,
            )[k] == m2,
        unique_ids(
            upsert_by_key(upsert_by_key(s, setting_key(), m1), setting_key(), m2),
            setting_key(),
        ),
{
    let r1 = upsert_by_key(s, setting_key(), m1);
    let r2 = upsert_by_key(r1, setting_key(), m2);
    lemma_upsert_by_key_keeps_unique(s, setting_key(), m1);
    lemma_upsert_by_key_keeps_unique(r1, setting_key(), m2);
    lemma_upsert_by_key_then_find(r1, setting_key(), m2);
    lemma_upsert_by_key_elements(r1, setting_key(), m2);
    lemma_upsert_by_key_elements(s, setting_key(), m1);
    assert forall|k: int| 0 <= k < r2.len() && (#[trigger] r2[k]).key == m2.key implies r2[k]
        == m2 by {
        if r2[k] != m2 {
            assert(r1.contains(r2[k]));
            let w = choose|w: int| 0 <= w < r1.len() && r1[w] == r2[k];
            assert(r2.contains(m2));
            let v = choose|v: int| 0 <= v < r2.len() && r2[v] == m2;
            assert(v != k);
            assert(setting_key()(r2[v]) == setting_key()(r2[k]));
        }
    }
}

/// Upserting a row that sorts at or below every present row, under a
/// fresh id, is exactly an append.
proof fn lemma_upsert_sorted_append<T>(
    s: Seq<T>,
    idf: spec_fn(T) -> Seq<char>,
    keyf: spec_fn(T) -> Seq<char>,
    t: T,
)
    requires
        forall|k: int| 0 <= k < s.len() ==> idf(#[trigger] s[k]) != idf(t),
        forall|k: int| 0 <= k < s.len() ==> lex_le(keyf(t), keyf(#[trigger] s[k])),
    ensures
        upsert_sorted(s, idf, keyf, t) == s.push(t),
{
    lemma_remove_by_id_absent(s, idf, idf(t));
    lemma_insert_sorted_at(s, keyf, t, s.len() as int);
    assert(s.insert(s.len() as int, t) =~= s.push(t));
}

proof fn lemma_drop_last_table<T>(
    s: Seq<T>,
    idf: spec_fn(T) -> Seq<char>,
    keyf: spec_fn(T) -> Seq<char>,
)
    requires
        s.len() > 0,
        unique_ids(s, idf),
        sorted_desc(s, keyf),
    ensures
        unique_ids(s.drop_last(), idf),
        sorted_desc(s.drop_last(), keyf),
        forall|k: int|
            0 <= k < s.drop_last().len() ==> idf(#[trigger] s.drop_last()[k]) != idf(s.last()),
        forall|k: int|
            0 <= k < s.drop_last().len() ==> lex_le(keyf(s.last()), keyf(#[trigger] s.drop_last()[k])),
{
    assert forall|k: int| 0 <= k < s.drop_last().len() implies idf(#[trigger] s.drop_last()[k])
        != idf(s.last()) && lex_le(keyf(s.last()), keyf(s.drop_last()[k])) by {
        assert(s.drop_last()[k] == s[k]);
        assert(s.last() == s[s.len() - 1]);
    }
}

/// Replaying a trades listing into an empty store rebuilds it row for row:
/// the listing is in descending date order with unique ids, and saving its
/// rows in that order appends each one.
pub proof fn law_replay_trades_identity(ts: Seq<TradeModel>)
    requires
        unique_ids(ts, trade_id()),
        sorted_desc(ts, trade_date()),
    ensures
        saved_trades(ts) == ts,
    decreases ts.len(),
{
    if ts.len() == 0 {
        assert(saved_trades(ts) =~= ts);
    } else {
        lemma_drop_last_table(ts, trade_id(), trade_date());
        law_replay_trades_identity(ts.drop_last());
        lemma_upsert_sorted_append(ts.drop_last(), trade_id(), trade_date(), ts.last());
        assert(ts.drop_last().push(ts.last()) =~= ts);
    }
}

/// Replaying a zones listing into an empty store rebuilds it row for row.
pub proof fn law_replay_zones_identity(zs: Seq<ZoneModel>)
    requires
        unique_ids(zs, zone_id()),
        sorted_desc(zs, zone_date()),
    ensures
        saved_zones(zs) == zs,
    decreases zs.len(),
{
    if zs.len() == 0 {
        assert(saved_zones(zs) =~= zs);
    } else {
        lemma_drop_last_table(zs, zone_id(), zone_date());
        law_replay_zones_identity(zs.drop_last());
        lemma_upsert_sorted_append(zs.drop_last(), zone_id(), zone_date(), zs.last());
        assert(zs.drop_last().push(zs.last()) =~= zs);
    }
}

/// Replaying a planned-entries listing into an empty store rebuilds it row
/// for row.
pub proof fn law_replay_planned_entries_identity(es: Seq<PlannedEntryModel>)
    requires
        unique_ids(es, entry_id()),
        sorted_desc(es, entry_created()),
    ensures
        saved_entries(es) == es,
    decreases es.len(),
{
    if es.len() == 0 {
        assert(saved_entries(es) =~= es);
    } else {
        lemma_drop_last_table(es, entry_id(), entry_created());
        law_replay_planned_entries_identity(es.drop_last());
        lemma_upsert_sorted_append(es.drop_last(), entry_id(), entry_created(), es.last());
        assert(es.drop_last().push(es.last()) =~= es);
    }
}

/// Replaying a settings listing with pairwise-distinct keys rebuilds it
/// row for row.
pub proof fn law_replay_settings_identity(ss: Seq<SettingModel>)
    requires
        unique_ids(ss, setting_key()),
    ensures
        saved_settings(ss) == ss,
    decreases ss.len(),
{
    if ss.len() == 0 {
        assert(saved_settings(ss) =~= ss);
    } else {
        assert forall|k: int| 0 <= k < ss.drop_last().len() implies setting_key()(
            #[trigger] ss.drop_last()[k],
        ) != setting_key()(ss.last()) by {
            assert(ss.drop_last()[k] == ss[k]);
            assert(ss.last() == ss[ss.len() - 1]);
        }
        assert forall|a: int, b: int| 0 <= a < b < ss.drop_last().len() implies setting_key()(
            ss.drop_last()[a],
        ) != setting_key()(ss.drop_last()[b]) by {
            assert(ss.drop_last()[a] == ss[a] && ss.drop_last()[b] == ss[b]);
        }
        law_replay_settings_identity(ss.drop_last());
        lemma_upsert_by_key_absent(ss.drop_last(), setting_key(), ss.last());
        assert(ss.drop_last().push(ss.last()) =~= ss);
    }
}

/// Escaping a string and reading it back between quotes loses nothing:
/// the parser recovers exactly the characters that were escaped, and
/// stops exactly at the closing quote.
pub proof fn law_string_text_round_trip(s: Seq<char>, rest: Seq<char>)
    ensures
        parse_str_body(esc(s) + seq!['"'] + rest) == Option::Some((s, rest)),
    decreases s.len(),
{
    let w = esc(s) + seq!['"'] + rest;
    if s.len() == 0 {
        assert(w[0] == '"');
        assert(w.drop_first() =~= rest);
    } else {
        let c = s[0];
        let t = s.drop_first();
        let tw = esc(t) + seq!['"'] + rest;
        law_string_text_round_trip(t, rest);
        if c == '"' || c == '\\' || c == '\n' || c == '\r' || c == '\t' {
            assert(esc_char(c).len() == 2 && esc_char(c)[0] == '\\');
            assert(w[0] == '\\');
            assert(w[1] == esc_char(c)[1]);
            assert(w.skip(2) =~= tw);
            assert(crate::json::unescape(esc_char(c)[1]) == c);
            assert(seq![c] + t =~= s);
        } else {
            assert(w[0] == c);
            assert(w.drop_first() =~= tw);
            assert(seq![c] + t =~= s);
        }
    }
}

/// How many digits a number prints as.
pub open spec fn nd(n: u64) -> nat
    decreases n,
{
    if n < 10 {
        1
    } else {
        1 + nd((n / 10) as u64)
    }
}

pub open spec fn pow10(k: nat) -> int
    decreases k,
{
    if k == 0 {
        1
    } else {
        10 * pow10((k - 1) as nat)
    }
}

proof fn lemma_digit_char_val(d: u64)
    requires
        d < 10,
    ensures
        is_digit(digit_char(d)),
        digit_val(digit_char(d)) == d,
{
}

/// Reading the printed digits of `n` continues the digit fold with `n`
/// taken into the accumulator.
proof fn lemma_dec_chain(n: u64, tail: Seq<char>, acc: u64)
    requires
        acc * pow10(nd(n)) + n <= 18446744073709551615,
    ensures
        parse_num_rec(dec(n) + tail, acc) == parse_num_rec(
            tail,
            ((acc * pow10(nd(n)) + n) as u64),
        ),
    decreases n,
{
    if n < 10 {
        let s = dec(n) + tail;
        assert(s[0] == digit_char(n));
        lemma_digit_char_val(n);
        assert(pow10(0) == 1);
        assert(pow10(1) == 10);
        assert(acc * 10 + n <= 18446744073709551615);
        assert(acc <= (18446744073709551615 - digit_val(s[0])) / 10) by (nonlinear_arith)
            requires
                acc * 10 + n <= 18446744073709551615,
                digit_val(s[0]) == n,
                n < 10,
        ;
        assert(s.drop_first() =~= tail);
    } else {
        let q = (n / 10) as u64;
        let d = (n % 10) as u64;
        let mid = seq![digit_char(d)] + tail;
        assert(dec(n) + tail =~= dec(q) + mid);
        assert(pow10(nd(n)) == 10 * pow10(nd(q)));
        assert(pow10(nd(q)) >= 1) by {
            lemma_pow10_pos(nd(q));
        }
        assert(acc * pow10(nd(q)) + q <= 18446744073709551615) by (nonlinear_arith)
            requires
                acc * (10 * pow10(nd(q))) + n <= 18446744073709551615,
                n == q * 10 + d,
                d < 10,
                pow10(nd(q)) >= 1,
                acc >= 0,
                q >= 0,
        ;
        lemma_dec_chain(q, mid, acc);
        let a2 = ((acc * pow10(nd(q)) + q) as u64);
        assert(mid[0] == digit_char(d));
        lemma_digit_char_val(d);
        assert(a2 * 10 + d == acc * pow10(nd(n)) + n) by (nonlinear_arith)
            requires
                a2 == acc * pow10(nd(q)) + q,
                pow10(nd(n)) == 10 * pow10(nd(q)),
                n == q * 10 + d,
        ;
        assert(a2 <= (18446744073709551615 - digit_val(mid[0])) / 10) by (nonlinear_arith)
            requires
                a2 * 10 + d <= 18446744073709551615,
                digit_val(mid[0]) == d,
                d < 10,
        ;
        assert(mid.drop_first() =~= tail);
    }
}

proof fn lemma_pow10_pos(k: nat)
    ensures
        pow10(k) >= 1,
    decreases k,
{
    if k > 0 {
        lemma_pow10_pos((k - 1) as nat);
    }
}

proof fn lemma_dec_first_digit(n: u64)
    ensures
        dec(n).len() >= 1,
        is_digit(dec(n)[0]),
    decreases n,
{
    if n < 10 {
        lemma_digit_char_val(n);
    } else {
        lemma_dec_first_digit((n / 10) as u64);
    }
}

/// Printing a number and reading it back yields the same number: the
/// digit run ends exactly where the printed digits end.
pub proof fn law_number_text_round_trip(n: u64, rest: Seq<char>)
    requires
        rest.len() == 0 || !is_digit(rest[0]),
    ensures
        parse_num(dec(n) + rest) == Option::Some((n, rest)),
{
    let s = dec(n) + rest;
    lemma_dec_first_digit(n);
    assert(s[0] == dec(n)[0]);
    lemma_pow10_pos(nd(n));
    lemma_dec_chain(n, rest, 0);
    assert(0 * pow10(nd(n)) + n == n) by (nonlinear_arith);
}

/// A quoted string reads back as exactly the string value it was
/// rendered from.
pub proof fn law_scalar_string_round_trip(s: Seq<char>, rest: Seq<char>)
    ensures
        parse_scalar(qstr(s) + rest) == Option::Some((ScalarModel::Str(s), rest)),
{
    let w = qstr(s) + rest;
    assert(w[0] == '"');
    assert(w.drop_first() =~= esc(s) + seq!['"'] + rest);
    law_string_text_round_trip(s, rest);
}

/// A rendered unsigned number reads back as exactly that number.
pub proof fn law_scalar_number_round_trip(n: u64, rest: Seq<char>)
    requires
        rest.len() == 0 || !is_digit(rest[0]),
    ensures
        parse_scalar(dec(n) + rest) == Option::Some((ScalarModel::Num(false, n), rest)),
{
    let w = dec(n) + rest;
    lemma_dec_first_digit(n);
    assert(w[0] == dec(n)[0]);
    assert(w[0] != '"' && w[0] != '-');
    law_number_text_round_trip(n, rest);
}

/// A rendered negative number reads back with its sign and magnitude.
pub proof fn law_scalar_negative_round_trip(m: u64, rest: Seq<char>)
    requires
        rest.len() == 0 || !is_digit(rest[0]),
    ensures
        parse_scalar(seq!['-'] + dec(m) + rest) == Option::Some(
            (ScalarModel::Num(true, m), rest),
        ),
{
    let w = seq!['-'] + dec(m) + rest;
    assert(w[0] == '-');
    assert(w.drop_first() =~= dec(m) + rest);
    law_number_text_round_trip(m, rest);
}

/// A rendered boolean reads back as itself.
pub proof fn law_scalar_bool_round_trip(b: bool, rest: Seq<char>)
    ensures
        parse_scalar(bool_lit(b) + rest) == Option::Some((ScalarModel::Bool(b), rest)),
{
    proof_strlits();
    let w = bool_lit(b) + rest;
    if b {
        assert(w[0] == 't');
        assert(w[0] != '"' && w[0] != '-' && !is_digit(w[0]));
        assert(w.subrange(0, 4) =~= kw_true());
        assert(w.skip(4) =~= rest);
    } else {
        assert(w[0] == 'f');
        assert(w[0] != '"' && w[0] != '-' && !is_digit(w[0]));
        assert(!crate::json::has_kw(w, kw_true())) by {
            if crate::json::has_kw(w, kw_true()) {
                assert(w.subrange(0, 4)[0] == w[0]);
            }
        }
        assert(w.subrange(0, 5) =~= kw_false());
        assert(w.skip(5) =~= rest);
    }
}

/// The rendered `null` reads back as the null scalar.
pub proof fn law_scalar_null_round_trip(rest: Seq<char>)
    ensures
        parse_scalar("null"@ + rest) == Option::Some((ScalarModel::Null, rest)),
{
    proof_strlits();
    let w = "null"@ + rest;
    assert(w[0] == 'n');
    assert(w[0] != '"' && w[0] != '-' && !is_digit(w[0]));
    assert(!crate::json::has_kw(w, kw_true())) by {
        if crate::json::has_kw(w, kw_true()) {
            assert(w.subrange(0, 4)[0] == w[0]);
        }
    }
    assert(!crate::json::has_kw(w, kw_false())) by {
        if crate::json::has_kw(w, kw_false()) {
            assert(w.subrange(0, 5)[0] == w[0]);
        }
    }
    assert(w.subrange(0, 4) =~= kw_null());
    assert(w.skip(4) =~= rest);
}

proof fn proof_strlits()
    ensures
        "true"@ == kw_true(),
        "false"@ == kw_false(),
        "null"@ == kw_null(),
{
    reveal_strlit("true");
    reveal_strlit("false");
    reveal_strlit("null");
    assert("true"@ =~= kw_true());
    assert("false"@ =~= kw_false());
    assert("null"@ =~= kw_null());
}

/// A rendered `"key":value` member reads back as that member, given that
/// its value text reads back as its value.
pub proof fn law_member_text_round_trip(
    key: Seq<char>,
    vt: Seq<char>,
    vm: ScalarModel,
    rest: Seq<char>,
)
    requires
        parse_scalar(vt + rest) == Option::Some((vm, rest)),
        vt.len() > 0,
        !crate::json::is_ws(vt[0]),
    ensures
        parse_member(qstr(key) + seq![':'] + vt + rest) == Option::Some(
            (MemberModel { key: key, value: vm }, rest),
        ),
{
    let w = qstr(key) + seq![':'] + vt + rest;
    assert(w[0] == '"');
    assert(crate::json::skip_ws(w) == w);
    let r1 = seq![':'] + (vt + rest);
    assert(w.drop_first() =~= esc(key) + seq!['"'] + r1);
    law_string_text_round_trip(key, r1);
    assert(r1[0] == ':');
    assert(crate::json::skip_ws(r1) == r1);
    assert(r1.drop_first() =~= vt + rest);
    assert((vt + rest)[0] == vt[0]);
    assert(crate::json::skip_ws(vt + rest) == vt + rest);
}

/// Escaping changes nothing in a string with no quote, backslash or
/// control character.
pub proof fn lemma_esc_plain(s: Seq<char>)
    requires
        forall|i: int|
            0 <= i < s.len() ==> #[trigger] s[i] != '"' && s[i] != '\\' && s[i] != '\n' && s[i]
                != '\r' && s[i] != '\t',
    ensures
        esc(s) == s,
    decreases s.len(),
{
    if s.len() == 0 {
        assert(esc(s) =~= s);
    } else {
        lemma_esc_plain(s.drop_first());
        assert(esc(s) =~= s);
    }
}

/// The members a settings row renders as.
pub open spec fn setting_members(t: SettingModel) -> Seq<MemberModel> {
    seq![
        (MemberModel { key: "key"@, value: ScalarModel::Str(t.key) }),
        (MemberModel { key: "value"@, value: ScalarModel::Str(t.value) }),
        (MemberModel { key: "updated_at"@, value: ScalarModel::Str(t.updated_at) }),
    ]
}

/// A rendered settings row reads back member for member: its text is an
/// object whose member list is exactly the three members it was rendered
/// from, with parsing stopping right after the closing brace.
#[verifier::rlimit(100)]
#[verifier::spinoff_prover]
pub proof fn law_setting_text_round_trip(t: SettingModel, rest: Seq<char>)
    ensures
        (crate::emit::setting_json(t) + rest)[0] == '{',
        crate::json::parse_members((crate::emit::setting_json(t) + rest).skip(1))
            == Option::Some((setting_members(t), rest)),
{
    reveal_strlit("{\"key\":");
    reveal_strlit(",\"value\":");
    reveal_strlit(",\"updated_at\":");
    reveal_strlit("}");
    reveal_strlit("key");
    reveal_strlit("value");
    reveal_strlit("updated_at");
    lemma_esc_plain("key"@);
    lemma_esc_plain("value"@);
    lemma_esc_plain("updated_at"@);
    let m1 = MemberModel { key: "key"@, value: ScalarModel::Str(t.key) };
    let m2 = MemberModel { key: "value"@, value: ScalarModel::Str(t.value) };
    let m3 = MemberModel { key: "updated_at"@, value: ScalarModel::Str(t.updated_at) };
    let tail3 = seq!['}'] + rest;
    let s3 = qstr("updated_at"@) + seq![':'] + qstr(t.updated_at) + tail3;
    law_scalar_string_round_trip(t.updated_at, tail3);
    law_member_text_round_trip("updated_at"@, qstr(t.updated_at), ScalarModel::Str(t.updated_at), tail3);
    assert(s3[0] == '"');
    assert(crate::json::skip_ws(s3) == s3);
    assert(crate::json::skip_ws(tail3) == tail3);
    assert(tail3.drop_first() =~= rest);
    assert(crate::json::parse_members(s3) == Option::Some((seq![m3], rest)));
    let r2 = seq![','] + s3;
    let s2 = qstr("value"@) + seq![':'] + qstr(t.value) + r2;
    law_scalar_string_round_trip(t.value, r2);
    law_member_text_round_trip("value"@, qstr(t.value), ScalarModel::Str(t.value), r2);
    assert(s2[0] == '"');
    assert(crate::json::skip_ws(s2) == s2);
    assert(crate::json::skip_ws(r2) == r2);
    assert(r2.drop_first() =~= s3);
    assert(crate::json::parse_members(s2) == Option::Some((seq![m2] + seq![m3], rest)));
    let r1 = seq![','] + s2;
    let s1 = qstr("key"@) + seq![':'] + qstr(t.key) + r1;
    law_scalar_string_round_trip(t.key, r1);
    law_member_text_round_trip("key"@, qstr(t.key), ScalarModel::Str(t.key), r1);
    assert(s1[0] == '"');
    assert(crate::json::skip_ws(s1) == s1);
    assert(crate::json::skip_ws(r1) == r1);
    assert(r1.drop_first() =~= s2);
    assert(crate::json::parse_members(s1) == Option::Some(
        (seq![m1] + (seq![m2] + seq![m3]), rest),
    ));
    assert(seq![m1] + (seq![m2] + seq![m3]) =~= setting_members(t));
    let w = crate::emit::setting_json(t) + rest;
    assert(w[0] == '{');
    assert(w.skip(1) =~= s1);
}

/// A settings row's rendered members decode back to exactly that row:
/// the three lookups find the three members, each with the right type.
pub proof fn law_setting_members_decode(t: SettingModel)
    ensures
        crate::decode::setting_of_obj(setting_members(t)) == Option::Some(t),
{
    reveal_strlit("key");
    reveal_strlit("value");
    reveal_strlit("updated_at");
    let ms = setting_members(t);
    let m1 = MemberModel { key: "key"@, value: ScalarModel::Str(t.key) };
    let m2 = MemberModel { key: "value"@, value: ScalarModel::Str(t.value) };
    let m3 = MemberModel { key: "updated_at"@, value: ScalarModel::Str(t.updated_at) };
    assert("key"@.len() == 3 && "value"@.len() == 5 && "updated_at"@.len() == 10);
    assert("key"@ != "value"@ && "key"@ != "updated_at"@ && "value"@ != "updated_at"@);
    assert(ms.last() == m3);
    assert(ms.drop_last() =~= seq![m1, m2]);
    assert(seq![m1, m2].last() == m2);
    assert(seq![m1, m2].drop_last() =~= seq![m1]);
    assert(seq![m1].last() == m1);
    assert(crate::decode::lookup(ms, "key"@) == crate::decode::lookup(seq![m1, m2], "key"@));
    assert(crate::decode::lookup(seq![m1, m2], "key"@) == crate::decode::lookup(
        seq![m1],
        "key"@,
    ));
    assert(crate::decode::lookup(seq![m1], "key"@) == Option::Some(ScalarModel::Str(t.key)));
    assert(crate::decode::lookup(ms, "value"@) == crate::decode::lookup(seq![m1, m2], "value"@));
    assert(crate::decode::lookup(seq![m1, m2], "value"@) == Option::Some(
        ScalarModel::Str(t.value),
    ));
    assert(crate::decode::lookup(ms, "updated_at"@) == Option::Some(
        ScalarModel::Str(t.updated_at),
    ));
    assert(crate::decode::req_str(ms, "key"@) == Option::Some(t.key));
    assert(crate::decode::req_str(ms, "value"@) == Option::Some(t.value));
    assert(crate::decode::req_str(ms, "updated_at"@) == Option::Some(t.updated_at));
}

} // verus!
