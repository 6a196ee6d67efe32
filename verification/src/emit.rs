//! Rendering the export document: spec functions that define the canonical
//! text of each record and of the whole document, and executable emitters
//! proved to produce exactly that text.

use vstd::prelude::*;
use crate::records::{
    opt_view, PlannedEntryModel, PlannedEntryRecord, SettingModel, SettingRecord, TradeModel,
    TradeRecord, ZoneModel, ZoneRecord,
};

verus! {

/// Relies on `String::push`: appending one character to the string.
pub assume_specification[ String::push ](s: &mut String, c: char)
    ensures
        final(s)@ == old(s)@.push(c),
;

/// The characters a string character is written as.
pub open spec fn esc_char(c: char) -> Seq<char> {
    if c == '"' {
        seq!['\\', '"']
    } else if c == '\\' {
        seq!['\\', '\\']
    } else if c == '\n' {
        seq!['\\', 'n']
    } else if c == '\r' {
        seq!['\\', 'r']
    } else if c == '\t' {
        seq!['\\', 't']
    } else {
        seq![c]
    }
}

/// A whole string content, escaped.
pub open spec fn esc(s: Seq<char>) -> Seq<char>
    decreases s.len(),
{
    if s.len() == 0 {
        Seq::empty()
    } else {
        esc_char(s[0]) + esc(s.drop_first())
    }
}

pub proof fn lemma_esc_push(s: Seq<char>, c: char)
    ensures
        esc(s.push(c)) == esc(s) + esc_char(c),
    decreases s.len(),
{
    if s.len() == 0 {
        assert(s.push(c)[0] == c);
        assert(s.push(c).drop_first() =~= Seq::<char>::empty());
        assert(esc(s.push(c)) == esc_char(c) + esc(Seq::<char>::empty()));
        assert(esc_char(c) + Seq::<char>::empty() =~= esc_char(c));
        assert(Seq::<char>::empty() + esc_char(c) =~= esc_char(c));
    } else {
        assert(s.push(c)[0] == s[0]);
        assert(s.push(c).drop_first() =~= s.drop_first().push(c));
        lemma_esc_push(s.drop_first(), c);
        assert(esc(s.push(c)) == esc_char(s[0]) + (esc(s.drop_first()) + esc_char(c)));
        assert(esc_char(s[0]) + (esc(s.drop_first()) + esc_char(c)) =~= (esc_char(s[0]) + esc(
            s.drop_first(),
        )) + esc_char(c));
    }
}

/// A quoted, escaped string literal.
pub open spec fn qstr(s: Seq<char>) -> Seq<char> {
    seq!['"'] + esc(s) + seq!['"']
}

pub open spec fn digit_char(d: u64) -> char {
    ((48 + d) as u8) as char
}

/// The decimal digits of an unsigned number.
pub open spec fn dec(n: u64) -> Seq<char>
    decreases n,
{
    if n < 10 {
        seq![digit_char(n)]
    } else {
        dec((n / 10) as u64) + seq![digit_char((n % 10) as u64)]
    }
}

/// A 32-bit integer literal, signed when negative.
pub open spec fn i32_lit(v: i32) -> Seq<char> {
    if v < 0 {
        seq!['-'] + dec(((0 - v as int) as u64))
    } else {
        dec(v as u64)
    }
}

/// An optional string: its quoted form, or `null`.
pub open spec fn opt_qstr(o: Option<Seq<char>>) -> Seq<char> {
    match o {
        Option::Some(s) => qstr(s),
        Option::None => "null"@,
    }
}

/// An optional number: its digits, or `null`.
pub open spec fn opt_dec(o: Option<u64>) -> Seq<char> {
    match o {
        Option::Some(n) => dec(n),
        Option::None => "null"@,
    }
}

pub open spec fn bool_lit(b: bool) -> Seq<char> {
    if b {
        "true"@
    } else {
        "false"@
    }
}

/// Element texts joined with commas.
pub open spec fn join_comma(es: Seq<Seq<char>>) -> Seq<char>
    decreases es.len(),
{
    if es.len() == 0 {
        Seq::empty()
    } else if es.len() == 1 {
        es[0]
    } else {
        join_comma(es.drop_last()) + seq![','] + es.last()
    }
}

fn emit_str(out: &mut String, s: &str)
    ensures
        final(out)@ == old(out)@ + qstr(s@),
{
    let ghost start = out@;
    out.push('"');
    let n = s.unicode_len();
    let mut i: usize = 0;
    proof {
        assert(s@.subrange(0, 0) =~= Seq::<char>::empty());
        assert(out@ =~= start + seq!['"'] + esc(s@.subrange(0, 0)));
    }
    while i < n
        invariant
            i <= n,
            n == s@.len(),
            out@ == start + seq!['"'] + esc(s@.subrange(0, i as int)),
        decreases n - i,
    {
        let c = s.get_char(i);
        let ghost pre = out@;
        if c == '"' {
            out.push('\\');
            out.push('"');
        } else if c == '\\' {
            out.push('\\');
            out.push('\\');
        } else if c == '\n' {
            out.push('\\');
            out.push('n');
        } else if c == '\r' {
            out.push('\\');
            out.push('r');
        } else if c == '\t' {
            out.push('\\');
            out.push('t');
        } else {
            out.push(c);
        }
        proof {
            assert(out@ =~= pre + esc_char(c));
            assert(s@.subrange(0, i + 1 as int) =~= s@.subrange(0, i as int).push(c));
            lemma_esc_push(s@.subrange(0, i as int), c);
            assert(out@ =~= start + seq!['"'] + esc(s@.subrange(0, i + 1 as int)));
        }
        i += 1;
    }
    out.push('"');
    proof {
        assert(s@.subrange(0, n as int) =~= s@);
        assert(out@ =~= start + qstr(s@));
    }
}

fn emit_u64(out: &mut String, n: u64)
    ensures
        final(out)@ == old(out)@ + dec(n),
    decreases n,
{
    if n < 10 {
        let c = (n as u8 + 48) as char;
        out.push(c);
        proof {
            assert(out@ =~= old(out)@ + dec(n));
        }
    } else {
        emit_u64(out, n / 10);
        let c = ((n % 10) as u8 + 48) as char;
        out.push(c);
        proof {
            assert(out@ =~= old(out)@ + dec(n));
        }
    }
}

fn emit_i32(out: &mut String, v: i32)
    ensures
        final(out)@ == old(out)@ + i32_lit(v),
{
    if v < 0 {
        let ghost start = out@;
        out.push('-');
        let m = (0 - (v as i64)) as u64;
        emit_u64(out, m);
        proof {
            assert(out@ =~= start + i32_lit(v));
        }
    } else {
        emit_u64(out, v as u64);
    }
}

fn emit_opt_str(out: &mut String, o: &Option<String>)
    ensures
        final(out)@ == old(out)@ + opt_qstr(opt_view(*o)),
{
    match o {
        Option::Some(s) => emit_str(out, s.as_str()),
        Option::None => out.append("null"),
    }
}

fn emit_opt_u64(out: &mut String, o: &Option<u64>)
    ensures
        final(out)@ == old(out)@ + opt_dec(*o),
{
    match o {
        Option::Some(n) => emit_u64(out, *n),
        Option::None => out.append("null"),
    }
}

fn emit_bool(out: &mut String, b: bool)
    ensures
        final(out)@ == old(out)@ + bool_lit(b),
{
    if b {
        out.append("true");
    } else {
        out.append("false");
    }
}

/// The text of one trade record.
pub open spec fn trade_json(t: TradeModel) -> Seq<char> {
    "{\"id\":"@ + qstr(t.id)
        + ",\"date\":"@ + qstr(t.date)
        + ",\"pair\":"@ + qstr(t.pair)
        + ",\"trade_type\":"@ + qstr(t.trade_type)
        + ",\"entry\":"@ + dec(t.entry)
        + ",\"exit\":"@ + opt_dec(t.exit)
        + ",\"stop_loss\":"@ + dec(t.stop_loss)
        + ",\"take_profit\":"@ + dec(t.take_profit)
        + ",\"size\":"@ + dec(t.size)
        + ",\"status\":"@ + qstr(t.status)
        + ",\"pnl\":"@ + opt_dec(t.pnl)
        + ",\"zone_id\":"@ + opt_qstr(t.zone_id)
        + ",\"zone_name\":"@ + opt_qstr(t.zone_name)
        + ",\"planned_entry_id\":"@ + opt_qstr(t.planned_entry_id)
        + ",\"risk_amount\":"@ + dec(t.risk_amount)
        + ",\"risk_ratio\":"@ + dec(t.risk_ratio)
        + ",\"notes\":"@ + opt_qstr(t.notes)
        + ",\"created_at\":"@ + qstr(t.created_at)
        + ",\"updated_at\":"@ + qstr(t.updated_at) + "}"@
}

fn emit_trade(out: &mut String, t: &TradeRecord)
    ensures
        final(out)@ == old(out)@ + trade_json(t@),
{
    let ghost start = out@;
    out.append("{\"id\":");
    proof {
        assert(out@ == start + "{\"id\":"@);
    }
    emit_str(out, t.id.as_str());
    proof {
        vstd::seq_lib::lemma_concat_associative(start, "{\"id\":"@, qstr(t@.id));
        assert(out@ == start + ("{\"id\":"@ + qstr(t@.id)));
    }
    out.append(",\"date\":");
    proof {
        vstd::seq_lib::lemma_concat_associative(start, "{\"id\":"@ + qstr(t@.id), ",\"date\":"@);
        assert(out@ == start + ("{\"id\":"@ + qstr(t@.id) + ",\"date\":"@));
    }
    emit_str(out, t.date.as_str());
    proof {
        vstd::seq_lib::lemma_concat_associative(start, "{\"id\":"@ + qstr(t@.id) + ",\"date\":"@, qstr(t@.date));
        assert(out@ == start + ("{\"id\":"@ + qstr(t@.id) + ",\"date\":"@ + qstr(t@.date)));
    }
    out.append(",\"pair\":");
    proof {
        vstd::seq_lib::lemma_concat_associative(start, "{\"id\":"@ + qstr(t@.id) + ",\"date\":"@ + qstr(t@.date), ",\"pair\":"@);
        assert(out@ == start + ("{\"id\":"@ + qstr(t@.id) + ",\"date\":"@ + qstr(t@.date) + ",\"pair\":"@));
    }
    emit_str(out, t.pair.as_str());
    proof {
        vstd::seq_lib::lemma_concat_associative(start, "{\"id\":"@ + qstr(t@.id) + ",\"date\":"@ + qstr(t@.date) + ",\"pair\":"@, qstr(t@.pair));
        assert(out@ == start + ("{\"id\":"@ + qstr(t@.id) + ",\"date\":"@ + qstr(t@.date) + ",\"pair\":"@ + qstr(t@.pair)));
    }
    out.append(",\"trade_type\":");
    proof {
        vstd::seq_lib::lemma_concat_associative(start, "{\"id\":"@ + qstr(t@.id) + ",\"date\":"@ + qstr(t@.date) + ",\"pair\":"@ + qstr(t@.pair), ",\"trade_type\":"@);
        assert(out@ == start + ("{\"id\":"@ + qstr(t@.id) + ",\"date\":"@ + qstr(t@.date) + ",\"pair\":"@ + qstr(t@.pair) + ",\"trade_type\":"@));
    }
    emit_str(out, t.trade_type.as_str());
    proof {
        vstd::seq_lib::lemma_concat_associative(start, "{\"id\":"@ + qstr(t@.id) + ",\"date\":"@ + qstr(t@.date) + ",\"pair\":"@ + qstr(t@.pair) + ",\"trade_type\":"@, qstr(t@.trade_type));
        assert(out@ == start + ("{\"id\":"@ + qstr(t@.id) + ",\"date\":"@ + qstr(t@.date) + ",\"pair\":"@ + qstr(t@.pair) + ",\"trade_type\":"@ + qstr(t@.trade_type)));
    }
    out.append(",\"entry\":");
    proof {
        vstd::seq_lib::lemma_concat_associative(start, "{\"id\":"@ + qstr(t@.id) + ",\"date\":"@ + qstr(t@.date) + ",\"pair\":"@ + qstr(t@.pair) + ",\"trade_type\":"@ + qstr(t@.trade_type), ",\"entry\":"@);
        assert(out@ == start + ("{\"id\":"@ + qstr(t@.id) + ",\"date\":"@ + qstr(t@.date) + ",\"pair\":"@ + qstr(t@.pair) + ",\"trade_type\":"@ + qstr(t@.trade_type) + ",\"entry\":"@));
    }
    emit_u64(out, t.entry);
    proof {
        vstd::seq_lib::lemma_concat_associative(start, "{\"id\":"@ + qstr(t@.id) + ",\"date\":"@ + qstr(t@.date) + ",\"pair\":"@ + qstr(t@.pair) + ",\"trade_type\":"@ + qstr(t@.trade_type) + ",\"entry\":"@, dec(t@.entry));
        assert(out@ == start + ("{\"id\":"@ + qstr(t@.id) + ",\"date\":"@ + qstr(t@.date) + ",\"pair\":"@ + qstr(t@.pair) + ",\"trade_type\":"@ + qstr(t@.trade_type) + ",\"entry\":"@ + dec(t@.entry)));
    }
    out.append(",\"exit\":");
    proof {
        vstd::seq_lib::lemma_concat_associative(start, "{\"id\":"@ + qstr(t@.id) + ",\"date\":"@ + qstr(t@.date) + ",\"pair\":"@ + qstr(t@.pair) + ",\"trade_type\":"@ + qstr(t@.trade_type) + ",\"entry\":"@ + dec(t@.entry), ",\"exit\":"@);
        assert(out@ == start + ("{\"id\":"@ + qstr(t@.id) + ",\"date\":"@ + qstr(t@.date) + ",\"pair\":"@ + qstr(t@.pair) + ",\"trade_type\":"@ + qstr(t@.trade_type) + ",\"entry\":"@ + dec(t@.entry) + ",\"exit\":"@));
    }
    emit_opt_u64(out, &t.exit);
    proof {
        vstd::seq_lib::lemma_concat_associative(start, "{\"id\":"@ + qstr(t@.id) + ",\"date\":"@ + qstr(t@.date) + ",\"pair\":"@ + qstr(t@.pair) + ",\"trade_type\":"@ + qstr(t@.trade_type) + ",\"entry\":"@ + dec(t@.entry) + ",\"exit\":"@, opt_dec(t@.exit));
        assert(out@ == start + ("{\"id\":"@ + qstr(t@.id) + ",\"date\":"@ + qstr(t@.date) + ",\"pair\":"@ + qstr(t@.pair) + ",\"trade_type\":"@ + qstr(t@.trade_type) + ",\"entry\":"@ + dec(t@.entry) + ",\"exit\":"@ + opt_dec(t@.exit)));
    }
    out.append(",\"stop_loss\":");
    proof {
        vstd::seq_lib::lemma_concat_associative(start, "{\"id\":"@ + qstr(t@.id) + ",\"date\":"@ + qstr(t@.date) + ",\"pair\":"@ + qstr(t@.pair) + ",\"trade_type\":"@ + qstr(t@.trade_type) + ",\"entry\":"@ + dec(t@.entry) + ",\"exit\":"@ + opt_dec(t@.exit), ",\"stop_loss\":"@);
        assert(out@ == start + ("{\"id\":"@ + qstr(t@.id) + ",\"date\":"@ + qstr(t@.date) + ",\"pair\":"@ + qstr(t@.pair) + ",\"trade_type\":"@ + qstr(t@.trade_type) + ",\"entry\":"@ + dec(t@.entry) + ",\"exit\":"@ + opt_dec(t@.exit) + ",\"stop_loss\":"@));
    }
    emit_u64(out, t.stop_loss);
    proof {
        vstd::seq_lib::lemma_concat_associative(start, "{\"id\":"@ + qstr(t@.id) + ",\"date\":"@ + qstr(t@.date) + ",\"pair\":"@ + qstr(t@.pair) + ",\"trade_type\":"@ + qstr(t@.trade_type) + ",\"entry\":"@ + dec(t@.entry) + ",\"exit\":"@ + opt_dec(t@.exit) + ",\"stop_loss\":"@, dec(t@.stop_loss));
        assert(out@ == start + ("{\"id\":"@ + qstr(t@.id) + ",\"date\":"@ + qstr(t@.date) + ",\"pair\":"@ + qstr(t@.pair) + ",\"trade_type\":"@ + qstr(t@.trade_type) + ",\"entry\":"@ + dec(t@.entry) + ",\"exit\":"@ + opt_dec(t@.exit) + ",\"stop_loss\":"@ + dec(t@.stop_loss)));
    }
    out.append(",\"take_profit\":");
    proof {
        vstd::seq_lib::lemma_concat_associative(start, "{\"id\":"@ + qstr(t@.id) + ",\"date\":"@ + qstr(t@.date) + ",\"pair\":"@ + qstr(t@.pair) + ",\"trade_type\":"@ + qstr(t@.trade_type) + ",\"entry\":"@ + dec(t@.entry) + ",\"exit\":"@ + opt_dec(t@.exit) + ",\"stop_loss\":"@ + dec(t@.stop_loss), ",\"take_profit\":"@);
        assert(out@ == start + ("{\"id\":"@ + qstr(t@.id) + ",\"date\":"@ + qstr(t@.date) + ",\"pair\":"@ + qstr(t@.pair) + ",\"trade_type\":"@ + qstr(t@.trade_type) + ",\"entry\":"@ + dec(t@.entry) + ",\"exit\":"@ + opt_dec(t@.exit) + ",\"stop_loss\":"@ + dec(t@.stop_loss) + ",\"take_profit\":"@));
    }
    emit_u64(out, t.take_profit);
    proof {
        vstd::seq_lib::lemma_concat_associative(start, "{\"id\":"@ + qstr(t@.id) + ",\"date\":"@ + qstr(t@.date) + ",\"pair\":"@ + qstr(t@.pair) + ",\"trade_type\":"@ + qstr(t@.trade_type) + ",\"entry\":"@ + dec(t@.entry) + ",\"exit\":"@ + opt_dec(t@.exit) + ",\"stop_loss\":"@ + dec(t@.stop_loss) + ",\"take_profit\":"@, dec(t@.take_profit));
        assert(out@ == start + ("{\"id\":"@ + qstr(t@.id) + ",\"date\":"@ + qstr(t@.date) + ",\"pair\":"@ + qstr(t@.pair) + ",\"trade_type\":"@ + qstr(t@.trade_type) + ",\"entry\":"@ + dec(t@.entry) + ",\"exit\":"@ + opt_dec(t@.exit) + ",\"stop_loss\":"@ + dec(t@.stop_loss) + ",\"take_profit\":"@ + dec(t@.take_profit)));
    }
    out.append(",\"size\":");
    proof {
        vstd::seq_lib::lemma_concat_associative(start, "{\"id\":"@ + qstr(t@.id) + ",\"date\":"@ + qstr(t@.date) + ",\"pair\":"@ + qstr(t@.pair) + ",\"trade_type\":"@ + qstr(t@.trade_type) + ",\"entry\":"@ + dec(t@.entry) + ",\"exit\":"@ + opt_dec(t@.exit) + ",\"stop_loss\":"@ + dec(t@.stop_loss) + ",\"take_profit\":"@ + dec(t@.take_profit), ",\"size\":"@);
        assert(out@ == start + ("{\"id\":"@ + qstr(t@.id) + ",\"date\":"@ + qstr(t@.date) + ",\"pair\":"@ + qstr(t@.pair) + ",\"trade_type\":"@ + qstr(t@.trade_type) + ",\"entry\":"@ + dec(t@.entry) + ",\"exit\":"@ + opt_dec(t@.exit) + ",\"stop_loss\":"@ + dec(t@.stop_loss) + ",\"take_profit\":"@ + dec(t@.take_profit) + ",\"size\":"@));
    }
    emit_u64(out, t.size);
    proof {
        vstd::seq_lib::lemma_concat_associative(start, "{\"id\":"@ + qstr(t@.id) + ",\"date\":"@ + qstr(t@.date) + ",\"pair\":"@ + qstr(t@.pair) + ",\"trade_type\":"@ + qstr(t@.trade_type) + ",\"entry\":"@ + dec(t@.entry) + ",\"exit\":"@ + opt_dec(t@.exit) + ",\"stop_loss\":"@ + dec(t@.stop_loss) + ",\"take_profit\":"@ + dec(t@.take_profit) + ",\"size\":"@, dec(t@.size));
        assert(out@ == start + ("{\"id\":"@ + qstr(t@.id) + ",\"date\":"@ + qstr(t@.date) + ",\"pair\":"@ + qstr(t@.pair) + ",\"trade_type\":"@ + qstr(t@.trade_type) + ",\"entry\":"@ + dec(t@.entry) + ",\"exit\":"@ + opt_dec(t@.exit) + ",\"stop_loss\":"@ + dec(t@.stop_loss) + ",\"take_profit\":"@ + dec(t@.take_profit) + ",\"size\":"@ + dec(t@.size)));
    }
    out.append(",\"status\":");
    proof {
        vstd::seq_lib::lemma_concat_associative(start, "{\"id\":"@ + qstr(t@.id) + ",\"date\":"@ + qstr(t@.date) + ",\"pair\":"@ + qstr(t@.pair) + ",\"trade_type\":"@ + qstr(t@.trade_type) + ",\"entry\":"@ + dec(t@.entry) + ",\"exit\":"@ + opt_dec(t@.exit) + ",\"stop_loss\":"@ + dec(t@.stop_loss) + ",\"take_profit\":"@ + dec(t@.take_profit) + ",\"size\":"@ + dec(t@.size), ",\"status\":"@);
        assert(out@ == start + ("{\"id\":"@ + qstr(t@.id) + ",\"date\":"@ + qstr(t@.date) + ",\"pair\":"@ + qstr(t@.pair) + ",\"trade_type\":"@ + qstr(t@.trade_type) + ",\"entry\":"@ + dec(t@.entry) + ",\"exit\":"@ + opt_dec(t@.exit) + ",\"stop_loss\":"@ + dec(t@.stop_loss) + ",\"take_profit\":"@ + dec(t@.take_profit) + ",\"size\":"@ + dec(t@.size) + ",\"status\":"@));
    }
    emit_str(out, t.status.as_str());
    proof {
        vstd::seq_lib::lemma_concat_associative(start, "{\"id\":"@ + qstr(t@.id) + ",\"date\":"@ + qstr(t@.date) + ",\"pair\":"@ + qstr(t@.pair) + ",\"trade_type\":"@ + qstr(t@.trade_type) + ",\"entry\":"@ + dec(t@.entry) + ",\"exit\":"@ + opt_dec(t@.exit) + ",\"stop_loss\":"@ + dec(t@.stop_loss) + ",\"take_profit\":"@ + dec(t@.take_profit) + ",\"size\":"@ + dec(t@.size) + ",\"status\":"@, qstr(t@.status));
        assert(out@ == start + ("{\"id\":"@ + qstr(t@.id) + ",\"date\":"@ + qstr(t@.date) + ",\"pair\":"@ + qstr(t@.pair) + ",\"trade_type\":"@ + qstr(t@.trade_type) + ",\"entry\":"@ + dec(t@.entry) + ",\"exit\":"@ + opt_dec(t@.exit) + ",\"stop_loss\":"@ + dec(t@.stop_loss) + ",\"take_profit\":"@ + dec(t@.take_profit) + ",\"size\":"@ + dec(t@.size) + ",\"status\":"@ + qstr(t@.status)));
    }
    out.append(",\"pnl\":");
    proof {
        vstd::seq_lib::lemma_concat_associative(start, "{\"id\":"@ + qstr(t@.id) + ",\"date\":"@ + qstr(t@.date) + ",\"pair\":"@ + qstr(t@.pair) + ",\"trade_type\":"@ + qstr(t@.trade_type) + ",\"entry\":"@ + dec(t@.entry) + ",\"exit\":"@ + opt_dec(t@.exit) + ",\"stop_loss\":"@ + dec(t@.stop_loss) + ",\"take_profit\":"@ + dec(t@.take_profit) + ",\"size\":"@ + dec(t@.size) + ",\"status\":"@ + qstr(t@.status), ",\"pnl\":"@);
        assert(out@ == start + ("{\"id\":"@ + qstr(t@.id) + ",\"date\":"@ + qstr(t@.date) + ",\"pair\":"@ + qstr(t@.pair) + ",\"trade_type\":"@ + qstr(t@.trade_type) + ",\"entry\":"@ + dec(t@.entry) + ",\"exit\":"@ + opt_dec(t@.exit) + ",\"stop_loss\":"@ + dec(t@.stop_loss) + ",\"take_profit\":"@ + dec(t@.take_profit) + ",\"size\":"@ + dec(t@.size) + ",\"status\":"@ + qstr(t@.status) + ",\"pnl\":"@));
    }
    emit_opt_u64(out, &t.pnl);
    proof {
        vstd::seq_lib::lemma_concat_associative(start, "{\"id\":"@ + qstr(t@.id) + ",\"date\":"@ + qstr(t@.date) + ",\"pair\":"@ + qstr(t@.pair) + ",\"trade_type\":"@ + qstr(t@.trade_type) + ",\"entry\":"@ + dec(t@.entry) + ",\"exit\":"@ + opt_dec(t@.exit) + ",\"stop_loss\":"@ + dec(t@.stop_loss) + ",\"take_profit\":"@ + dec(t@.take_profit) + ",\"size\":"@ + dec(t@.size) + ",\"status\":"@ + qstr(t@.status) + ",\"pnl\":"@, opt_dec(t@.pnl));
        assert(out@ == start + ("{\"id\":"@ + qstr(t@.id) + ",\"date\":"@ + qstr(t@.date) + ",\"pair\":"@ + qstr(t@.pair) + ",\"trade_type\":"@ + qstr(t@.trade_type) + ",\"entry\":"@ + dec(t@.entry) + ",\"exit\":"@ + opt_dec(t@.exit) + ",\"stop_loss\":"@ + dec(t@.stop_loss) + ",\"take_profit\":"@ + dec(t@.take_profit) + ",\"size\":"@ + dec(t@.size) + ",\"status\":"@ + qstr(t@.status) + ",\"pnl\":"@ + opt_dec(t@.pnl)));
    }
    out.append(",\"zone_id\":");
    proof {
        vstd::seq_lib::lemma_concat_associative(start, "{\"id\":"@ + qstr(t@.id) + ",\"date\":"@ + qstr(t@.date) + ",\"pair\":"@ + qstr(t@.pair) + ",\"trade_type\":"@ + qstr(t@.trade_type) + ",\"entry\":"@ + dec(t@.entry) + ",\"exit\":"@ + opt_dec(t@.exit) + ",\"stop_loss\":"@ + dec(t@.stop_loss) + ",\"take_profit\":"@ + dec(t@.take_profit) + ",\"size\":"@ + dec(t@.size) + ",\"status\":"@ + qstr(t@.status) + ",\"pnl\":"@ + opt_dec(t@.pnl), ",\"zone_id\":"@);
        assert(out@ == start + ("{\"id\":"@ + qstr(t@.id) + ",\"date\":"@ + qstr(t@.date) + ",\"pair\":"@ + qstr(t@.pair) + ",\"trade_type\":"@ + qstr(t@.trade_type) + ",\"entry\":"@ + dec(t@.entry) + ",\"exit\":"@ + opt_dec(t@.exit) + ",\"stop_loss\":"@ + dec(t@.stop_loss) + ",\"take_profit\":"@ + dec(t@.take_profit) + ",\"size\":"@ + dec(t@.size) + ",\"status\":"@ + qstr(t@.status) + ",\"pnl\":"@ + opt_dec(t@.pnl) + ",\"zone_id\":"@));
    }
    emit_opt_str(out, &t.zone_id);
    proof {
        vstd::seq_lib::lemma_concat_associative(start, "{\"id\":"@ + qstr(t@.id) + ",\"date\":"@ + qstr(t@.date) + ",\"pair\":"@ + qstr(t@.pair) + ",\"trade_type\":"@ + qstr(t@.trade_type) + ",\"entry\":"@ + dec(t@.entry) + ",\"exit\":"@ + opt_dec(t@.exit) + ",\"stop_loss\":"@ + dec(t@.stop_loss) + ",\"take_profit\":"@ + dec(t@.take_profit) + ",\"size\":"@ + dec(t@.size) + ",\"status\":"@ + qstr(t@.status) + ",\"pnl\":"@ + opt_dec(t@.pnl) + ",\"zone_id\":"@, opt_qstr(t@.zone_id));
        assert(out@ == start + ("{\"id\":"@ + qstr(t@.id) + ",\"date\":"@ + qstr(t@.date) + ",\"pair\":"@ + qstr(t@.pair) + ",\"trade_type\":"@ + qstr(t@.trade_type) + ",\"entry\":"@ + dec(t@.entry) + ",\"exit\":"@ + opt_dec(t@.exit) + ",\"stop_loss\":"@ + dec(t@.stop_loss) + ",\"take_profit\":"@ + dec(t@.take_profit) + ",\"size\":"@ + dec(t@.size) + ",\"status\":"@ + qstr(t@.status) + ",\"pnl\":"@ + opt_dec(t@.pnl) + ",\"zone_id\":"@ + opt_qstr(t@.zone_id)));
    }
    out.append(",\"zone_name\":");
    proof {
        vstd::seq_lib::lemma_concat_associative(start, "{\"id\":"@ + qstr(t@.id) + ",\"date\":"@ + qstr(t@.date) + ",\"pair\":"@ + qstr(t@.pair) + ",\"trade_type\":"@ + qstr(t@.trade_type) + ",\"entry\":"@ + dec(t@.entry) + ",\"exit\":"@ + opt_dec(t@.exit) + ",\"stop_loss\":"@ + dec(t@.stop_loss) + ",\"take_profit\":"@ + dec(t@.take_profit) + ",\"size\":"@ + dec(t@.size) + ",\"status\":"@ + qstr(t@.status) + ",\"pnl\":"@ + opt_dec(t@.pnl) + ",\"zone_id\":"@ + opt_qstr(t@.zone_id), ",\"zone_name\":"@);
        assert(out@ == start + ("{\"id\":"@ + qstr(t@.id) + ",\"date\":"@ + qstr(t@.date) + ",\"pair\":"@ + qstr(t@.pair) + ",\"trade_type\":"@ + qstr(t@.trade_type) + ",\"entry\":"@ + dec(t@.entry) + ",\"exit\":"@ + opt_dec(t@.exit) + ",\"stop_loss\":"@ + dec(t@.stop_loss) + ",\"take_profit\":"@ + dec(t@.take_profit) + ",\"size\":"@ + dec(t@.size) + ",\"status\":"@ + qstr(t@.status) + ",\"pnl\":"@ + opt_dec(t@.pnl) + ",\"zone_id\":"@ + opt_qstr(t@.zone_id) + ",\"zone_name\":"@));
    }
    emit_opt_str(out, &t.zone_name);
    proof {
        vstd::seq_lib::lemma_concat_associative(start, "{\"id\":"@ + qstr(t@.id) + ",\"date\":"@ + qstr(t@.date) + ",\"pair\":"@ + qstr(t@.pair) + ",\"trade_type\":"@ + qstr(t@.trade_type) + ",\"entry\":"@ + dec(t@.entry) + ",\"exit\":"@ + opt_dec(t@.exit) + ",\"stop_loss\":"@ + dec(t@.stop_loss) + ",\"take_profit\":"@ + dec(t@.take_profit) + ",\"size\":"@ + dec(t@.size) + ",\"status\":"@ + qstr(t@.status) + ",\"pnl\":"@ + opt_dec(t@.pnl) + ",\"zone_id\":"@ + opt_qstr(t@.zone_id) + ",\"zone_name\":"@, opt_qstr(t@.zone_name));
        assert(out@ == start + ("{\"id\":"@ + qstr(t@.id) + ",\"date\":"@ + qstr(t@.date) + ",\"pair\":"@ + qstr(t@.pair) + ",\"trade_type\":"@ + qstr(t@.trade_type) + ",\"entry\":"@ + dec(t@.entry) + ",\"exit\":"@ + opt_dec(t@.exit) + ",\"stop_loss\":"@ + dec(t@.stop_loss) + ",\"take_profit\":"@ + dec(t@.take_profit) + ",\"size\":"@ + dec(t@.size) + ",\"status\":"@ + qstr(t@.status) + ",\"pnl\":"@ + opt_dec(t@.pnl) + ",\"zone_id\":"@ + opt_qstr(t@.zone_id) + ",\"zone_name\":"@ + opt_qstr(t@.zone_name)));
    }
    out.append(",\"planned_entry_id\":");
    proof {
        vstd::seq_lib::lemma_concat_associative(start, "{\"id\":"@ + qstr(t@.id) + ",\"date\":"@ + qstr(t@.date) + ",\"pair\":"@ + qstr(t@.pair) + ",\"trade_type\":"@ + qstr(t@.trade_type) + ",\"entry\":"@ + dec(t@.entry) + ",\"exit\":"@ + opt_dec(t@.exit) + ",\"stop_loss\":"@ + dec(t@.stop_loss) + ",\"take_profit\":"@ + dec(t@.take_profit) + ",\"size\":"@ + dec(t@.size) + ",\"status\":"@ + qstr(t@.status) + ",\"pnl\":"@ + opt_dec(t@.pnl) + ",\"zone_id\":"@ + opt_qstr(t@.zone_id) + ",\"zone_name\":"@ + opt_qstr(t@.zone_name), ",\"planned_entry_id\":"@);
        assert(out@ == start + ("{\"id\":"@ + qstr(t@.id) + ",\"date\":"@ + qstr(t@.date) + ",\"pair\":"@ + qstr(t@.pair) + ",\"trade_type\":"@ + qstr(t@.trade_type) + ",\"entry\":"@ + dec(t@.entry) + ",\"exit\":"@ + opt_dec(t@.exit) + ",\"stop_loss\":"@ + dec(t@.stop_loss) + ",\"take_profit\":"@ + dec(t@.take_profit) + ",\"size\":"@ + dec(t@.size) + ",\"status\":"@ + qstr(t@.status) + ",\"pnl\":"@ + opt_dec(t@.pnl) + ",\"zone_id\":"@ + opt_qstr(t@.zone_id) + ",\"zone_name\":"@ + opt_qstr(t@.zone_name) + ",\"planned_entry_id\":"@));
    }
    emit_opt_str(out, &t.planned_entry_id);
    proof {
        vstd::seq_lib::lemma_concat_associative(start, "{\"id\":"@ + qstr(t@.id) + ",\"date\":"@ + qstr(t@.date) + ",\"pair\":"@ + qstr(t@.pair) + ",\"trade_type\":"@ + qstr(t@.trade_type) + ",\"entry\":"@ + dec(t@.entry) + ",\"exit\":"@ + opt_dec(t@.exit) + ",\"stop_loss\":"@ + dec(t@.stop_loss) + ",\"take_profit\":"@ + dec(t@.take_profit) + ",\"size\":"@ + dec(t@.size) + ",\"status\":"@ + qstr(t@.status) + ",\"pnl\":"@ + opt_dec(t@.pnl) + ",\"zone_id\":"@ + opt_qstr(t@.zone_id) + ",\"zone_name\":"@ + opt_qstr(t@.zone_name) + ",\"planned_entry_id\":"@, opt_qstr(t@.planned_entry_id));
        assert(out@ == start + ("{\"id\":"@ + qstr(t@.id) + ",\"date\":"@ + qstr(t@.date) + ",\"pair\":"@ + qstr(t@.pair) + ",\"trade_type\":"@ + qstr(t@.trade_type) + ",\"entry\":"@ + dec(t@.entry) + ",\"exit\":"@ + opt_dec(t@.exit) + ",\"stop_loss\":"@ + dec(t@.stop_loss) + ",\"take_profit\":"@ + dec(t@.take_profit) + ",\"size\":"@ + dec(t@.size) + ",\"status\":"@ + qstr(t@.status) + ",\"pnl\":"@ + opt_dec(t@.pnl) + ",\"zone_id\":"@ + opt_qstr(t@.zone_id) + ",\"zone_name\":"@ + opt_qstr(t@.zone_name) + ",\"planned_entry_id\":"@ + opt_qstr(t@.planned_entry_id)));
    }
    out.append(",\"risk_amount\":");
    proof {
        vstd::seq_lib::lemma_concat_associative(start, "{\"id\":"@ + qstr(t@.id) + ",\"date\":"@ + qstr(t@.date) + ",\"pair\":"@ + qstr(t@.pair) + ",\"trade_type\":"@ + qstr(t@.trade_type) + ",\"entry\":"@ + dec(t@.entry) + ",\"exit\":"@ + opt_dec(t@.exit) + ",\"stop_loss\":"@ + dec(t@.stop_loss) + ",\"take_profit\":"@ + dec(t@.take_profit) + ",\"size\":"@ + dec(t@.size) + ",\"status\":"@ + qstr(t@.status) + ",\"pnl\":"@ + opt_dec(t@.pnl) + ",\"zone_id\":"@ + opt_qstr(t@.zone_id) + ",\"zone_name\":"@ + opt_qstr(t@.zone_name) + ",\"planned_entry_id\":"@ + opt_qstr(t@.planned_entry_id), ",\"risk_amount\":"@);
        assert(out@ == start + ("{\"id\":"@ + qstr(t@.id) + ",\"date\":"@ + qstr(t@.date) + ",\"pair\":"@ + qstr(t@.pair) + ",\"trade_type\":"@ + qstr(t@.trade_type) + ",\"entry\":"@ + dec(t@.entry) + ",\"exit\":"@ + opt_dec(t@.exit) + ",\"stop_loss\":"@ + dec(t@.stop_loss) + ",\"take_profit\":"@ + dec(t@.take_profit) + ",\"size\":"@ + dec(t@.size) + ",\"status\":"@ + qstr(t@.status) + ",\"pnl\":"@ + opt_dec(t@.pnl) + ",\"zone_id\":"@ + opt_qstr(t@.zone_id) + ",\"zone_name\":"@ + opt_qstr(t@.zone_name) + ",\"planned_entry_id\":"@ + opt_qstr(t@.planned_entry_id) + ",\"risk_amount\":"@));
    }
    emit_u64(out, t.risk_amount);
    proof {
        vstd::seq_lib::lemma_concat_associative(start, "{\"id\":"@ + qstr(t@.id) + ",\"date\":"@ + qstr(t@.date) + ",\"pair\":"@ + qstr(t@.pair) + ",\"trade_type\":"@ + qstr(t@.trade_type) + ",\"entry\":"@ + dec(t@.entry) + ",\"exit\":"@ + opt_dec(t@.exit) + ",\"stop_loss\":"@ + dec(t@.stop_loss) + ",\"take_profit\":"@ + dec(t@.take_profit) + ",\"size\":"@ + dec(t@.size) + ",\"status\":"@ + qstr(t@.status) + ",\"pnl\":"@ + opt_dec(t@.pnl) + ",\"zone_id\":"@ + opt_qstr(t@.zone_id) + ",\"zone_name\":"@ + opt_qstr(t@.zone_name) + ",\"planned_entry_id\":"@ + opt_qstr(t@.planned_entry_id) + ",\"risk_amount\":"@, dec(t@.risk_amount));
        assert(out@ == start + ("{\"id\":"@ + qstr(t@.id) + ",\"date\":"@ + qstr(t@.date) + ",\"pair\":"@ + qstr(t@.pair) + ",\"trade_type\":"@ + qstr(t@.trade_type) + ",\"entry\":"@ + dec(t@.entry) + ",\"exit\":"@ + opt_dec(t@.exit) + ",\"stop_loss\":"@ + dec(t@.stop_loss) + ",\"take_profit\":"@ + dec(t@.take_profit) + ",\"size\":"@ + dec(t@.size) + ",\"status\":"@ + qstr(t@.status) + ",\"pnl\":"@ + opt_dec(t@.pnl) + ",\"zone_id\":"@ + opt_qstr(t@.zone_id) + ",\"zone_name\":"@ + opt_qstr(t@.zone_name) + ",\"planned_entry_id\":"@ + opt_qstr(t@.planned_entry_id) + ",\"risk_amount\":"@ + dec(t@.risk_amount)));
    }
    out.append(",\"risk_ratio\":");
    proof {
        vstd::seq_lib::lemma_concat_associative(start, "{\"id\":"@ + qstr(t@.id) + ",\"date\":"@ + qstr(t@.date) + ",\"pair\":"@ + qstr(t@.pair) + ",\"trade_type\":"@ + qstr(t@.trade_type) + ",\"entry\":"@ + dec(t@.entry) + ",\"exit\":"@ + opt_dec(t@.exit) + ",\"stop_loss\":"@ + dec(t@.stop_loss) + ",\"take_profit\":"@ + dec(t@.take_profit) + ",\"size\":"@ + dec(t@.size) + ",\"status\":"@ + qstr(t@.status) + ",\"pnl\":"@ + opt_dec(t@.pnl) + ",\"zone_id\":"@ + opt_qstr(t@.zone_id) + ",\"zone_name\":"@ + opt_qstr(t@.zone_name) + ",\"planned_entry_id\":"@ + opt_qstr(t@.planned_entry_id) + ",\"risk_amount\":"@ + dec(t@.risk_amount), ",\"risk_ratio\":"@);
        assert(out@ == start + ("{\"id\":"@ + qstr(t@.id) + ",\"date\":"@ + qstr(t@.date) + ",\"pair\":"@ + qstr(t@.pair) + ",\"trade_type\":"@ + qstr(t@.trade_type) + ",\"entry\":"@ + dec(t@.entry) + ",\"exit\":"@ + opt_dec(t@.exit) + ",\"stop_loss\":"@ + dec(t@.stop_loss) + ",\"take_profit\":"@ + dec(t@.take_profit) + ",\"size\":"@ + dec(t@.size) + ",\"status\":"@ + qstr(t@.status) + ",\"pnl\":"@ + opt_dec(t@.pnl) + ",\"zone_id\":"@ + opt_qstr(t@.zone_id) + ",\"zone_name\":"@ + opt_qstr(t@.zone_name) + ",\"planned_entry_id\":"@ + opt_qstr(t@.planned_entry_id) + ",\"risk_amount\":"@ + dec(t@.risk_amount) + ",\"risk_ratio\":"@));
    }
    emit_u64(out, t.risk_ratio);
    proof {
        vstd::seq_lib::lemma_concat_associative(start, "{\"id\":"@ + qstr(t@.id) + ",\"date\":"@ + qstr(t@.date) + ",\"pair\":"@ + qstr(t@.pair) + ",\"trade_type\":"@ + qstr(t@.trade_type) + ",\"entry\":"@ + dec(t@.entry) + ",\"exit\":"@ + opt_dec(t@.exit) + ",\"stop_loss\":"@ + dec(t@.stop_loss) + ",\"take_profit\":"@ + dec(t@.take_profit) + ",\"size\":"@ + dec(t@.size) + ",\"status\":"@ + qstr(t@.status) + ",\"pnl\":"@ + opt_dec(t@.pnl) + ",\"zone_id\":"@ + opt_qstr(t@.zone_id) + ",\"zone_name\":"@ + opt_qstr(t@.zone_name) + ",\"planned_entry_id\":"@ + opt_qstr(t@.planned_entry_id) + ",\"risk_amount\":"@ + dec(t@.risk_amount) + ",\"risk_ratio\":"@, dec(t@.risk_ratio));
        assert(out@ == start + ("{\"id\":"@ + qstr(t@.id) + ",\"date\":"@ + qstr(t@.date) + ",\"pair\":"@ + qstr(t@.pair) + ",\"trade_type\":"@ + qstr(t@.trade_type) + ",\"entry\":"@ + dec(t@.entry) + ",\"exit\":"@ + opt_dec(t@.exit) + ",\"stop_loss\":"@ + dec(t@.stop_loss) + ",\"take_profit\":"@ + dec(t@.take_profit) + ",\"size\":"@ + dec(t@.size) + ",\"status\":"@ + qstr(t@.status) + ",\"pnl\":"@ + opt_dec(t@.pnl) + ",\"zone_id\":"@ + opt_qstr(t@.zone_id) + ",\"zone_name\":"@ + opt_qstr(t@.zone_name) + ",\"planned_entry_id\":"@ + opt_qstr(t@.planned_entry_id) + ",\"risk_amount\":"@ + dec(t@.risk_amount) + ",\"risk_ratio\":"@ + dec(t@.risk_ratio)));
    }
    out.append(",\"notes\":");
    proof {
        vstd::seq_lib::lemma_concat_associative(start, "{\"id\":"@ + qstr(t@.id) + ",\"date\":"@ + qstr(t@.date) + ",\"pair\":"@ + qstr(t@.pair) + ",\"trade_type\":"@ + qstr(t@.trade_type) + ",\"entry\":"@ + dec(t@.entry) + ",\"exit\":"@ + opt_dec(t@.exit) + ",\"stop_loss\":"@ + dec(t@.stop_loss) + ",\"take_profit\":"@ + dec(t@.take_profit) + ",\"size\":"@ + dec(t@.size) + ",\"status\":"@ + qstr(t@.status) + ",\"pnl\":"@ + opt_dec(t@.pnl) + ",\"zone_id\":"@ + opt_qstr(t@.zone_id) + ",\"zone_name\":"@ + opt_qstr(t@.zone_name) + ",\"planned_entry_id\":"@ + opt_qstr(t@.planned_entry_id) + ",\"risk_amount\":"@ + dec(t@.risk_amount) + ",\"risk_ratio\":"@ + dec(t@.risk_ratio), ",\"notes\":"@);
        assert(out@ == start + ("{\"id\":"@ + qstr(t@.id) + ",\"date\":"@ + qstr(t@.date) + ",\"pair\":"@ + qstr(t@.pair) + ",\"trade_type\":"@ + qstr(t@.trade_type) + ",\"entry\":"@ + dec(t@.entry) + ",\"exit\":"@ + opt_dec(t@.exit) + ",\"stop_loss\":"@ + dec(t@.stop_loss) + ",\"take_profit\":"@ + dec(t@.take_profit) + ",\"size\":"@ + dec(t@.size) + ",\"status\":"@ + qstr(t@.status) + ",\"pnl\":"@ + opt_dec(t@.pnl) + ",\"zone_id\":"@ + opt_qstr(t@.zone_id) + ",\"zone_name\":"@ + opt_qstr(t@.zone_name) + ",\"planned_entry_id\":"@ + opt_qstr(t@.planned_entry_id) + ",\"risk_amount\":"@ + dec(t@.risk_amount) + ",\"risk_ratio\":"@ + dec(t@.risk_ratio) + ",\"notes\":"@));
    }
    emit_opt_str(out, &t.notes);
    proof {
        vstd::seq_lib::lemma_concat_associative(start, "{\"id\":"@ + qstr(t@.id) + ",\"date\":"@ + qstr(t@.date) + ",\"pair\":"@ + qstr(t@.pair) + ",\"trade_type\":"@ + qstr(t@.trade_type) + ",\"entry\":"@ + dec(t@.entry) + ",\"exit\":"@ + opt_dec(t@.exit) + ",\"stop_loss\":"@ + dec(t@.stop_loss) + ",\"take_profit\":"@ + dec(t@.take_profit) + ",\"size\":"@ + dec(t@.size) + ",\"status\":"@ + qstr(t@.status) + ",\"pnl\":"@ + opt_dec(t@.pnl) + ",\"zone_id\":"@ + opt_qstr(t@.zone_id) + ",\"zone_name\":"@ + opt_qstr(t@.zone_name) + ",\"planned_entry_id\":"@ + opt_qstr(t@.planned_entry_id) + ",\"risk_amount\":"@ + dec(t@.risk_amount) + ",\"risk_ratio\":"@ + dec(t@.risk_ratio) + ",\"notes\":"@, opt_qstr(t@.notes));
        assert(out@ == start + ("{\"id\":"@ + qstr(t@.id) + ",\"date\":"@ + qstr(t@.date) + ",\"pair\":"@ + qstr(t@.pair) + ",\"trade_type\":"@ + qstr(t@.trade_type) + ",\"entry\":"@ + dec(t@.entry) + ",\"exit\":"@ + opt_dec(t@.exit) + ",\"stop_loss\":"@ + dec(t@.stop_loss) + ",\"take_profit\":"@ + dec(t@.take_profit) + ",\"size\":"@ + dec(t@.size) + ",\"status\":"@ + qstr(t@.status) + ",\"pnl\":"@ + opt_dec(t@.pnl) + ",\"zone_id\":"@ + opt_qstr(t@.zone_id) + ",\"zone_name\":"@ + opt_qstr(t@.zone_name) + ",\"planned_entry_id\":"@ + opt_qstr(t@.planned_entry_id) + ",\"risk_amount\":"@ + dec(t@.risk_amount) + ",\"risk_ratio\":"@ + dec(t@.risk_ratio) + ",\"notes\":"@ + opt_qstr(t@.notes)));
    }
    out.append(",\"created_at\":");
    proof {
        vstd::seq_lib::lemma_concat_associative(start, "{\"id\":"@ + qstr(t@.id) + ",\"date\":"@ + qstr(t@.date) + ",\"pair\":"@ + qstr(t@.pair) + ",\"trade_type\":"@ + qstr(t@.trade_type) + ",\"entry\":"@ + dec(t@.entry) + ",\"exit\":"@ + opt_dec(t@.exit) + ",\"stop_loss\":"@ + dec(t@.stop_loss) + ",\"take_profit\":"@ + dec(t@.take_profit) + ",\"size\":"@ + dec(t@.size) + ",\"status\":"@ + qstr(t@.status) + ",\"pnl\":"@ + opt_dec(t@.pnl) + ",\"zone_id\":"@ + opt_qstr(t@.zone_id) + ",\"zone_name\":"@ + opt_qstr(t@.zone_name) + ",\"planned_entry_id\":"@ + opt_qstr(t@.planned_entry_id) + ",\"risk_amount\":"@ + dec(t@.risk_amount) + ",\"risk_ratio\":"@ + dec(t@.risk_ratio) + ",\"notes\":"@ + opt_qstr(t@.notes), ",\"created_at\":"@);
        assert(out@ == start + ("{\"id\":"@ + qstr(t@.id) + ",\"date\":"@ + qstr(t@.date) + ",\"pair\":"@ + qstr(t@.pair) + ",\"trade_type\":"@ + qstr(t@.trade_type) + ",\"entry\":"@ + dec(t@.entry) + ",\"exit\":"@ + opt_dec(t@.exit) + ",\"stop_loss\":"@ + dec(t@.stop_loss) + ",\"take_profit\":"@ + dec(t@.take_profit) + ",\"size\":"@ + dec(t@.size) + ",\"status\":"@ + qstr(t@.status) + ",\"pnl\":"@ + opt_dec(t@.pnl) + ",\"zone_id\":"@ + opt_qstr(t@.zone_id) + ",\"zone_name\":"@ + opt_qstr(t@.zone_name) + ",\"planned_entry_id\":"@ + opt_qstr(t@.planned_entry_id) + ",\"risk_amount\":"@ + dec(t@.risk_amount) + ",\"risk_ratio\":"@ + dec(t@.risk_ratio) + ",\"notes\":"@ + opt_qstr(t@.notes) + ",\"created_at\":"@));
    }
    emit_str(out, t.created_at.as_str());
    proof {
        vstd::seq_lib::lemma_concat_associative(start, "{\"id\":"@ + qstr(t@.id) + ",\"date\":"@ + qstr(t@.date) + ",\"pair\":"@ + qstr(t@.pair) + ",\"trade_type\":"@ + qstr(t@.trade_type) + ",\"entry\":"@ + dec(t@.entry) + ",\"exit\":"@ + opt_dec(t@.exit) + ",\"stop_loss\":"@ + dec(t@.stop_loss) + ",\"take_profit\":"@ + dec(t@.take_profit) + ",\"size\":"@ + dec(t@.size) + ",\"status\":"@ + qstr(t@.status) + ",\"pnl\":"@ + opt_dec(t@.pnl) + ",\"zone_id\":"@ + opt_qstr(t@.zone_id) + ",\"zone_name\":"@ + opt_qstr(t@.zone_name) + ",\"planned_entry_id\":"@ + opt_qstr(t@.planned_entry_id) + ",\"risk_amount\":"@ + dec(t@.risk_amount) + ",\"risk_ratio\":"@ + dec(t@.risk_ratio) + ",\"notes\":"@ + opt_qstr(t@.notes) + ",\"created_at\":"@, qstr(t@.created_at));
        assert(out@ == start + ("{\"id\":"@ + qstr(t@.id) + ",\"date\":"@ + qstr(t@.date) + ",\"pair\":"@ + qstr(t@.pair) + ",\"trade_type\":"@ + qstr(t@.trade_type) + ",\"entry\":"@ + dec(t@.entry) + ",\"exit\":"@ + opt_dec(t@.exit) + ",\"stop_loss\":"@ + dec(t@.stop_loss) + ",\"take_profit\":"@ + dec(t@.take_profit) + ",\"size\":"@ + dec(t@.size) + ",\"status\":"@ + qstr(t@.status) + ",\"pnl\":"@ + opt_dec(t@.pnl) + ",\"zone_id\":"@ + opt_qstr(t@.zone_id) + ",\"zone_name\":"@ + opt_qstr(t@.zone_name) + ",\"planned_entry_id\":"@ + opt_qstr(t@.planned_entry_id) + ",\"risk_amount\":"@ + dec(t@.risk_amount) + ",\"risk_ratio\":"@ + dec(t@.risk_ratio) + ",\"notes\":"@ + opt_qstr(t@.notes) + ",\"created_at\":"@ + qstr(t@.created_at)));
    }
    out.append(",\"updated_at\":");
    proof {
        vstd::seq_lib::lemma_concat_associative(start, "{\"id\":"@ + qstr(t@.id) + ",\"date\":"@ + qstr(t@.date) + ",\"pair\":"@ + qstr(t@.pair) + ",\"trade_type\":"@ + qstr(t@.trade_type) + ",\"entry\":"@ + dec(t@.entry) + ",\"exit\":"@ + opt_dec(t@.exit) + ",\"stop_loss\":"@ + dec(t@.stop_loss) + ",\"take_profit\":"@ + dec(t@.take_profit) + ",\"size\":"@ + dec(t@.size) + ",\"status\":"@ + qstr(t@.status) + ",\"pnl\":"@ + opt_dec(t@.pnl) + ",\"zone_id\":"@ + opt_qstr(t@.zone_id) + ",\"zone_name\":"@ + opt_qstr(t@.zone_name) + ",\"planned_entry_id\":"@ + opt_qstr(t@.planned_entry_id) + ",\"risk_amount\":"@ + dec(t@.risk_amount) + ",\"risk_ratio\":"@ + dec(t@.risk_ratio) + ",\"notes\":"@ + opt_qstr(t@.notes) + ",\"created_at\":"@ + qstr(t@.created_at), ",\"updated_at\":"@);
        assert(out@ == start + ("{\"id\":"@ + qstr(t@.id) + ",\"date\":"@ + qstr(t@.date) + ",\"pair\":"@ + qstr(t@.pair) + ",\"trade_type\":"@ + qstr(t@.trade_type) + ",\"entry\":"@ + dec(t@.entry) + ",\"exit\":"@ + opt_dec(t@.exit) + ",\"stop_loss\":"@ + dec(t@.stop_loss) + ",\"take_profit\":"@ + dec(t@.take_profit) + ",\"size\":"@ + dec(t@.size) + ",\"status\":"@ + qstr(t@.status) + ",\"pnl\":"@ + opt_dec(t@.pnl) + ",\"zone_id\":"@ + opt_qstr(t@.zone_id) + ",\"zone_name\":"@ + opt_qstr(t@.zone_name) + ",\"planned_entry_id\":"@ + opt_qstr(t@.planned_entry_id) + ",\"risk_amount\":"@ + dec(t@.risk_amount) + ",\"risk_ratio\":"@ + dec(t@.risk_ratio) + ",\"notes\":"@ + opt_qstr(t@.notes) + ",\"created_at\":"@ + qstr(t@.created_at) + ",\"updated_at\":"@));
    }
    emit_str(out, t.updated_at.as_str());
    proof {
        vstd::seq_lib::lemma_concat_associative(start, "{\"id\":"@ + qstr(t@.id) + ",\"date\":"@ + qstr(t@.date) + ",\"pair\":"@ + qstr(t@.pair) + ",\"trade_type\":"@ + qstr(t@.trade_type) + ",\"entry\":"@ + dec(t@.entry) + ",\"exit\":"@ + opt_dec(t@.exit) + ",\"stop_loss\":"@ + dec(t@.stop_loss) + ",\"take_profit\":"@ + dec(t@.take_profit) + ",\"size\":"@ + dec(t@.size) + ",\"status\":"@ + qstr(t@.status) + ",\"pnl\":"@ + opt_dec(t@.pnl) + ",\"zone_id\":"@ + opt_qstr(t@.zone_id) + ",\"zone_name\":"@ + opt_qstr(t@.zone_name) + ",\"planned_entry_id\":"@ + opt_qstr(t@.planned_entry_id) + ",\"risk_amount\":"@ + dec(t@.risk_amount) + ",\"risk_ratio\":"@ + dec(t@.risk_ratio) + ",\"notes\":"@ + opt_qstr(t@.notes) + ",\"created_at\":"@ + qstr(t@.created_at) + ",\"updated_at\":"@, qstr(t@.updated_at));
        assert(out@ == start + ("{\"id\":"@ + qstr(t@.id) + ",\"date\":"@ + qstr(t@.date) + ",\"pair\":"@ + qstr(t@.pair) + ",\"trade_type\":"@ + qstr(t@.trade_type) + ",\"entry\":"@ + dec(t@.entry) + ",\"exit\":"@ + opt_dec(t@.exit) + ",\"stop_loss\":"@ + dec(t@.stop_loss) + ",\"take_profit\":"@ + dec(t@.take_profit) + ",\"size\":"@ + dec(t@.size) + ",\"status\":"@ + qstr(t@.status) + ",\"pnl\":"@ + opt_dec(t@.pnl) + ",\"zone_id\":"@ + opt_qstr(t@.zone_id) + ",\"zone_name\":"@ + opt_qstr(t@.zone_name) + ",\"planned_entry_id\":"@ + opt_qstr(t@.planned_entry_id) + ",\"risk_amount\":"@ + dec(t@.risk_amount) + ",\"risk_ratio\":"@ + dec(t@.risk_ratio) + ",\"notes\":"@ + opt_qstr(t@.notes) + ",\"created_at\":"@ + qstr(t@.created_at) + ",\"updated_at\":"@ + qstr(t@.updated_at)));
    }
    out.append("}");
    proof {
        vstd::seq_lib::lemma_concat_associative(start, "{\"id\":"@ + qstr(t@.id) + ",\"date\":"@ + qstr(t@.date) + ",\"pair\":"@ + qstr(t@.pair) + ",\"trade_type\":"@ + qstr(t@.trade_type) + ",\"entry\":"@ + dec(t@.entry) + ",\"exit\":"@ + opt_dec(t@.exit) + ",\"stop_loss\":"@ + dec(t@.stop_loss) + ",\"take_profit\":"@ + dec(t@.take_profit) + ",\"size\":"@ + dec(t@.size) + ",\"status\":"@ + qstr(t@.status) + ",\"pnl\":"@ + opt_dec(t@.pnl) + ",\"zone_id\":"@ + opt_qstr(t@.zone_id) + ",\"zone_name\":"@ + opt_qstr(t@.zone_name) + ",\"planned_entry_id\":"@ + opt_qstr(t@.planned_entry_id) + ",\"risk_amount\":"@ + dec(t@.risk_amount) + ",\"risk_ratio\":"@ + dec(t@.risk_ratio) + ",\"notes\":"@ + opt_qstr(t@.notes) + ",\"created_at\":"@ + qstr(t@.created_at) + ",\"updated_at\":"@ + qstr(t@.updated_at), "}"@);
        assert(out@ == start + ("{\"id\":"@ + qstr(t@.id) + ",\"date\":"@ + qstr(t@.date) + ",\"pair\":"@ + qstr(t@.pair) + ",\"trade_type\":"@ + qstr(t@.trade_type) + ",\"entry\":"@ + dec(t@.entry) + ",\"exit\":"@ + opt_dec(t@.exit) + ",\"stop_loss\":"@ + dec(t@.stop_loss) + ",\"take_profit\":"@ + dec(t@.take_profit) + ",\"size\":"@ + dec(t@.size) + ",\"status\":"@ + qstr(t@.status) + ",\"pnl\":"@ + opt_dec(t@.pnl) + ",\"zone_id\":"@ + opt_qstr(t@.zone_id) + ",\"zone_name\":"@ + opt_qstr(t@.zone_name) + ",\"planned_entry_id\":"@ + opt_qstr(t@.planned_entry_id) + ",\"risk_amount\":"@ + dec(t@.risk_amount) + ",\"risk_ratio\":"@ + dec(t@.risk_ratio) + ",\"notes\":"@ + opt_qstr(t@.notes) + ",\"created_at\":"@ + qstr(t@.created_at) + ",\"updated_at\":"@ + qstr(t@.updated_at) + "}"@));
    }
    proof {
        assert(out@ == start + trade_json(t@));
    }
}

/// The text of the whole trade array.
pub open spec fn trades_arr(ts: Seq<TradeModel>) -> Seq<char> {
    seq!['['] + join_comma(ts.map_values(|t: TradeModel| trade_json(t))) + seq![']']
}

fn emit_trades(out: &mut String, v: &Vec<TradeRecord>)
    ensures
        final(out)@ == old(out)@ + trades_arr(v@.map_values(|x: TradeRecord| x@)),
{
    let ghost start = out@;
    let ghost models = v@.map_values(|x: TradeRecord| x@);
    out.push('[');
    let mut i: usize = 0;
    proof {
        assert(models.subrange(0, 0) =~= Seq::<TradeModel>::empty());
        assert(models.subrange(0, 0).map_values(|t: TradeModel| trade_json(t)) =~= Seq::<Seq<
            char,
        >>::empty());
        assert(out@ =~= start + seq!['['] + join_comma(
            models.subrange(0, 0).map_values(|t: TradeModel| trade_json(t)),
        ));
    }
    while i < v.len()
        invariant
            i <= v.len(),
            models == v@.map_values(|x: TradeRecord| x@),
            out@ == start + seq!['['] + join_comma(
                models.subrange(0, i as int).map_values(|t: TradeModel| trade_json(t)),
            ),
        decreases v.len() - i,
    {
        let ghost es = models.subrange(0, i as int).map_values(|t: TradeModel| trade_json(t));
        let ghost pre = out@;
        if i > 0 {
            out.push(',');
        }
        emit_trade(out, &v[i]);
        proof {
            let es2 = models.subrange(0, i + 1 as int).map_values(|t: TradeModel| trade_json(t));
            assert(es2.drop_last() =~= es);
            assert(es2.last() == trade_json(models[i as int]));
            if i == 0 {
                assert(out@ =~= start + seq!['['] + join_comma(es2));
            } else {
                assert(out@ =~= start + seq!['['] + join_comma(es2));
            }
        }
        i += 1;
    }
    out.push(']');
    proof {
        assert(models.subrange(0, i as int) =~= models);
        assert(out@ =~= start + trades_arr(models));
    }
}

/// The text of one zone record.
pub open spec fn zone_json(t: ZoneModel) -> Seq<char> {
    "{\"id\":"@ + qstr(t.id)
        + ",\"zone_type\":"@ + qstr(t.zone_type)
        + ",\"name\":"@ + qstr(t.name)
        + ",\"start_price\":"@ + dec(t.start_price)
        + ",\"end_price\":"@ + dec(t.end_price)
        + ",\"strength\":"@ + qstr(t.strength)
        + ",\"break_strength\":"@ + opt_qstr(t.break_strength)
        + ",\"position\":"@ + opt_qstr(t.position)
        + ",\"liquidity_type\":"@ + opt_qstr(t.liquidity_type)
        + ",\"order_block_relation\":"@ + opt_qstr(t.order_block_relation)
        + ",\"notes\":"@ + qstr(t.notes)
        + ",\"date\":"@ + qstr(t.date)
        + ",\"active\":"@ + bool_lit(t.active)
        + ",\"created_at\":"@ + qstr(t.created_at)
        + ",\"updated_at\":"@ + qstr(t.updated_at) + "}"@
}

fn emit_zone(out: &mut String, t: &ZoneRecord)
    ensures
        final(out)@ == old(out)@ + zone_json(t@),
{
    let ghost start = out@;
    out.append("{\"id\":");
    proof {
        assert(out@ == start + "{\"id\":"@);
    }
    emit_str(out, t.id.as_str());
    proof {
        vstd::seq_lib::lemma_concat_associative(start, "{\"id\":"@, qstr(t@.id));
        assert(out@ == start + ("{\"id\":"@ + qstr(t@.id)));
    }
    out.append(",\"zone_type\":");
    proof {
        vstd::seq_lib::lemma_concat_associative(start, "{\"id\":"@ + qstr(t@.id), ",\"zone_type\":"@);
        assert(out@ == start + ("{\"id\":"@ + qstr(t@.id) + ",\"zone_type\":"@));
    }
    emit_str(out, t.zone_type.as_str());
    proof {
        vstd::seq_lib::lemma_concat_associative(start, "{\"id\":"@ + qstr(t@.id) + ",\"zone_type\":"@, qstr(t@.zone_type));
        assert(out@ == start + ("{\"id\":"@ + qstr(t@.id) + ",\"zone_type\":"@ + qstr(t@.zone_type)));
    }
    out.append(",\"name\":");
    proof {
        vstd::seq_lib::lemma_concat_associative(start, "{\"id\":"@ + qstr(t@.id) + ",\"zone_type\":"@ + qstr(t@.zone_type), ",\"name\":"@);
        assert(out@ == start + ("{\"id\":"@ + qstr(t@.id) + ",\"zone_type\":"@ + qstr(t@.zone_type) + ",\"name\":"@));
    }
    emit_str(out, t.name.as_str());
    proof {
        vstd::seq_lib::lemma_concat_associative(start, "{\"id\":"@ + qstr(t@.id) + ",\"zone_type\":"@ + qstr(t@.zone_type) + ",\"name\":"@, qstr(t@.name));
        assert(out@ == start + ("{\"id\":"@ + qstr(t@.id) + ",\"zone_type\":"@ + qstr(t@.zone_type) + ",\"name\":"@ + qstr(t@.name)));
    }
    out.append(",\"start_price\":");
    proof {
        vstd::seq_lib::lemma_concat_associative(start, "{\"id\":"@ + qstr(t@.id) + ",\"zone_type\":"@ + qstr(t@.zone_type) + ",\"name\":"@ + qstr(t@.name), ",\"start_price\":"@);
        assert(out@ == start + ("{\"id\":"@ + qstr(t@.id) + ",\"zone_type\":"@ + qstr(t@.zone_type) + ",\"name\":"@ + qstr(t@.name) + ",\"start_price\":"@));
    }
    emit_u64(out, t.start_price);
    proof {
        vstd::seq_lib::lemma_concat_associative(start, "{\"id\":"@ + qstr(t@.id) + ",\"zone_type\":"@ + qstr(t@.zone_type) + ",\"name\":"@ + qstr(t@.name) + ",\"start_price\":"@, dec(t@.start_price));
        assert(out@ == start + ("{\"id\":"@ + qstr(t@.id) + ",\"zone_type\":"@ + qstr(t@.zone_type) + ",\"name\":"@ + qstr(t@.name) + ",\"start_price\":"@ + dec(t@.start_price)));
    }
    out.append(",\"end_price\":");
    proof {
        vstd::seq_lib::lemma_concat_associative(start, "{\"id\":"@ + qstr(t@.id) + ",\"zone_type\":"@ + qstr(t@.zone_type) + ",\"name\":"@ + qstr(t@.name) + ",\"start_price\":"@ + dec(t@.start_price), ",\"end_price\":"@);
        assert(out@ == start + ("{\"id\":"@ + qstr(t@.id) + ",\"zone_type\":"@ + qstr(t@.zone_type) + ",\"name\":"@ + qstr(t@.name) + ",\"start_price\":"@ + dec(t@.start_price) + ",\"end_price\":"@));
    }
    emit_u64(out, t.end_price);
    proof {
        vstd::seq_lib::lemma_concat_associative(start, "{\"id\":"@ + qstr(t@.id) + ",\"zone_type\":"@ + qstr(t@.zone_type) + ",\"name\":"@ + qstr(t@.name) + ",\"start_price\":"@ + dec(t@.start_price) + ",\"end_price\":"@, dec(t@.end_price));
        assert(out@ == start + ("{\"id\":"@ + qstr(t@.id) + ",\"zone_type\":"@ + qstr(t@.zone_type) + ",\"name\":"@ + qstr(t@.name) + ",\"start_price\":"@ + dec(t@.start_price) + ",\"end_price\":"@ + dec(t@.end_price)));
    }
    out.append(",\"strength\":");
    proof {
        vstd::seq_lib::lemma_concat_associative(start, "{\"id\":"@ + qstr(t@.id) + ",\"zone_type\":"@ + qstr(t@.zone_type) + ",\"name\":"@ + qstr(t@.name) + ",\"start_price\":"@ + dec(t@.start_price) + ",\"end_price\":"@ + dec(t@.end_price), ",\"strength\":"@);
        assert(out@ == start + ("{\"id\":"@ + qstr(t@.id) + ",\"zone_type\":"@ + qstr(t@.zone_type) + ",\"name\":"@ + qstr(t@.name) + ",\"start_price\":"@ + dec(t@.start_price) + ",\"end_price\":"@ + dec(t@.end_price) + ",\"strength\":"@));
    }
    emit_str(out, t.strength.as_str());
    proof {
        vstd::seq_lib::lemma_concat_associative(start, "{\"id\":"@ + qstr(t@.id) + ",\"zone_type\":"@ + qstr(t@.zone_type) + ",\"name\":"@ + qstr(t@.name) + ",\"start_price\":"@ + dec(t@.start_price) + ",\"end_price\":"@ + dec(t@.end_price) + ",\"strength\":"@, qstr(t@.strength));
        assert(out@ == start + ("{\"id\":"@ + qstr(t@.id) + ",\"zone_type\":"@ + qstr(t@.zone_type) + ",\"name\":"@ + qstr(t@.name) + ",\"start_price\":"@ + dec(t@.start_price) + ",\"end_price\":"@ + dec(t@.end_price) + ",\"strength\":"@ + qstr(t@.strength)));
    }
    out.append(",\"break_strength\":");
    proof {
        vstd::seq_lib::lemma_concat_associative(start, "{\"id\":"@ + qstr(t@.id) + ",\"zone_type\":"@ + qstr(t@.zone_type) + ",\"name\":"@ + qstr(t@.name) + ",\"start_price\":"@ + dec(t@.start_price) + ",\"end_price\":"@ + dec(t@.end_price) + ",\"strength\":"@ + qstr(t@.strength), ",\"break_strength\":"@);
        assert(out@ == start + ("{\"id\":"@ + qstr(t@.id) + ",\"zone_type\":"@ + qstr(t@.zone_type) + ",\"name\":"@ + qstr(t@.name) + ",\"start_price\":"@ + dec(t@.start_price) + ",\"end_price\":"@ + dec(t@.end_price) + ",\"strength\":"@ + qstr(t@.strength) + ",\"break_strength\":"@));
    }
    emit_opt_str(out, &t.break_strength);
    proof {
        vstd::seq_lib::lemma_concat_associative(start, "{\"id\":"@ + qstr(t@.id) + ",\"zone_type\":"@ + qstr(t@.zone_type) + ",\"name\":"@ + qstr(t@.name) + ",\"start_price\":"@ + dec(t@.start_price) + ",\"end_price\":"@ + dec(t@.end_price) + ",\"strength\":"@ + qstr(t@.strength) + ",\"break_strength\":"@, opt_qstr(t@.break_strength));
        assert(out@ == start + ("{\"id\":"@ + qstr(t@.id) + ",\"zone_type\":"@ + qstr(t@.zone_type) + ",\"name\":"@ + qstr(t@.name) + ",\"start_price\":"@ + dec(t@.start_price) + ",\"end_price\":"@ + dec(t@.end_price) + ",\"strength\":"@ + qstr(t@.strength) + ",\"break_strength\":"@ + opt_qstr(t@.break_strength)));
    }
    out.append(",\"position\":");
    proof {
        vstd::seq_lib::lemma_concat_associative(start, "{\"id\":"@ + qstr(t@.id) + ",\"zone_type\":"@ + qstr(t@.zone_type) + ",\"name\":"@ + qstr(t@.name) + ",\"start_price\":"@ + dec(t@.start_price) + ",\"end_price\":"@ + dec(t@.end_price) + ",\"strength\":"@ + qstr(t@.strength) + ",\"break_strength\":"@ + opt_qstr(t@.break_strength), ",\"position\":"@);
        assert(out@ == start + ("{\"id\":"@ + qstr(t@.id) + ",\"zone_type\":"@ + qstr(t@.zone_type) + ",\"name\":"@ + qstr(t@.name) + ",\"start_price\":"@ + dec(t@.start_price) + ",\"end_price\":"@ + dec(t@.end_price) + ",\"strength\":"@ + qstr(t@.strength) + ",\"break_strength\":"@ + opt_qstr(t@.break_strength) + ",\"position\":"@));
    }
    emit_opt_str(out, &t.position);
    proof {
        vstd::seq_lib::lemma_concat_associative(start, "{\"id\":"@ + qstr(t@.id) + ",\"zone_type\":"@ + qstr(t@.zone_type) + ",\"name\":"@ + qstr(t@.name) + ",\"start_price\":"@ + dec(t@.start_price) + ",\"end_price\":"@ + dec(t@.end_price) + ",\"strength\":"@ + qstr(t@.strength) + ",\"break_strength\":"@ + opt_qstr(t@.break_strength) + ",\"position\":"@, opt_qstr(t@.position));
        assert(out@ == start + ("{\"id\":"@ + qstr(t@.id) + ",\"zone_type\":"@ + qstr(t@.zone_type) + ",\"name\":"@ + qstr(t@.name) + ",\"start_price\":"@ + dec(t@.start_price) + ",\"end_price\":"@ + dec(t@.end_price) + ",\"strength\":"@ + qstr(t@.strength) + ",\"break_strength\":"@ + opt_qstr(t@.break_strength) + ",\"position\":"@ + opt_qstr(t@.position)));
    }
    out.append(",\"liquidity_type\":");
    proof {
        vstd::seq_lib::lemma_concat_associative(start, "{\"id\":"@ + qstr(t@.id) + ",\"zone_type\":"@ + qstr(t@.zone_type) + ",\"name\":"@ + qstr(t@.name) + ",\"start_price\":"@ + dec(t@.start_price) + ",\"end_price\":"@ + dec(t@.end_price) + ",\"strength\":"@ + qstr(t@.strength) + ",\"break_strength\":"@ + opt_qstr(t@.break_strength) + ",\"position\":"@ + opt_qstr(t@.position), ",\"liquidity_type\":"@);
        assert(out@ == start + ("{\"id\":"@ + qstr(t@.id) + ",\"zone_type\":"@ + qstr(t@.zone_type) + ",\"name\":"@ + qstr(t@.name) + ",\"start_price\":"@ + dec(t@.start_price) + ",\"end_price\":"@ + dec(t@.end_price) + ",\"strength\":"@ + qstr(t@.strength) + ",\"break_strength\":"@ + opt_qstr(t@.break_strength) + ",\"position\":"@ + opt_qstr(t@.position) + ",\"liquidity_type\":"@));
    }
    emit_opt_str(out, &t.liquidity_type);
    proof {
        vstd::seq_lib::lemma_concat_associative(start, "{\"id\":"@ + qstr(t@.id) + ",\"zone_type\":"@ + qstr(t@.zone_type) + ",\"name\":"@ + qstr(t@.name) + ",\"start_price\":"@ + dec(t@.start_price) + ",\"end_price\":"@ + dec(t@.end_price) + ",\"strength\":"@ + qstr(t@.strength) + ",\"break_strength\":"@ + opt_qstr(t@.break_strength) + ",\"position\":"@ + opt_qstr(t@.position) + ",\"liquidity_type\":"@, opt_qstr(t@.liquidity_type));
        assert(out@ == start + ("{\"id\":"@ + qstr(t@.id) + ",\"zone_type\":"@ + qstr(t@.zone_type) + ",\"name\":"@ + qstr(t@.name) + ",\"start_price\":"@ + dec(t@.start_price) + ",\"end_price\":"@ + dec(t@.end_price) + ",\"strength\":"@ + qstr(t@.strength) + ",\"break_strength\":"@ + opt_qstr(t@.break_strength) + ",\"position\":"@ + opt_qstr(t@.position) + ",\"liquidity_type\":"@ + opt_qstr(t@.liquidity_type)));
    }
    out.append(",\"order_block_relation\":");
    proof {
        vstd::seq_lib::lemma_concat_associative(start, "{\"id\":"@ + qstr(t@.id) + ",\"zone_type\":"@ + qstr(t@.zone_type) + ",\"name\":"@ + qstr(t@.name) + ",\"start_price\":"@ + dec(t@.start_price) + ",\"end_price\":"@ + dec(t@.end_price) + ",\"strength\":"@ + qstr(t@.strength) + ",\"break_strength\":"@ + opt_qstr(t@.break_strength) + ",\"position\":"@ + opt_qstr(t@.position) + ",\"liquidity_type\":"@ + opt_qstr(t@.liquidity_type), ",\"order_block_relation\":"@);
        assert(out@ == start + ("{\"id\":"@ + qstr(t@.id) + ",\"zone_type\":"@ + qstr(t@.zone_type) + ",\"name\":"@ + qstr(t@.name) + ",\"start_price\":"@ + dec(t@.start_price) + ",\"end_price\":"@ + dec(t@.end_price) + ",\"strength\":"@ + qstr(t@.strength) + ",\"break_strength\":"@ + opt_qstr(t@.break_strength) + ",\"position\":"@ + opt_qstr(t@.position) + ",\"liquidity_type\":"@ + opt_qstr(t@.liquidity_type) + ",\"order_block_relation\":"@));
    }
    emit_opt_str(out, &t.order_block_relation);
    proof {
        vstd::seq_lib::lemma_concat_associative(start, "{\"id\":"@ + qstr(t@.id) + ",\"zone_type\":"@ + qstr(t@.zone_type) + ",\"name\":"@ + qstr(t@.name) + ",\"start_price\":"@ + dec(t@.start_price) + ",\"end_price\":"@ + dec(t@.end_price) + ",\"strength\":"@ + qstr(t@.strength) + ",\"break_strength\":"@ + opt_qstr(t@.break_strength) + ",\"position\":"@ + opt_qstr(t@.position) + ",\"liquidity_type\":"@ + opt_qstr(t@.liquidity_type) + ",\"order_block_relation\":"@, opt_qstr(t@.order_block_relation));
        assert(out@ == start + ("{\"id\":"@ + qstr(t@.id) + ",\"zone_type\":"@ + qstr(t@.zone_type) + ",\"name\":"@ + qstr(t@.name) + ",\"start_price\":"@ + dec(t@.start_price) + ",\"end_price\":"@ + dec(t@.end_price) + ",\"strength\":"@ + qstr(t@.strength) + ",\"break_strength\":"@ + opt_qstr(t@.break_strength) + ",\"position\":"@ + opt_qstr(t@.position) + ",\"liquidity_type\":"@ + opt_qstr(t@.liquidity_type) + ",\"order_block_relation\":"@ + opt_qstr(t@.order_block_relation)));
    }
    out.append(",\"notes\":");
    proof {
        vstd::seq_lib::lemma_concat_associative(start, "{\"id\":"@ + qstr(t@.id) + ",\"zone_type\":"@ + qstr(t@.zone_type) + ",\"name\":"@ + qstr(t@.name) + ",\"start_price\":"@ + dec(t@.start_price) + ",\"end_price\":"@ + dec(t@.end_price) + ",\"strength\":"@ + qstr(t@.strength) + ",\"break_strength\":"@ + opt_qstr(t@.break_strength) + ",\"position\":"@ + opt_qstr(t@.position) + ",\"liquidity_type\":"@ + opt_qstr(t@.liquidity_type) + ",\"order_block_relation\":"@ + opt_qstr(t@.order_block_relation), ",\"notes\":"@);
        assert(out@ == start + ("{\"id\":"@ + qstr(t@.id) + ",\"zone_type\":"@ + qstr(t@.zone_type) + ",\"name\":"@ + qstr(t@.name) + ",\"start_price\":"@ + dec(t@.start_price) + ",\"end_price\":"@ + dec(t@.end_price) + ",\"strength\":"@ + qstr(t@.strength) + ",\"break_strength\":"@ + opt_qstr(t@.break_strength) + ",\"position\":"@ + opt_qstr(t@.position) + ",\"liquidity_type\":"@ + opt_qstr(t@.liquidity_type) + ",\"order_block_relation\":"@ + opt_qstr(t@.order_block_relation) + ",\"notes\":"@));
    }
    emit_str(out, t.notes.as_str());
    proof {
        vstd::seq_lib::lemma_concat_associative(start, "{\"id\":"@ + qstr(t@.id) + ",\"zone_type\":"@ + qstr(t@.zone_type) + ",\"name\":"@ + qstr(t@.name) + ",\"start_price\":"@ + dec(t@.start_price) + ",\"end_price\":"@ + dec(t@.end_price) + ",\"strength\":"@ + qstr(t@.strength) + ",\"break_strength\":"@ + opt_qstr(t@.break_strength) + ",\"position\":"@ + opt_qstr(t@.position) + ",\"liquidity_type\":"@ + opt_qstr(t@.liquidity_type) + ",\"order_block_relation\":"@ + opt_qstr(t@.order_block_relation) + ",\"notes\":"@, qstr(t@.notes));
        assert(out@ == start + ("{\"id\":"@ + qstr(t@.id) + ",\"zone_type\":"@ + qstr(t@.zone_type) + ",\"name\":"@ + qstr(t@.name) + ",\"start_price\":"@ + dec(t@.start_price) + ",\"end_price\":"@ + dec(t@.end_price) + ",\"strength\":"@ + qstr(t@.strength) + ",\"break_strength\":"@ + opt_qstr(t@.break_strength) + ",\"position\":"@ + opt_qstr(t@.position) + ",\"liquidity_type\":"@ + opt_qstr(t@.liquidity_type) + ",\"order_block_relation\":"@ + opt_qstr(t@.order_block_relation) + ",\"notes\":"@ + qstr(t@.notes)));
    }
    out.append(",\"date\":");
    proof {
        vstd::seq_lib::lemma_concat_associative(start, "{\"id\":"@ + qstr(t@.id) + ",\"zone_type\":"@ + qstr(t@.zone_type) + ",\"name\":"@ + qstr(t@.name) + ",\"start_price\":"@ + dec(t@.start_price) + ",\"end_price\":"@ + dec(t@.end_price) + ",\"strength\":"@ + qstr(t@.strength) + ",\"break_strength\":"@ + opt_qstr(t@.break_strength) + ",\"position\":"@ + opt_qstr(t@.position) + ",\"liquidity_type\":"@ + opt_qstr(t@.liquidity_type) + ",\"order_block_relation\":"@ + opt_qstr(t@.order_block_relation) + ",\"notes\":"@ + qstr(t@.notes), ",\"date\":"@);
        assert(out@ == start + ("{\"id\":"@ + qstr(t@.id) + ",\"zone_type\":"@ + qstr(t@.zone_type) + ",\"name\":"@ + qstr(t@.name) + ",\"start_price\":"@ + dec(t@.start_price) + ",\"end_price\":"@ + dec(t@.end_price) + ",\"strength\":"@ + qstr(t@.strength) + ",\"break_strength\":"@ + opt_qstr(t@.break_strength) + ",\"position\":"@ + opt_qstr(t@.position) + ",\"liquidity_type\":"@ + opt_qstr(t@.liquidity_type) + ",\"order_block_relation\":"@ + opt_qstr(t@.order_block_relation) + ",\"notes\":"@ + qstr(t@.notes) + ",\"date\":"@));
    }
    emit_str(out, t.date.as_str());
    proof {
        vstd::seq_lib::lemma_concat_associative(start, "{\"id\":"@ + qstr(t@.id) + ",\"zone_type\":"@ + qstr(t@.zone_type) + ",\"name\":"@ + qstr(t@.name) + ",\"start_price\":"@ + dec(t@.start_price) + ",\"end_price\":"@ + dec(t@.end_price) + ",\"strength\":"@ + qstr(t@.strength) + ",\"break_strength\":"@ + opt_qstr(t@.break_strength) + ",\"position\":"@ + opt_qstr(t@.position) + ",\"liquidity_type\":"@ + opt_qstr(t@.liquidity_type) + ",\"order_block_relation\":"@ + opt_qstr(t@.order_block_relation) + ",\"notes\":"@ + qstr(t@.notes) + ",\"date\":"@, qstr(t@.date));
        assert(out@ == start + ("{\"id\":"@ + qstr(t@.id) + ",\"zone_type\":"@ + qstr(t@.zone_type) + ",\"name\":"@ + qstr(t@.name) + ",\"start_price\":"@ + dec(t@.start_price) + ",\"end_price\":"@ + dec(t@.end_price) + ",\"strength\":"@ + qstr(t@.strength) + ",\"break_strength\":"@ + opt_qstr(t@.break_strength) + ",\"position\":"@ + opt_qstr(t@.position) + ",\"liquidity_type\":"@ + opt_qstr(t@.liquidity_type) + ",\"order_block_relation\":"@ + opt_qstr(t@.order_block_relation) + ",\"notes\":"@ + qstr(t@.notes) + ",\"date\":"@ + qstr(t@.date)));
    }
    out.append(",\"active\":");
    proof {
        vstd::seq_lib::lemma_concat_associative(start, "{\"id\":"@ + qstr(t@.id) + ",\"zone_type\":"@ + qstr(t@.zone_type) + ",\"name\":"@ + qstr(t@.name) + ",\"start_price\":"@ + dec(t@.start_price) + ",\"end_price\":"@ + dec(t@.end_price) + ",\"strength\":"@ + qstr(t@.strength) + ",\"break_strength\":"@ + opt_qstr(t@.break_strength) + ",\"position\":"@ + opt_qstr(t@.position) + ",\"liquidity_type\":"@ + opt_qstr(t@.liquidity_type) + ",\"order_block_relation\":"@ + opt_qstr(t@.order_block_relation) + ",\"notes\":"@ + qstr(t@.notes) + ",\"date\":"@ + qstr(t@.date), ",\"active\":"@);
        assert(out@ == start + ("{\"id\":"@ + qstr(t@.id) + ",\"zone_type\":"@ + qstr(t@.zone_type) + ",\"name\":"@ + qstr(t@.name) + ",\"start_price\":"@ + dec(t@.start_price) + ",\"end_price\":"@ + dec(t@.end_price) + ",\"strength\":"@ + qstr(t@.strength) + ",\"break_strength\":"@ + opt_qstr(t@.break_strength) + ",\"position\":"@ + opt_qstr(t@.position) + ",\"liquidity_type\":"@ + opt_qstr(t@.liquidity_type) + ",\"order_block_relation\":"@ + opt_qstr(t@.order_block_relation) + ",\"notes\":"@ + qstr(t@.notes) + ",\"date\":"@ + qstr(t@.date) + ",\"active\":"@));
    }
    emit_bool(out, t.active);
    proof {
        vstd::seq_lib::lemma_concat_associative(start, "{\"id\":"@ + qstr(t@.id) + ",\"zone_type\":"@ + qstr(t@.zone_type) + ",\"name\":"@ + qstr(t@.name) + ",\"start_price\":"@ + dec(t@.start_price) + ",\"end_price\":"@ + dec(t@.end_price) + ",\"strength\":"@ + qstr(t@.strength) + ",\"break_strength\":"@ + opt_qstr(t@.break_strength) + ",\"position\":"@ + opt_qstr(t@.position) + ",\"liquidity_type\":"@ + opt_qstr(t@.liquidity_type) + ",\"order_block_relation\":"@ + opt_qstr(t@.order_block_relation) + ",\"notes\":"@ + qstr(t@.notes) + ",\"date\":"@ + qstr(t@.date) + ",\"active\":"@, bool_lit(t@.active));
        assert(out@ == start + ("{\"id\":"@ + qstr(t@.id) + ",\"zone_type\":"@ + qstr(t@.zone_type) + ",\"name\":"@ + qstr(t@.name) + ",\"start_price\":"@ + dec(t@.start_price) + ",\"end_price\":"@ + dec(t@.end_price) + ",\"strength\":"@ + qstr(t@.strength) + ",\"break_strength\":"@ + opt_qstr(t@.break_strength) + ",\"position\":"@ + opt_qstr(t@.position) + ",\"liquidity_type\":"@ + opt_qstr(t@.liquidity_type) + ",\"order_block_relation\":"@ + opt_qstr(t@.order_block_relation) + ",\"notes\":"@ + qstr(t@.notes) + ",\"date\":"@ + qstr(t@.date) + ",\"active\":"@ + bool_lit(t@.active)));
    }
    out.append(",\"created_at\":");
    proof {
        vstd::seq_lib::lemma_concat_associative(start, "{\"id\":"@ + qstr(t@.id) + ",\"zone_type\":"@ + qstr(t@.zone_type) + ",\"name\":"@ + qstr(t@.name) + ",\"start_price\":"@ + dec(t@.start_price) + ",\"end_price\":"@ + dec(t@.end_price) + ",\"strength\":"@ + qstr(t@.strength) + ",\"break_strength\":"@ + opt_qstr(t@.break_strength) + ",\"position\":"@ + opt_qstr(t@.position) + ",\"liquidity_type\":"@ + opt_qstr(t@.liquidity_type) + ",\"order_block_relation\":"@ + opt_qstr(t@.order_block_relation) + ",\"notes\":"@ + qstr(t@.notes) + ",\"date\":"@ + qstr(t@.date) + ",\"active\":"@ + bool_lit(t@.active), ",\"created_at\":"@);
        assert(out@ == start + ("{\"id\":"@ + qstr(t@.id) + ",\"zone_type\":"@ + qstr(t@.zone_type) + ",\"name\":"@ + qstr(t@.name) + ",\"start_price\":"@ + dec(t@.start_price) + ",\"end_price\":"@ + dec(t@.end_price) + ",\"strength\":"@ + qstr(t@.strength) + ",\"break_strength\":"@ + opt_qstr(t@.break_strength) + ",\"position\":"@ + opt_qstr(t@.position) + ",\"liquidity_type\":"@ + opt_qstr(t@.liquidity_type) + ",\"order_block_relation\":"@ + opt_qstr(t@.order_block_relation) + ",\"notes\":"@ + qstr(t@.notes) + ",\"date\":"@ + qstr(t@.date) + ",\"active\":"@ + bool_lit(t@.active) + ",\"created_at\":"@));
    }
    emit_str(out, t.created_at.as_str());
    proof {
        vstd::seq_lib::lemma_concat_associative(start, "{\"id\":"@ + qstr(t@.id) + ",\"zone_type\":"@ + qstr(t@.zone_type) + ",\"name\":"@ + qstr(t@.name) + ",\"start_price\":"@ + dec(t@.start_price) + ",\"end_price\":"@ + dec(t@.end_price) + ",\"strength\":"@ + qstr(t@.strength) + ",\"break_strength\":"@ + opt_qstr(t@.break_strength) + ",\"position\":"@ + opt_qstr(t@.position) + ",\"liquidity_type\":"@ + opt_qstr(t@.liquidity_type) + ",\"order_block_relation\":"@ + opt_qstr(t@.order_block_relation) + ",\"notes\":"@ + qstr(t@.notes) + ",\"date\":"@ + qstr(t@.date) + ",\"active\":"@ + bool_lit(t@.active) + ",\"created_at\":"@, qstr(t@.created_at));
        assert(out@ == start + ("{\"id\":"@ + qstr(t@.id) + ",\"zone_type\":"@ + qstr(t@.zone_type) + ",\"name\":"@ + qstr(t@.name) + ",\"start_price\":"@ + dec(t@.start_price) + ",\"end_price\":"@ + dec(t@.end_price) + ",\"strength\":"@ + qstr(t@.strength) + ",\"break_strength\":"@ + opt_qstr(t@.break_strength) + ",\"position\":"@ + opt_qstr(t@.position) + ",\"liquidity_type\":"@ + opt_qstr(t@.liquidity_type) + ",\"order_block_relation\":"@ + opt_qstr(t@.order_block_relation) + ",\"notes\":"@ + qstr(t@.notes) + ",\"date\":"@ + qstr(t@.date) + ",\"active\":"@ + bool_lit(t@.active) + ",\"created_at\":"@ + qstr(t@.created_at)));
    }
    out.append(",\"updated_at\":");
    proof {
        vstd::seq_lib::lemma_concat_associative(start, "{\"id\":"@ + qstr(t@.id) + ",\"zone_type\":"@ + qstr(t@.zone_type) + ",\"name\":"@ + qstr(t@.name) + ",\"start_price\":"@ + dec(t@.start_price) + ",\"end_price\":"@ + dec(t@.end_price) + ",\"strength\":"@ + qstr(t@.strength) + ",\"break_strength\":"@ + opt_qstr(t@.break_strength) + ",\"position\":"@ + opt_qstr(t@.position) + ",\"liquidity_type\":"@ + opt_qstr(t@.liquidity_type) + ",\"order_block_relation\":"@ + opt_qstr(t@.order_block_relation) + ",\"notes\":"@ + qstr(t@.notes) + ",\"date\":"@ + qstr(t@.date) + ",\"active\":"@ + bool_lit(t@.active) + ",\"created_at\":"@ + qstr(t@.created_at), ",\"updated_at\":"@);
        assert(out@ == start + ("{\"id\":"@ + qstr(t@.id) + ",\"zone_type\":"@ + qstr(t@.zone_type) + ",\"name\":"@ + qstr(t@.name) + ",\"start_price\":"@ + dec(t@.start_price) + ",\"end_price\":"@ + dec(t@.end_price) + ",\"strength\":"@ + qstr(t@.strength) + ",\"break_strength\":"@ + opt_qstr(t@.break_strength) + ",\"position\":"@ + opt_qstr(t@.position) + ",\"liquidity_type\":"@ + opt_qstr(t@.liquidity_type) + ",\"order_block_relation\":"@ + opt_qstr(t@.order_block_relation) + ",\"notes\":"@ + qstr(t@.notes) + ",\"date\":"@ + qstr(t@.date) + ",\"active\":"@ + bool_lit(t@.active) + ",\"created_at\":"@ + qstr(t@.created_at) + ",\"updated_at\":"@));
    }
    emit_str(out, t.updated_at.as_str());
    proof {
        vstd::seq_lib::lemma_concat_associative(start, "{\"id\":"@ + qstr(t@.id) + ",\"zone_type\":"@ + qstr(t@.zone_type) + ",\"name\":"@ + qstr(t@.name) + ",\"start_price\":"@ + dec(t@.start_price) + ",\"end_price\":"@ + dec(t@.end_price) + ",\"strength\":"@ + qstr(t@.strength) + ",\"break_strength\":"@ + opt_qstr(t@.break_strength) + ",\"position\":"@ + opt_qstr(t@.position) + ",\"liquidity_type\":"@ + opt_qstr(t@.liquidity_type) + ",\"order_block_relation\":"@ + opt_qstr(t@.order_block_relation) + ",\"notes\":"@ + qstr(t@.notes) + ",\"date\":"@ + qstr(t@.date) + ",\"active\":"@ + bool_lit(t@.active) + ",\"created_at\":"@ + qstr(t@.created_at) + ",\"updated_at\":"@, qstr(t@.updated_at));
        assert(out@ == start + ("{\"id\":"@ + qstr(t@.id) + ",\"zone_type\":"@ + qstr(t@.zone_type) + ",\"name\":"@ + qstr(t@.name) + ",\"start_price\":"@ + dec(t@.start_price) + ",\"end_price\":"@ + dec(t@.end_price) + ",\"strength\":"@ + qstr(t@.strength) + ",\"break_strength\":"@ + opt_qstr(t@.break_strength) + ",\"position\":"@ + opt_qstr(t@.position) + ",\"liquidity_type\":"@ + opt_qstr(t@.liquidity_type) + ",\"order_block_relation\":"@ + opt_qstr(t@.order_block_relation) + ",\"notes\":"@ + qstr(t@.notes) + ",\"date\":"@ + qstr(t@.date) + ",\"active\":"@ + bool_lit(t@.active) + ",\"created_at\":"@ + qstr(t@.created_at) + ",\"updated_at\":"@ + qstr(t@.updated_at)));
    }
    out.append("}");
    proof {
        vstd::seq_lib::lemma_concat_associative(start, "{\"id\":"@ + qstr(t@.id) + ",\"zone_type\":"@ + qstr(t@.zone_type) + ",\"name\":"@ + qstr(t@.name) + ",\"start_price\":"@ + dec(t@.start_price) + ",\"end_price\":"@ + dec(t@.end_price) + ",\"strength\":"@ + qstr(t@.strength) + ",\"break_strength\":"@ + opt_qstr(t@.break_strength) + ",\"position\":"@ + opt_qstr(t@.position) + ",\"liquidity_type\":"@ + opt_qstr(t@.liquidity_type) + ",\"order_block_relation\":"@ + opt_qstr(t@.order_block_relation) + ",\"notes\":"@ + qstr(t@.notes) + ",\"date\":"@ + qstr(t@.date) + ",\"active\":"@ + bool_lit(t@.active) + ",\"created_at\":"@ + qstr(t@.created_at) + ",\"updated_at\":"@ + qstr(t@.updated_at), "}"@);
        assert(out@ == start + ("{\"id\":"@ + qstr(t@.id) + ",\"zone_type\":"@ + qstr(t@.zone_type) + ",\"name\":"@ + qstr(t@.name) + ",\"start_price\":"@ + dec(t@.start_price) + ",\"end_price\":"@ + dec(t@.end_price) + ",\"strength\":"@ + qstr(t@.strength) + ",\"break_strength\":"@ + opt_qstr(t@.break_strength) + ",\"position\":"@ + opt_qstr(t@.position) + ",\"liquidity_type\":"@ + opt_qstr(t@.liquidity_type) + ",\"order_block_relation\":"@ + opt_qstr(t@.order_block_relation) + ",\"notes\":"@ + qstr(t@.notes) + ",\"date\":"@ + qstr(t@.date) + ",\"active\":"@ + bool_lit(t@.active) + ",\"created_at\":"@ + qstr(t@.created_at) + ",\"updated_at\":"@ + qstr(t@.updated_at) + "}"@));
    }
    proof {
        assert(out@ == start + zone_json(t@));
    }
}

/// The text of the whole zone array.
pub open spec fn zones_arr(ts: Seq<ZoneModel>) -> Seq<char> {
    seq!['['] + join_comma(ts.map_values(|t: ZoneModel| zone_json(t))) + seq![']']
}

fn emit_zones(out: &mut String, v: &Vec<ZoneRecord>)
    ensures
        final(out)@ == old(out)@ + zones_arr(v@.map_values(|x: ZoneRecord| x@)),
{
    let ghost start = out@;
    let ghost models = v@.map_values(|x: ZoneRecord| x@);
    out.push('[');
    let mut i: usize = 0;
    proof {
        assert(models.subrange(0, 0) =~= Seq::<ZoneModel>::empty());
        assert(models.subrange(0, 0).map_values(|t: ZoneModel| zone_json(t)) =~= Seq::<Seq<
            char,
        >>::empty());
        assert(out@ =~= start + seq!['['] + join_comma(
            models.subrange(0, 0).map_values(|t: ZoneModel| zone_json(t)),
        ));
    }
    while i < v.len()
        invariant
            i <= v.len(),
            models == v@.map_values(|x: ZoneRecord| x@),
            out@ == start + seq!['['] + join_comma(
                models.subrange(0, i as int).map_values(|t: ZoneModel| zone_json(t)),
            ),
        decreases v.len() - i,
    {
        let ghost es = models.subrange(0, i as int).map_values(|t: ZoneModel| zone_json(t));
        let ghost pre = out@;
        if i > 0 {
            out.push(',');
        }
        emit_zone(out, &v[i]);
        proof {
            let es2 = models.subrange(0, i + 1 as int).map_values(|t: ZoneModel| zone_json(t));
            assert(es2.drop_last() =~= es);
            assert(es2.last() == zone_json(models[i as int]));
            if i == 0 {
                assert(out@ =~= start + seq!['['] + join_comma(es2));
            } else {
                assert(out@ =~= start + seq!['['] + join_comma(es2));
            }
        }
        i += 1;
    }
    out.push(']');
    proof {
        assert(models.subrange(0, i as int) =~= models);
        assert(out@ =~= start + zones_arr(models));
    }
}

/// The text of one planned-entry record.
pub open spec fn entry_json(t: PlannedEntryModel) -> Seq<char> {
    "{\"id\":"@ + qstr(t.id)
        + ",\"zone_id\":"@ + qstr(t.zone_id)
        + ",\"zone_name\":"@ + qstr(t.zone_name)
        + ",\"zone_type\":"@ + qstr(t.zone_type)
        + ",\"entry_level\":"@ + dec(t.entry_level)
        + ",\"take_profit\":"@ + dec(t.take_profit)
        + ",\"stop_loss\":"@ + dec(t.stop_loss)
        + ",\"risk_ratio\":"@ + dec(t.risk_ratio)
        + ",\"planned_entries\":"@ + i32_lit(t.planned_entries)
        + ",\"notes\":"@ + qstr(t.notes)
        + ",\"created_at\":"@ + qstr(t.created_at)
        + ",\"updated_at\":"@ + qstr(t.updated_at) + "}"@
}

fn emit_entry(out: &mut String, t: &PlannedEntryRecord)
    ensures
        final(out)@ == old(out)@ + entry_json(t@),
{
    let ghost start = out@;
    out.append("{\"id\":");
    proof {
        assert(out@ == start + "{\"id\":"@);
    }
    emit_str(out, t.id.as_str());
    proof {
        vstd::seq_lib::lemma_concat_associative(start, "{\"id\":"@, qstr(t@.id));
        assert(out@ == start + ("{\"id\":"@ + qstr(t@.id)));
    }
    out.append(",\"zone_id\":");
    proof {
        vstd::seq_lib::lemma_concat_associative(start, "{\"id\":"@ + qstr(t@.id), ",\"zone_id\":"@);
        assert(out@ == start + ("{\"id\":"@ + qstr(t@.id) + ",\"zone_id\":"@));
    }
    emit_str(out, t.zone_id.as_str());
    proof {
        vstd::seq_lib::lemma_concat_associative(start, "{\"id\":"@ + qstr(t@.id) + ",\"zone_id\":"@, qstr(t@.zone_id));
        assert(out@ == start + ("{\"id\":"@ + qstr(t@.id) + ",\"zone_id\":"@ + qstr(t@.zone_id)));
    }
    out.append(",\"zone_name\":");
    proof {
        vstd::seq_lib::lemma_concat_associative(start, "{\"id\":"@ + qstr(t@.id) + ",\"zone_id\":"@ + qstr(t@.zone_id), ",\"zone_name\":"@);
        assert(out@ == start + ("{\"id\":"@ + qstr(t@.id) + ",\"zone_id\":"@ + qstr(t@.zone_id) + ",\"zone_name\":"@));
    }
    emit_str(out, t.zone_name.as_str());
    proof {
        vstd::seq_lib::lemma_concat_associative(start, "{\"id\":"@ + qstr(t@.id) + ",\"zone_id\":"@ + qstr(t@.zone_id) + ",\"zone_name\":"@, qstr(t@.zone_name));
        assert(out@ == start + ("{\"id\":"@ + qstr(t@.id) + ",\"zone_id\":"@ + qstr(t@.zone_id) + ",\"zone_name\":"@ + qstr(t@.zone_name)));
    }
    out.append(",\"zone_type\":");
    proof {
        vstd::seq_lib::lemma_concat_associative(start, "{\"id\":"@ + qstr(t@.id) + ",\"zone_id\":"@ + qstr(t@.zone_id) + ",\"zone_name\":"@ + qstr(t@.zone_name), ",\"zone_type\":"@);
        assert(out@ == start + ("{\"id\":"@ + qstr(t@.id) + ",\"zone_id\":"@ + qstr(t@.zone_id) + ",\"zone_name\":"@ + qstr(t@.zone_name) + ",\"zone_type\":"@));
    }
    emit_str(out, t.zone_type.as_str());
    proof {
        vstd::seq_lib::lemma_concat_associative(start, "{\"id\":"@ + qstr(t@.id) + ",\"zone_id\":"@ + qstr(t@.zone_id) + ",\"zone_name\":"@ + qstr(t@.zone_name) + ",\"zone_type\":"@, qstr(t@.zone_type));
        assert(out@ == start + ("{\"id\":"@ + qstr(t@.id) + ",\"zone_id\":"@ + qstr(t@.zone_id) + ",\"zone_name\":"@ + qstr(t@.zone_name) + ",\"zone_type\":"@ + qstr(t@.zone_type)));
    }
    out.append(",\"entry_level\":");
    proof {
        vstd::seq_lib::lemma_concat_associative(start, "{\"id\":"@ + qstr(t@.id) + ",\"zone_id\":"@ + qstr(t@.zone_id) + ",\"zone_name\":"@ + qstr(t@.zone_name) + ",\"zone_type\":"@ + qstr(t@.zone_type), ",\"entry_level\":"@);
        assert(out@ == start + ("{\"id\":"@ + qstr(t@.id) + ",\"zone_id\":"@ + qstr(t@.zone_id) + ",\"zone_name\":"@ + qstr(t@.zone_name) + ",\"zone_type\":"@ + qstr(t@.zone_type) + ",\"entry_level\":"@));
    }
    emit_u64(out, t.entry_level);
    proof {
        vstd::seq_lib::lemma_concat_associative(start, "{\"id\":"@ + qstr(t@.id) + ",\"zone_id\":"@ + qstr(t@.zone_id) + ",\"zone_name\":"@ + qstr(t@.zone_name) + ",\"zone_type\":"@ + qstr(t@.zone_type) + ",\"entry_level\":"@, dec(t@.entry_level));
        assert(out@ == start + ("{\"id\":"@ + qstr(t@.id) + ",\"zone_id\":"@ + qstr(t@.zone_id) + ",\"zone_name\":"@ + qstr(t@.zone_name) + ",\"zone_type\":"@ + qstr(t@.zone_type) + ",\"entry_level\":"@ + dec(t@.entry_level)));
    }
    out.append(",\"take_profit\":");
    proof {
        vstd::seq_lib::lemma_concat_associative(start, "{\"id\":"@ + qstr(t@.id) + ",\"zone_id\":"@ + qstr(t@.zone_id) + ",\"zone_name\":"@ + qstr(t@.zone_name) + ",\"zone_type\":"@ + qstr(t@.zone_type) + ",\"entry_level\":"@ + dec(t@.entry_level), ",\"take_profit\":"@);
        assert(out@ == start + ("{\"id\":"@ + qstr(t@.id) + ",\"zone_id\":"@ + qstr(t@.zone_id) + ",\"zone_name\":"@ + qstr(t@.zone_name) + ",\"zone_type\":"@ + qstr(t@.zone_type) + ",\"entry_level\":"@ + dec(t@.entry_level) + ",\"take_profit\":"@));
    }
    emit_u64(out, t.take_profit);
    proof {
        vstd::seq_lib::lemma_concat_associative(start, "{\"id\":"@ + qstr(t@.id) + ",\"zone_id\":"@ + qstr(t@.zone_id) + ",\"zone_name\":"@ + qstr(t@.zone_name) + ",\"zone_type\":"@ + qstr(t@.zone_type) + ",\"entry_level\":"@ + dec(t@.entry_level) + ",\"take_profit\":"@, dec(t@.take_profit));
        assert(out@ == start + ("{\"id\":"@ + qstr(t@.id) + ",\"zone_id\":"@ + qstr(t@.zone_id) + ",\"zone_name\":"@ + qstr(t@.zone_name) + ",\"zone_type\":"@ + qstr(t@.zone_type) + ",\"entry_level\":"@ + dec(t@.entry_level) + ",\"take_profit\":"@ + dec(t@.take_profit)));
    }
    out.append(",\"stop_loss\":");
    proof {
        vstd::seq_lib::lemma_concat_associative(start, "{\"id\":"@ + qstr(t@.id) + ",\"zone_id\":"@ + qstr(t@.zone_id) + ",\"zone_name\":"@ + qstr(t@.zone_name) + ",\"zone_type\":"@ + qstr(t@.zone_type) + ",\"entry_level\":"@ + dec(t@.entry_level) + ",\"take_profit\":"@ + dec(t@.take_profit), ",\"stop_loss\":"@);
        assert(out@ == start + ("{\"id\":"@ + qstr(t@.id) + ",\"zone_id\":"@ + qstr(t@.zone_id) + ",\"zone_name\":"@ + qstr(t@.zone_name) + ",\"zone_type\":"@ + qstr(t@.zone_type) + ",\"entry_level\":"@ + dec(t@.entry_level) + ",\"take_profit\":"@ + dec(t@.take_profit) + ",\"stop_loss\":"@));
    }
    emit_u64(out, t.stop_loss);
    proof {
        vstd::seq_lib::lemma_concat_associative(start, "{\"id\":"@ + qstr(t@.id) + ",\"zone_id\":"@ + qstr(t@.zone_id) + ",\"zone_name\":"@ + qstr(t@.zone_name) + ",\"zone_type\":"@ + qstr(t@.zone_type) + ",\"entry_level\":"@ + dec(t@.entry_level) + ",\"take_profit\":"@ + dec(t@.take_profit) + ",\"stop_loss\":"@, dec(t@.stop_loss));
        assert(out@ == start + ("{\"id\":"@ + qstr(t@.id) + ",\"zone_id\":"@ + qstr(t@.zone_id) + ",\"zone_name\":"@ + qstr(t@.zone_name) + ",\"zone_type\":"@ + qstr(t@.zone_type) + ",\"entry_level\":"@ + dec(t@.entry_level) + ",\"take_profit\":"@ + dec(t@.take_profit) + ",\"stop_loss\":"@ + dec(t@.stop_loss)));
    }
    out.append(",\"risk_ratio\":");
    proof {
        vstd::seq_lib::lemma_concat_associative(start, "{\"id\":"@ + qstr(t@.id) + ",\"zone_id\":"@ + qstr(t@.zone_id) + ",\"zone_name\":"@ + qstr(t@.zone_name) + ",\"zone_type\":"@ + qstr(t@.zone_type) + ",\"entry_level\":"@ + dec(t@.entry_level) + ",\"take_profit\":"@ + dec(t@.take_profit) + ",\"stop_loss\":"@ + dec(t@.stop_loss), ",\"risk_ratio\":"@);
        assert(out@ == start + ("{\"id\":"@ + qstr(t@.id) + ",\"zone_id\":"@ + qstr(t@.zone_id) + ",\"zone_name\":"@ + qstr(t@.zone_name) + ",\"zone_type\":"@ + qstr(t@.zone_type) + ",\"entry_level\":"@ + dec(t@.entry_level) + ",\"take_profit\":"@ + dec(t@.take_profit) + ",\"stop_loss\":"@ + dec(t@.stop_loss) + ",\"risk_ratio\":"@));
    }
    emit_u64(out, t.risk_ratio);
    proof {
        vstd::seq_lib::lemma_concat_associative(start, "{\"id\":"@ + qstr(t@.id) + ",\"zone_id\":"@ + qstr(t@.zone_id) + ",\"zone_name\":"@ + qstr(t@.zone_name) + ",\"zone_type\":"@ + qstr(t@.zone_type) + ",\"entry_level\":"@ + dec(t@.entry_level) + ",\"take_profit\":"@ + dec(t@.take_profit) + ",\"stop_loss\":"@ + dec(t@.stop_loss) + ",\"risk_ratio\":"@, dec(t@.risk_ratio));
        assert(out@ == start + ("{\"id\":"@ + qstr(t@.id) + ",\"zone_id\":"@ + qstr(t@.zone_id) + ",\"zone_name\":"@ + qstr(t@.zone_name) + ",\"zone_type\":"@ + qstr(t@.zone_type) + ",\"entry_level\":"@ + dec(t@.entry_level) + ",\"take_profit\":"@ + dec(t@.take_profit) + ",\"stop_loss\":"@ + dec(t@.stop_loss) + ",\"risk_ratio\":"@ + dec(t@.risk_ratio)));
    }
    out.append(",\"planned_entries\":");
    proof {
        vstd::seq_lib::lemma_concat_associative(start, "{\"id\":"@ + qstr(t@.id) + ",\"zone_id\":"@ + qstr(t@.zone_id) + ",\"zone_name\":"@ + qstr(t@.zone_name) + ",\"zone_type\":"@ + qstr(t@.zone_type) + ",\"entry_level\":"@ + dec(t@.entry_level) + ",\"take_profit\":"@ + dec(t@.take_profit) + ",\"stop_loss\":"@ + dec(t@.stop_loss) + ",\"risk_ratio\":"@ + dec(t@.risk_ratio), ",\"planned_entries\":"@);
        assert(out@ == start + ("{\"id\":"@ + qstr(t@.id) + ",\"zone_id\":"@ + qstr(t@.zone_id) + ",\"zone_name\":"@ + qstr(t@.zone_name) + ",\"zone_type\":"@ + qstr(t@.zone_type) + ",\"entry_level\":"@ + dec(t@.entry_level) + ",\"take_profit\":"@ + dec(t@.take_profit) + ",\"stop_loss\":"@ + dec(t@.stop_loss) + ",\"risk_ratio\":"@ + dec(t@.risk_ratio) + ",\"planned_entries\":"@));
    }
    emit_i32(out, t.planned_entries);
    proof {
        vstd::seq_lib::lemma_concat_associative(start, "{\"id\":"@ + qstr(t@.id) + ",\"zone_id\":"@ + qstr(t@.zone_id) + ",\"zone_name\":"@ + qstr(t@.zone_name) + ",\"zone_type\":"@ + qstr(t@.zone_type) + ",\"entry_level\":"@ + dec(t@.entry_level) + ",\"take_profit\":"@ + dec(t@.take_profit) + ",\"stop_loss\":"@ + dec(t@.stop_loss) + ",\"risk_ratio\":"@ + dec(t@.risk_ratio) + ",\"planned_entries\":"@, i32_lit(t@.planned_entries));
        assert(out@ == start + ("{\"id\":"@ + qstr(t@.id) + ",\"zone_id\":"@ + qstr(t@.zone_id) + ",\"zone_name\":"@ + qstr(t@.zone_name) + ",\"zone_type\":"@ + qstr(t@.zone_type) + ",\"entry_level\":"@ + dec(t@.entry_level) + ",\"take_profit\":"@ + dec(t@.take_profit) + ",\"stop_loss\":"@ + dec(t@.stop_loss) + ",\"risk_ratio\":"@ + dec(t@.risk_ratio) + ",\"planned_entries\":"@ + i32_lit(t@.planned_entries)));
    }
    out.append(",\"notes\":");
    proof {
        vstd::seq_lib::lemma_concat_associative(start, "{\"id\":"@ + qstr(t@.id) + ",\"zone_id\":"@ + qstr(t@.zone_id) + ",\"zone_name\":"@ + qstr(t@.zone_name) + ",\"zone_type\":"@ + qstr(t@.zone_type) + ",\"entry_level\":"@ + dec(t@.entry_level) + ",\"take_profit\":"@ + dec(t@.take_profit) + ",\"stop_loss\":"@ + dec(t@.stop_loss) + ",\"risk_ratio\":"@ + dec(t@.risk_ratio) + ",\"planned_entries\":"@ + i32_lit(t@.planned_entries), ",\"notes\":"@);
        assert(out@ == start + ("{\"id\":"@ + qstr(t@.id) + ",\"zone_id\":"@ + qstr(t@.zone_id) + ",\"zone_name\":"@ + qstr(t@.zone_name) + ",\"zone_type\":"@ + qstr(t@.zone_type) + ",\"entry_level\":"@ + dec(t@.entry_level) + ",\"take_profit\":"@ + dec(t@.take_profit) + ",\"stop_loss\":"@ + dec(t@.stop_loss) + ",\"risk_ratio\":"@ + dec(t@.risk_ratio) + ",\"planned_entries\":"@ + i32_lit(t@.planned_entries) + ",\"notes\":"@));
    }
    emit_str(out, t.notes.as_str());
    proof {
        vstd::seq_lib::lemma_concat_associative(start, "{\"id\":"@ + qstr(t@.id) + ",\"zone_id\":"@ + qstr(t@.zone_id) + ",\"zone_name\":"@ + qstr(t@.zone_name) + ",\"zone_type\":"@ + qstr(t@.zone_type) + ",\"entry_level\":"@ + dec(t@.entry_level) + ",\"take_profit\":"@ + dec(t@.take_profit) + ",\"stop_loss\":"@ + dec(t@.stop_loss) + ",\"risk_ratio\":"@ + dec(t@.risk_ratio) + ",\"planned_entries\":"@ + i32_lit(t@.planned_entries) + ",\"notes\":"@, qstr(t@.notes));
        assert(out@ == start + ("{\"id\":"@ + qstr(t@.id) + ",\"zone_id\":"@ + qstr(t@.zone_id) + ",\"zone_name\":"@ + qstr(t@.zone_name) + ",\"zone_type\":"@ + qstr(t@.zone_type) + ",\"entry_level\":"@ + dec(t@.entry_level) + ",\"take_profit\":"@ + dec(t@.take_profit) + ",\"stop_loss\":"@ + dec(t@.stop_loss) + ",\"risk_ratio\":"@ + dec(t@.risk_ratio) + ",\"planned_entries\":"@ + i32_lit(t@.planned_entries) + ",\"notes\":"@ + qstr(t@.notes)));
    }
    out.append(",\"created_at\":");
    proof {
        vstd::seq_lib::lemma_concat_associative(start, "{\"id\":"@ + qstr(t@.id) + ",\"zone_id\":"@ + qstr(t@.zone_id) + ",\"zone_name\":"@ + qstr(t@.zone_name) + ",\"zone_type\":"@ + qstr(t@.zone_type) + ",\"entry_level\":"@ + dec(t@.entry_level) + ",\"take_profit\":"@ + dec(t@.take_profit) + ",\"stop_loss\":"@ + dec(t@.stop_loss) + ",\"risk_ratio\":"@ + dec(t@.risk_ratio) + ",\"planned_entries\":"@ + i32_lit(t@.planned_entries) + ",\"notes\":"@ + qstr(t@.notes), ",\"created_at\":"@);
        assert(out@ == start + ("{\"id\":"@ + qstr(t@.id) + ",\"zone_id\":"@ + qstr(t@.zone_id) + ",\"zone_name\":"@ + qstr(t@.zone_name) + ",\"zone_type\":"@ + qstr(t@.zone_type) + ",\"entry_level\":"@ + dec(t@.entry_level) + ",\"take_profit\":"@ + dec(t@.take_profit) + ",\"stop_loss\":"@ + dec(t@.stop_loss) + ",\"risk_ratio\":"@ + dec(t@.risk_ratio) + ",\"planned_entries\":"@ + i32_lit(t@.planned_entries) + ",\"notes\":"@ + qstr(t@.notes) + ",\"created_at\":"@));
    }
    emit_str(out, t.created_at.as_str());
    proof {
        vstd::seq_lib::lemma_concat_associative(start, "{\"id\":"@ + qstr(t@.id) + ",\"zone_id\":"@ + qstr(t@.zone_id) + ",\"zone_name\":"@ + qstr(t@.zone_name) + ",\"zone_type\":"@ + qstr(t@.zone_type) + ",\"entry_level\":"@ + dec(t@.entry_level) + ",\"take_profit\":"@ + dec(t@.take_profit) + ",\"stop_loss\":"@ + dec(t@.stop_loss) + ",\"risk_ratio\":"@ + dec(t@.risk_ratio) + ",\"planned_entries\":"@ + i32_lit(t@.planned_entries) + ",\"notes\":"@ + qstr(t@.notes) + ",\"created_at\":"@, qstr(t@.created_at));
        assert(out@ == start + ("{\"id\":"@ + qstr(t@.id) + ",\"zone_id\":"@ + qstr(t@.zone_id) + ",\"zone_name\":"@ + qstr(t@.zone_name) + ",\"zone_type\":"@ + qstr(t@.zone_type) + ",\"entry_level\":"@ + dec(t@.entry_level) + ",\"take_profit\":"@ + dec(t@.take_profit) + ",\"stop_loss\":"@ + dec(t@.stop_loss) + ",\"risk_ratio\":"@ + dec(t@.risk_ratio) + ",\"planned_entries\":"@ + i32_lit(t@.planned_entries) + ",\"notes\":"@ + qstr(t@.notes) + ",\"created_at\":"@ + qstr(t@.created_at)));
    }
    out.append(",\"updated_at\":");
    proof {
        vstd::seq_lib::lemma_concat_associative(start, "{\"id\":"@ + qstr(t@.id) + ",\"zone_id\":"@ + qstr(t@.zone_id) + ",\"zone_name\":"@ + qstr(t@.zone_name) + ",\"zone_type\":"@ + qstr(t@.zone_type) + ",\"entry_level\":"@ + dec(t@.entry_level) + ",\"take_profit\":"@ + dec(t@.take_profit) + ",\"stop_loss\":"@ + dec(t@.stop_loss) + ",\"risk_ratio\":"@ + dec(t@.risk_ratio) + ",\"planned_entries\":"@ + i32_lit(t@.planned_entries) + ",\"notes\":"@ + qstr(t@.notes) + ",\"created_at\":"@ + qstr(t@.created_at), ",\"updated_at\":"@);
        assert(out@ == start + ("{\"id\":"@ + qstr(t@.id) + ",\"zone_id\":"@ + qstr(t@.zone_id) + ",\"zone_name\":"@ + qstr(t@.zone_name) + ",\"zone_type\":"@ + qstr(t@.zone_type) + ",\"entry_level\":"@ + dec(t@.entry_level) + ",\"take_profit\":"@ + dec(t@.take_profit) + ",\"stop_loss\":"@ + dec(t@.stop_loss) + ",\"risk_ratio\":"@ + dec(t@.risk_ratio) + ",\"planned_entries\":"@ + i32_lit(t@.planned_entries) + ",\"notes\":"@ + qstr(t@.notes) + ",\"created_at\":"@ + qstr(t@.created_at) + ",\"updated_at\":"@));
    }
    emit_str(out, t.updated_at.as_str());
    proof {
        vstd::seq_lib::lemma_concat_associative(start, "{\"id\":"@ + qstr(t@.id) + ",\"zone_id\":"@ + qstr(t@.zone_id) + ",\"zone_name\":"@ + qstr(t@.zone_name) + ",\"zone_type\":"@ + qstr(t@.zone_type) + ",\"entry_level\":"@ + dec(t@.entry_level) + ",\"take_profit\":"@ + dec(t@.take_profit) + ",\"stop_loss\":"@ + dec(t@.stop_loss) + ",\"risk_ratio\":"@ + dec(t@.risk_ratio) + ",\"planned_entries\":"@ + i32_lit(t@.planned_entries) + ",\"notes\":"@ + qstr(t@.notes) + ",\"created_at\":"@ + qstr(t@.created_at) + ",\"updated_at\":"@, qstr(t@.updated_at));
        assert(out@ == start + ("{\"id\":"@ + qstr(t@.id) + ",\"zone_id\":"@ + qstr(t@.zone_id) + ",\"zone_name\":"@ + qstr(t@.zone_name) + ",\"zone_type\":"@ + qstr(t@.zone_type) + ",\"entry_level\":"@ + dec(t@.entry_level) + ",\"take_profit\":"@ + dec(t@.take_profit) + ",\"stop_loss\":"@ + dec(t@.stop_loss) + ",\"risk_ratio\":"@ + dec(t@.risk_ratio) + ",\"planned_entries\":"@ + i32_lit(t@.planned_entries) + ",\"notes\":"@ + qstr(t@.notes) + ",\"created_at\":"@ + qstr(t@.created_at) + ",\"updated_at\":"@ + qstr(t@.updated_at)));
    }
    out.append("}");
    proof {
        vstd::seq_lib::lemma_concat_associative(start, "{\"id\":"@ + qstr(t@.id) + ",\"zone_id\":"@ + qstr(t@.zone_id) + ",\"zone_name\":"@ + qstr(t@.zone_name) + ",\"zone_type\":"@ + qstr(t@.zone_type) + ",\"entry_level\":"@ + dec(t@.entry_level) + ",\"take_profit\":"@ + dec(t@.take_profit) + ",\"stop_loss\":"@ + dec(t@.stop_loss) + ",\"risk_ratio\":"@ + dec(t@.risk_ratio) + ",\"planned_entries\":"@ + i32_lit(t@.planned_entries) + ",\"notes\":"@ + qstr(t@.notes) + ",\"created_at\":"@ + qstr(t@.created_at) + ",\"updated_at\":"@ + qstr(t@.updated_at), "}"@);
        assert(out@ == start + ("{\"id\":"@ + qstr(t@.id) + ",\"zone_id\":"@ + qstr(t@.zone_id) + ",\"zone_name\":"@ + qstr(t@.zone_name) + ",\"zone_type\":"@ + qstr(t@.zone_type) + ",\"entry_level\":"@ + dec(t@.entry_level) + ",\"take_profit\":"@ + dec(t@.take_profit) + ",\"stop_loss\":"@ + dec(t@.stop_loss) + ",\"risk_ratio\":"@ + dec(t@.risk_ratio) + ",\"planned_entries\":"@ + i32_lit(t@.planned_entries) + ",\"notes\":"@ + qstr(t@.notes) + ",\"created_at\":"@ + qstr(t@.created_at) + ",\"updated_at\":"@ + qstr(t@.updated_at) + "}"@));
    }
    proof {
        assert(out@ == start + entry_json(t@));
    }
}

/// The text of the whole planned-entry array.
pub open spec fn entries_arr(ts: Seq<PlannedEntryModel>) -> Seq<char> {
    seq!['['] + join_comma(ts.map_values(|t: PlannedEntryModel| entry_json(t))) + seq![']']
}

fn emit_entries(out: &mut String, v: &Vec<PlannedEntryRecord>)
    ensures
        final(out)@ == old(out)@ + entries_arr(v@.map_values(|x: PlannedEntryRecord| x@)),
{
    let ghost start = out@;
    let ghost models = v@.map_values(|x: PlannedEntryRecord| x@);
    out.push('[');
    let mut i: usize = 0;
    proof {
        assert(models.subrange(0, 0) =~= Seq::<PlannedEntryModel>::empty());
        assert(models.subrange(0, 0).map_values(|t: PlannedEntryModel| entry_json(t)) =~= Seq::<Seq<
            char,
        >>::empty());
        assert(out@ =~= start + seq!['['] + join_comma(
            models.subrange(0, 0).map_values(|t: PlannedEntryModel| entry_json(t)),
        ));
    }
    while i < v.len()
        invariant
            i <= v.len(),
            models == v@.map_values(|x: PlannedEntryRecord| x@),
            out@ == start + seq!['['] + join_comma(
                models.subrange(0, i as int).map_values(|t: PlannedEntryModel| entry_json(t)),
            ),
        decreases v.len() - i,
    {
        let ghost es = models.subrange(0, i as int).map_values(|t: PlannedEntryModel| entry_json(t));
        let ghost pre = out@;
        if i > 0 {
            out.push(',');
        }
        emit_entry(out, &v[i]);
        proof {
            let es2 = models.subrange(0, i + 1 as int).map_values(|t: PlannedEntryModel| entry_json(t));
            assert(es2.drop_last() =~= es);
            assert(es2.last() == entry_json(models[i as int]));
            if i == 0 {
                assert(out@ =~= start + seq!['['] + join_comma(es2));
            } else {
                assert(out@ =~= start + seq!['['] + join_comma(es2));
            }
        }
        i += 1;
    }
    out.push(']');
    proof {
        assert(models.subrange(0, i as int) =~= models);
        assert(out@ =~= start + entries_arr(models));
    }
}

/// The text of one setting record.
pub open spec fn setting_json(t: SettingModel) -> Seq<char> {
    "{\"key\":"@ + qstr(t.key)
        + ",\"value\":"@ + qstr(t.value)
        + ",\"updated_at\":"@ + qstr(t.updated_at) + "}"@
}

fn emit_setting(out: &mut String, t: &SettingRecord)
    ensures
        final(out)@ == old(out)@ + setting_json(t@),
{
    let ghost start = out@;
    out.append("{\"key\":");
    proof {
        assert(out@ == start + "{\"key\":"@);
    }
    emit_str(out, t.key.as_str());
    proof {
        vstd::seq_lib::lemma_concat_associative(start, "{\"key\":"@, qstr(t@.key));
        assert(out@ == start + ("{\"key\":"@ + qstr(t@.key)));
    }
    out.append(",\"value\":");
    proof {
        vstd::seq_lib::lemma_concat_associative(start, "{\"key\":"@ + qstr(t@.key), ",\"value\":"@);
        assert(out@ == start + ("{\"key\":"@ + qstr(t@.key) + ",\"value\":"@));
    }
    emit_str(out, t.value.as_str());
    proof {
        vstd::seq_lib::lemma_concat_associative(start, "{\"key\":"@ + qstr(t@.key) + ",\"value\":"@, qstr(t@.value));
        assert(out@ == start + ("{\"key\":"@ + qstr(t@.key) + ",\"value\":"@ + qstr(t@.value)));
    }
    out.append(",\"updated_at\":");
    proof {
        vstd::seq_lib::lemma_concat_associative(start, "{\"key\":"@ + qstr(t@.key) + ",\"value\":"@ + qstr(t@.value), ",\"updated_at\":"@);
        assert(out@ == start + ("{\"key\":"@ + qstr(t@.key) + ",\"value\":"@ + qstr(t@.value) + ",\"updated_at\":"@));
    }
    emit_str(out, t.updated_at.as_str());
    proof {
        vstd::seq_lib::lemma_concat_associative(start, "{\"key\":"@ + qstr(t@.key) + ",\"value\":"@ + qstr(t@.value) + ",\"updated_at\":"@, qstr(t@.updated_at));
        assert(out@ == start + ("{\"key\":"@ + qstr(t@.key) + ",\"value\":"@ + qstr(t@.value) + ",\"updated_at\":"@ + qstr(t@.updated_at)));
    }
    out.append("}");
    proof {
        vstd::seq_lib::lemma_concat_associative(start, "{\"key\":"@ + qstr(t@.key) + ",\"value\":"@ + qstr(t@.value) + ",\"updated_at\":"@ + qstr(t@.updated_at), "}"@);
        assert(out@ == start + ("{\"key\":"@ + qstr(t@.key) + ",\"value\":"@ + qstr(t@.value) + ",\"updated_at\":"@ + qstr(t@.updated_at) + "}"@));
    }
    proof {
        assert(out@ == start + setting_json(t@));
    }
}

/// The text of the whole setting array.
pub open spec fn settings_arr(ts: Seq<SettingModel>) -> Seq<char> {
    seq!['['] + join_comma(ts.map_values(|t: SettingModel| setting_json(t))) + seq![']']
}

fn emit_settings(out: &mut String, v: &Vec<SettingRecord>)
    ensures
        final(out)@ == old(out)@ + settings_arr(v@.map_values(|x: SettingRecord| x@)),
{
    let ghost start = out@;
    let ghost models = v@.map_values(|x: SettingRecord| x@);
    out.push('[');
    let mut i: usize = 0;
    proof {
        assert(models.subrange(0, 0) =~= Seq::<SettingModel>::empty());
        assert(models.subrange(0, 0).map_values(|t: SettingModel| setting_json(t)) =~= Seq::<Seq<
            char,
        >>::empty());
        assert(out@ =~= start + seq!['['] + join_comma(
            models.subrange(0, 0).map_values(|t: SettingModel| setting_json(t)),
        ));
    }
    while i < v.len()
        invariant
            i <= v.len(),
            models == v@.map_values(|x: SettingRecord| x@),
            out@ == start + seq!['['] + join_comma(
                models.subrange(0, i as int).map_values(|t: SettingModel| setting_json(t)),
            ),
        decreases v.len() - i,
    {
        let ghost es = models.subrange(0, i as int).map_values(|t: SettingModel| setting_json(t));
        let ghost pre = out@;
        if i > 0 {
            out.push(',');
        }
        emit_setting(out, &v[i]);
        proof {
            let es2 = models.subrange(0, i + 1 as int).map_values(|t: SettingModel| setting_json(t));
            assert(es2.drop_last() =~= es);
            assert(es2.last() == setting_json(models[i as int]));
            if i == 0 {
                assert(out@ =~= start + seq!['['] + join_comma(es2));
            } else {
                assert(out@ =~= start + seq!['['] + join_comma(es2));
            }
        }
        i += 1;
    }
    out.push(']');
    proof {
        assert(models.subrange(0, i as int) =~= models);
        assert(out@ =~= start + settings_arr(models));
    }
}

/// The text of the whole export document.
pub open spec fn doc_json(
    trades: Seq<TradeModel>,
    zones: Seq<ZoneModel>,
    entries: Seq<PlannedEntryModel>,
    settings: Seq<SettingModel>,
    export_date: Seq<char>,
) -> Seq<char> {
    "{\"trades\":"@ + trades_arr(trades) + ",\"zones\":"@ + zones_arr(zones)
        + ",\"planned_entries\":"@ + entries_arr(entries) + ",\"settings\":"@ + settings_arr(
        settings,
    ) + ",\"export_date\":"@ + qstr(export_date) + ",\"version\":\"1.0\"}"@
}

/// Renders the export document from the four listings and a timestamp.
pub fn render_export(
    trades: &Vec<TradeRecord>,
    zones: &Vec<ZoneRecord>,
    entries: &Vec<PlannedEntryRecord>,
    settings: &Vec<SettingRecord>,
    export_date: &str,
) -> (r: String)
    ensures
        r@ == doc_json(
            trades@.map_values(|x: TradeRecord| x@),
            zones@.map_values(|x: ZoneRecord| x@),
            entries@.map_values(|x: PlannedEntryRecord| x@),
            settings@.map_values(|x: SettingRecord| x@),
            export_date@,
        ),
{
    let mut out = String::new();
    out.append("{\"trades\":");
    emit_trades(&mut out, trades);
    out.append(",\"zones\":");
    emit_zones(&mut out, zones);
    out.append(",\"planned_entries\":");
    emit_entries(&mut out, entries);
    out.append(",\"settings\":");
    emit_settings(&mut out, settings);
    out.append(",\"export_date\":");
    emit_str(&mut out, export_date);
    out.append(",\"version\":\"1.0\"}");
    proof {
        assert(out@ =~= doc_json(
            trades@.map_values(|x: TradeRecord| x@),
            zones@.map_values(|x: ZoneRecord| x@),
            entries@.map_values(|x: PlannedEntryRecord| x@),
            settings@.map_values(|x: SettingRecord| x@),
            export_date@,
        ));
    }
    out
}

} // verus!
