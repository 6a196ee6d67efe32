//! Decoding flat objects into the record shapes, field by field. A record
//! decodes only when every required member is present with the right type;
//! unknown members are ignored, and the last member wins a repeated key.

use vstd::prelude::*;
use crate::json::{Member, MemberModel, Scalar, ScalarModel, mems_view, objs_view};
use crate::records::{
    PlannedEntryModel, PlannedEntryRecord, SettingModel, SettingRecord, TradeModel, TradeRecord,
    ZoneModel, ZoneRecord,
};

verus! {

/// The value of the last member carrying `key`, if any.
pub open spec fn lookup(ms: Seq<MemberModel>, key: Seq<char>) -> Option<ScalarModel>
    decreases ms.len(),
{
    if ms.len() == 0 {
        Option::None
    } else if ms.last().key == key {
        Option::Some(ms.last().value)
    } else {
        lookup(ms.drop_last(), key)
    }
}

/// A required string member.
pub open spec fn req_str(ms: Seq<MemberModel>, key: Seq<char>) -> Option<Seq<char>> {
    match lookup(ms, key) {
        Option::Some(ScalarModel::Str(s)) => Option::Some(s),
        _ => Option::None,
    }
}

/// A required unsigned number member.
pub open spec fn req_u64(ms: Seq<MemberModel>, key: Seq<char>) -> Option<u64> {
    match lookup(ms, key) {
        Option::Some(ScalarModel::Num(neg, m)) => if !neg {
            Option::Some(m)
        } else {
            Option::None
        },
        _ => Option::None,
    }
}

/// A required 32-bit integer member.
pub open spec fn req_i32(ms: Seq<MemberModel>, key: Seq<char>) -> Option<i32> {
    match lookup(ms, key) {
        Option::Some(ScalarModel::Num(neg, m)) => if !neg && m <= 2147483647 {
            Option::Some(m as i32)
        } else if neg && m <= 2147483648 {
            Option::Some(((0 - m as int) as i32))
        } else {
            Option::None
        },
        _ => Option::None,
    }
}

/// A required boolean member.
pub open spec fn req_bool(ms: Seq<MemberModel>, key: Seq<char>) -> Option<bool> {
    match lookup(ms, key) {
        Option::Some(ScalarModel::Bool(b)) => Option::Some(b),
        _ => Option::None,
    }
}

/// An optional string member: absent or null both mean none.
pub open spec fn opt_str(ms: Seq<MemberModel>, key: Seq<char>) -> Option<Option<Seq<char>>> {
    match lookup(ms, key) {
        Option::Some(ScalarModel::Str(s)) => Option::Some(Option::Some(s)),
        Option::Some(ScalarModel::Null) => Option::Some(Option::None),
        Option::Some(_) => Option::None,
        Option::None => Option::Some(Option::None),
    }
}

/// An optional unsigned number member: absent or null both mean none.
pub open spec fn opt_u64(ms: Seq<MemberModel>, key: Seq<char>) -> Option<Option<u64>> {
    match lookup(ms, key) {
        Option::Some(ScalarModel::Num(neg, m)) => if !neg {
            Option::Some(Option::Some(m))
        } else {
            Option::None
        },
        Option::Some(ScalarModel::Null) => Option::Some(Option::None),
        Option::Some(_) => Option::None,
        Option::None => Option::Some(Option::None),
    }
}

/// Whether a parsed key equals a literal key.
pub(crate) fn key_is(k: &Vec<char>, lit: &str) -> (b: bool)
    ensures
        b == (k@ == lit@),
{
    let n = lit.unicode_len();
    if k.len() != n {
        proof {
            assert(k@ != lit@) by {
                if k@ == lit@ {
                    assert(k@.len() == lit@.len());
                }
            }
        }
        return false;
    }
    let mut i: usize = 0;
    while i < n
        invariant
            i <= n,
            n == k@.len() && n == lit@.len(),
            forall|j: int| 0 <= j < i ==> k@[j] == lit@[j],
        decreases n - i,
    {
        if k[i] != lit.get_char(i) {
            proof {
                assert(k@ != lit@) by {
                    if k@ == lit@ {
                        assert(k@[i as int] == lit@[i as int]);
                    }
                }
            }
            return false;
        }
        i += 1;
    }
    proof {
        assert(k@ =~= lit@);
    }
    true
}

/// The last member of `obj` carrying `key`, if any.
fn lookup_e<'a>(obj: &'a Vec<Member>, key: &str) -> (r: Option<&'a Scalar>)
    ensures
        match r {
            Option::Some(sc) => lookup(mems_view(obj@), key@) == Option::Some(sc@),
            Option::None => lookup(mems_view(obj@), key@) is None,
        },
{
    let ghost ms = mems_view(obj@);
    let mut i: usize = obj.len();
    proof {
        assert(ms.len() == obj@.len());
        assert(ms.subrange(0, ms.len() as int) =~= ms);
    }
    while i > 0
        invariant
            i <= obj.len(),
            ms == mems_view(obj@),
            ms.len() == obj@.len(),
            lookup(ms, key@) == lookup(ms.subrange(0, i as int), key@),
        decreases i,
    {
        i = i - 1;
        proof {
            assert(ms.subrange(0, i + 1 as int).last() == ms[i as int]);
            assert(ms.subrange(0, i + 1 as int).drop_last() =~= ms.subrange(0, i as int));
        }
        if key_is(&obj[i].key, key) {
            return Option::Some(&obj[i].value);
        }
    }
    proof {
        assert(ms.subrange(0, 0) =~= Seq::<MemberModel>::empty());
    }
    Option::None
}

fn req_str_e(obj: &Vec<Member>, key: &str) -> (r: Option<String>)
    ensures
        match r {
            Option::Some(s) => req_str(mems_view(obj@), key@) == Option::Some(s@),
            Option::None => req_str(mems_view(obj@), key@) is None,
        },
{
    match lookup_e(obj, key) {
        Option::Some(Scalar::Str(s)) => Option::Some(s.clone()),
        _ => Option::None,
    }
}

fn req_u64_e(obj: &Vec<Member>, key: &str) -> (r: Option<u64>)
    ensures
        r == req_u64(mems_view(obj@), key@),
{
    match lookup_e(obj, key) {
        Option::Some(Scalar::Num(neg, m)) => if !*neg {
            Option::Some(*m)
        } else {
            Option::None
        },
        _ => Option::None,
    }
}

fn req_i32_e(obj: &Vec<Member>, key: &str) -> (r: Option<i32>)
    ensures
        r == req_i32(mems_view(obj@), key@),
{
    match lookup_e(obj, key) {
        Option::Some(Scalar::Num(neg, m)) => {
            if !*neg && *m <= 2147483647 {
                Option::Some(*m as i32)
            } else if *neg && *m <= 2147483648 {
                Option::Some((0 - (*m as i64)) as i32)
            } else {
                Option::None
            }
        },
        _ => Option::None,
    }
}

fn req_bool_e(obj: &Vec<Member>, key: &str) -> (r: Option<bool>)
    ensures
        r == req_bool(mems_view(obj@), key@),
{
    match lookup_e(obj, key) {
        Option::Some(Scalar::Bool(b)) => Option::Some(*b),
        _ => Option::None,
    }
}

fn opt_str_e(obj: &Vec<Member>, key: &str) -> (r: Option<Option<String>>)
    ensures
        match r {
            Option::Some(o) => opt_str(mems_view(obj@), key@) == Option::Some(
                crate::records::opt_view(o),
            ),
            Option::None => opt_str(mems_view(obj@), key@) is None,
        },
{
    match lookup_e(obj, key) {
        Option::Some(Scalar::Str(s)) => Option::Some(Option::Some(s.clone())),
        Option::Some(Scalar::Null) => Option::Some(Option::None),
        Option::Some(_) => Option::None,
        Option::None => Option::Some(Option::None),
    }
}

fn opt_u64_e(obj: &Vec<Member>, key: &str) -> (r: Option<Option<u64>>)
    ensures
        r == opt_u64(mems_view(obj@), key@),
{
    match lookup_e(obj, key) {
        Option::Some(Scalar::Num(neg, m)) => if !*neg {
            Option::Some(Option::Some(*m))
        } else {
            Option::None
        },
        Option::Some(Scalar::Null) => Option::Some(Option::None),
        Option::Some(_) => Option::None,
        Option::None => Option::Some(Option::None),
    }
}

/// The trade a flat object decodes to, if it decodes.
pub open spec fn trade_of_obj(ms: Seq<MemberModel>) -> Option<TradeModel> {
    if req_str(ms, "id"@) is Some && req_str(ms, "date"@) is Some && req_str(ms, "pair"@) is Some && req_str(ms, "trade_type"@) is Some && req_u64(ms, "entry"@) is Some && opt_u64(ms, "exit"@) is Some && req_u64(ms, "stop_loss"@) is Some && req_u64(ms, "take_profit"@) is Some && req_u64(ms, "size"@) is Some && req_str(ms, "status"@) is Some && opt_u64(ms, "pnl"@) is Some && opt_str(ms, "zone_id"@) is Some && opt_str(ms, "zone_name"@) is Some && opt_str(ms, "planned_entry_id"@) is Some && req_u64(ms, "risk_amount"@) is Some && req_u64(ms, "risk_ratio"@) is Some && opt_str(ms, "notes"@) is Some && req_str(ms, "created_at"@) is Some && req_str(ms, "updated_at"@) is Some {
        Option::Some((TradeModel {
            id: req_str(ms, "id"@).unwrap(),
            date: req_str(ms, "date"@).unwrap(),
            pair: req_str(ms, "pair"@).unwrap(),
            trade_type: req_str(ms, "trade_type"@).unwrap(),
            entry: req_u64(ms, "entry"@).unwrap(),
            exit: opt_u64(ms, "exit"@).unwrap(),
            stop_loss: req_u64(ms, "stop_loss"@).unwrap(),
            take_profit: req_u64(ms, "take_profit"@).unwrap(),
            size: req_u64(ms, "size"@).unwrap(),
            status: req_str(ms, "status"@).unwrap(),
            pnl: opt_u64(ms, "pnl"@).unwrap(),
            zone_id: opt_str(ms, "zone_id"@).unwrap(),
            zone_name: opt_str(ms, "zone_name"@).unwrap(),
            planned_entry_id: opt_str(ms, "planned_entry_id"@).unwrap(),
            risk_amount: req_u64(ms, "risk_amount"@).unwrap(),
            risk_ratio: req_u64(ms, "risk_ratio"@).unwrap(),
            notes: opt_str(ms, "notes"@).unwrap(),
            created_at: req_str(ms, "created_at"@).unwrap(),
            updated_at: req_str(ms, "updated_at"@).unwrap()
        }))
    } else {
        Option::None
    }
}

/// Decodes one flat object into a record, field by field.
pub fn trade_from_obj(obj: &Vec<Member>) -> (r: Option<TradeRecord>)
    ensures
        match r {
            Option::Some(rec) => trade_of_obj(mems_view(obj@)) == Option::Some(rec@),
            Option::None => trade_of_obj(mems_view(obj@)) is None,
        },
{
    let id = match req_str_e(obj, "id") {
        Option::Some(v) => v,
        Option::None => {
            return Option::None;
        },
    };
    let date = match req_str_e(obj, "date") {
        Option::Some(v) => v,
        Option::None => {
            return Option::None;
        },
    };
    let pair = match req_str_e(obj, "pair") {
        Option::Some(v) => v,
        Option::None => {
            return Option::None;
        },
    };
    let trade_type = match req_str_e(obj, "trade_type") {
        Option::Some(v) => v,
        Option::None => {
            return Option::None;
        },
    };
    let entry = match req_u64_e(obj, "entry") {
        Option::Some(v) => v,
        Option::None => {
            return Option::None;
        },
    };
    let exit = match opt_u64_e(obj, "exit") {
        Option::Some(v) => v,
        Option::None => {
            return Option::None;
        },
    };
    let stop_loss = match req_u64_e(obj, "stop_loss") {
        Option::Some(v) => v,
        Option::None => {
            return Option::None;
        },
    };
    let take_profit = match req_u64_e(obj, "take_profit") {
        Option::Some(v) => v,
        Option::None => {
            return Option::None;
        },
    };
    let size = match req_u64_e(obj, "size") {
        Option::Some(v) => v,
        Option::None => {
            return Option::None;
        },
    };
    let status = match req_str_e(obj, "status") {
        Option::Some(v) => v,
        Option::None => {
            return Option::None;
        },
    };
    let pnl = match opt_u64_e(obj, "pnl") {
        Option::Some(v) => v,
        Option::None => {
            return Option::None;
        },
    };
    let zone_id = match opt_str_e(obj, "zone_id") {
        Option::Some(v) => v,
        Option::None => {
            return Option::None;
        },
    };
    let zone_name = match opt_str_e(obj, "zone_name") {
        Option::Some(v) => v,
        Option::None => {
            return Option::None;
        },
    };
    let planned_entry_id = match opt_str_e(obj, "planned_entry_id") {
        Option::Some(v) => v,
        Option::None => {
            return Option::None;
        },
    };
    let risk_amount = match req_u64_e(obj, "risk_amount") {
        Option::Some(v) => v,
        Option::None => {
            return Option::None;
        },
    };
    let risk_ratio = match req_u64_e(obj, "risk_ratio") {
        Option::Some(v) => v,
        Option::None => {
            return Option::None;
        },
    };
    let notes = match opt_str_e(obj, "notes") {
        Option::Some(v) => v,
        Option::None => {
            return Option::None;
        },
    };
    let created_at = match req_str_e(obj, "created_at") {
        Option::Some(v) => v,
        Option::None => {
            return Option::None;
        },
    };
    let updated_at = match req_str_e(obj, "updated_at") {
        Option::Some(v) => v,
        Option::None => {
            return Option::None;
        },
    };
    Option::Some(TradeRecord { id, date, pair, trade_type, entry, exit, stop_loss, take_profit, size, status, pnl, zone_id, zone_name, planned_entry_id, risk_amount, risk_ratio, notes, created_at, updated_at })
}

/// The zone a flat object decodes to, if it decodes.
pub open spec fn zone_of_obj(ms: Seq<MemberModel>) -> Option<ZoneModel> {
    if req_str(ms, "id"@) is Some && req_str(ms, "zone_type"@) is Some && req_str(ms, "name"@) is Some && req_u64(ms, "start_price"@) is Some && req_u64(ms, "end_price"@) is Some && req_str(ms, "strength"@) is Some && opt_str(ms, "break_strength"@) is Some && opt_str(ms, "position"@) is Some && opt_str(ms, "liquidity_type"@) is Some && opt_str(ms, "order_block_relation"@) is Some && req_str(ms, "notes"@) is Some && req_str(ms, "date"@) is Some && req_bool(ms, "active"@) is Some && req_str(ms, "created_at"@) is Some && req_str(ms, "updated_at"@) is Some {
        Option::Some((ZoneModel {
            id: req_str(ms, "id"@).unwrap(),
            zone_type: req_str(ms, "zone_type"@).unwrap(),
            name: req_str(ms, "name"@).unwrap(),
            start_price: req_u64(ms, "start_price"@).unwrap(),
            end_price: req_u64(ms, "end_price"@).unwrap(),
            strength: req_str(ms, "strength"@).unwrap(),
            break_strength: opt_str(ms, "break_strength"@).unwrap(),
            position: opt_str(ms, "position"@).unwrap(),
            liquidity_type: opt_str(ms, "liquidity_type"@).unwrap(),
            order_block_relation: opt_str(ms, "order_block_relation"@).unwrap(),
            notes: req_str(ms, "notes"@).unwrap(),
            date: req_str(ms, "date"@).unwrap(),
            active: req_bool(ms, "active"@).unwrap(),
            created_at: req_str(ms, "created_at"@).unwrap(),
            updated_at: req_str(ms, "updated_at"@).unwrap()
        }))
    } else {
        Option::None
    }
}

/// Decodes one flat object into a record, field by field.
pub fn zone_from_obj(obj: &Vec<Member>) -> (r: Option<ZoneRecord>)
    ensures
        match r {
            Option::Some(rec) => zone_of_obj(mems_view(obj@)) == Option::Some(rec@),
            Option::None => zone_of_obj(mems_view(obj@)) is None,
        },
{
    let id = match req_str_e(obj, "id") {
        Option::Some(v) => v,
        Option::None => {
            return Option::None;
        },
    };
    let zone_type = match req_str_e(obj, "zone_type") {
        Option::Some(v) => v,
        Option::None => {
            return Option::None;
        },
    };
    let name = match req_str_e(obj, "name") {
        Option::Some(v) => v,
        Option::None => {
            return Option::None;
        },
    };
    let start_price = match req_u64_e(obj, "start_price") {
        Option::Some(v) => v,
        Option::None => {
            return Option::None;
        },
    };
    let end_price = match req_u64_e(obj, "end_price") {
        Option::Some(v) => v,
        Option::None => {
            return Option::None;
        },
    };
    let strength = match req_str_e(obj, "strength") {
        Option::Some(v) => v,
        Option::None => {
            return Option::None;
        },
    };
    let break_strength = match opt_str_e(obj, "break_strength") {
        Option::Some(v) => v,
        Option::None => {
            return Option::None;
        },
    };
    let position = match opt_str_e(obj, "position") {
        Option::Some(v) => v,
        Option::None => {
            return Option::None;
        },
    };
    let liquidity_type = match opt_str_e(obj, "liquidity_type") {
        Option::Some(v) => v,
        Option::None => {
            return Option::None;
        },
    };
    let order_block_relation = match opt_str_e(obj, "order_block_relation") {
        Option::Some(v) => v,
        Option::None => {
            return Option::None;
        },
    };
    let notes = match req_str_e(obj, "notes") {
        Option::Some(v) => v,
        Option::None => {
            return Option::None;
        },
    };
    let date = match req_str_e(obj, "date") {
        Option::Some(v) => v,
        Option::None => {
            return Option::None;
        },
    };
    let active = match req_bool_e(obj, "active") {
        Option::Some(v) => v,
        Option::None => {
            return Option::None;
        },
    };
    let created_at = match req_str_e(obj, "created_at") {
        Option::Some(v) => v,
        Option::None => {
            return Option::None;
        },
    };
    let updated_at = match req_str_e(obj, "updated_at") {
        Option::Some(v) => v,
        Option::None => {
            return Option::None;
        },
    };
    Option::Some(ZoneRecord { id, zone_type, name, start_price, end_price, strength, break_strength, position, liquidity_type, order_block_relation, notes, date, active, created_at, updated_at })
}

/// The planned entry a flat object decodes to, if it decodes.
pub open spec fn entry_of_obj(ms: Seq<MemberModel>) -> Option<PlannedEntryModel> {
    if req_str(ms, "id"@) is Some && req_str(ms, "zone_id"@) is Some && req_str(ms, "zone_name"@) is Some && req_str(ms, "zone_type"@) is Some && req_u64(ms, "entry_level"@) is Some && req_u64(ms, "take_profit"@) is Some && req_u64(ms, "stop_loss"@) is Some && req_u64(ms, "risk_ratio"@) is Some && req_i32(ms, "planned_entries"@) is Some && req_str(ms, "notes"@) is Some && req_str(ms, "created_at"@) is Some && req_str(ms, "updated_at"@) is Some {
        Option::Some((PlannedEntryModel {
            id: req_str(ms, "id"@).unwrap(),
            zone_id: req_str(ms, "zone_id"@).unwrap(),
            zone_name: req_str(ms, "zone_name"@).unwrap(),
            zone_type: req_str(ms, "zone_type"@).unwrap(),
            entry_level: req_u64(ms, "entry_level"@).unwrap(),
            take_profit: req_u64(ms, "take_profit"@).unwrap(),
            stop_loss: req_u64(ms, "stop_loss"@).unwrap(),
            risk_ratio: req_u64(ms, "risk_ratio"@).unwrap(),
            planned_entries: req_i32(ms, "planned_entries"@).unwrap(),
            notes: req_str(ms, "notes"@).unwrap(),
            created_at: req_str(ms, "created_at"@).unwrap(),
            updated_at: req_str(ms, "updated_at"@).unwrap()
        }))
    } else {
        Option::None
    }
}

/// Decodes one flat object into a record, field by field.
pub fn entry_from_obj(obj: &Vec<Member>) -> (r: Option<PlannedEntryRecord>)
    ensures
        match r {
            Option::Some(rec) => entry_of_obj(mems_view(obj@)) == Option::Some(rec@),
            Option::None => entry_of_obj(mems_view(obj@)) is None,
        },
{
    let id = match req_str_e(obj, "id") {
        Option::Some(v) => v,
        Option::None => {
            return Option::None;
        },
    };
    let zone_id = match req_str_e(obj, "zone_id") {
        Option::Some(v) => v,
        Option::None => {
            return Option::None;
        },
    };
    let zone_name = match req_str_e(obj, "zone_name") {
        Option::Some(v) => v,
        Option::None => {
            return Option::None;
        },
    };
    let zone_type = match req_str_e(obj, "zone_type") {
        Option::Some(v) => v,
        Option::None => {
            return Option::None;
        },
    };
    let entry_level = match req_u64_e(obj, "entry_level") {
        Option::Some(v) => v,
        Option::None => {
            return Option::None;
        },
    };
    let take_profit = match req_u64_e(obj, "take_profit") {
        Option::Some(v) => v,
        Option::None => {
            return Option::None;
        },
    };
    let stop_loss = match req_u64_e(obj, "stop_loss") {
        Option::Some(v) => v,
        Option::None => {
            return Option::None;
        },
    };
    let risk_ratio = match req_u64_e(obj, "risk_ratio") {
        Option::Some(v) => v,
        Option::None => {
            return Option::None;
        },
    };
    let planned_entries = match req_i32_e(obj, "planned_entries") {
        Option::Some(v) => v,
        Option::None => {
            return Option::None;
        },
    };
    let notes = match req_str_e(obj, "notes") {
        Option::Some(v) => v,
        Option::None => {
            return Option::None;
        },
    };
    let created_at = match req_str_e(obj, "created_at") {
        Option::Some(v) => v,
        Option::None => {
            return Option::None;
        },
    };
    let updated_at = match req_str_e(obj, "updated_at") {
        Option::Some(v) => v,
        Option::None => {
            return Option::None;
        },
    };
    Option::Some(PlannedEntryRecord { id, zone_id, zone_name, zone_type, entry_level, take_profit, stop_loss, risk_ratio, planned_entries, notes, created_at, updated_at })
}

/// The setting a flat object decodes to, if it decodes.
pub open spec fn setting_of_obj(ms: Seq<MemberModel>) -> Option<SettingModel> {
    if req_str(ms, "key"@) is Some && req_str(ms, "value"@) is Some && req_str(ms, "updated_at"@) is Some {
        Option::Some((SettingModel {
            key: req_str(ms, "key"@).unwrap(),
            value: req_str(ms, "value"@).unwrap(),
            updated_at: req_str(ms, "updated_at"@).unwrap()
        }))
    } else {
        Option::None
    }
}

/// Decodes one flat object into a record, field by field.
pub fn setting_from_obj(obj: &Vec<Member>) -> (r: Option<SettingRecord>)
    ensures
        match r {
            Option::Some(rec) => setting_of_obj(mems_view(obj@)) == Option::Some(rec@),
            Option::None => setting_of_obj(mems_view(obj@)) is None,
        },
{
    let key = match req_str_e(obj, "key") {
        Option::Some(v) => v,
        Option::None => {
            return Option::None;
        },
    };
    let value = match req_str_e(obj, "value") {
        Option::Some(v) => v,
        Option::None => {
            return Option::None;
        },
    };
    let updated_at = match req_str_e(obj, "updated_at") {
        Option::Some(v) => v,
        Option::None => {
            return Option::None;
        },
    };
    Option::Some(SettingRecord { key, value, updated_at })
}

/// The records an array of objects decodes to; one bad object fails all.
pub open spec fn trades_of_objs(objs: Seq<Seq<MemberModel>>) -> Option<Seq<TradeModel>>
    decreases objs.len(),
{
    if objs.len() == 0 {
        Option::Some(Seq::empty())
    } else {
        match (trade_of_obj(objs[0]), trades_of_objs(objs.drop_first())) {
            (Option::Some(m), Option::Some(rest)) => Option::Some(seq![m] + rest),
            _ => Option::None,
        }
    }
}

/// Decodes a whole trades array.
pub fn trades_from_objs(objs: &Vec<Vec<Member>>) -> (r: Option<Vec<TradeRecord>>)
    ensures
        match r {
            Option::Some(v) => trades_of_objs(objs_view(objs@)) == Option::Some(
                v@.map_values(|x: TradeRecord| x@),
            ),
            Option::None => trades_of_objs(objs_view(objs@)) is None,
        },
{
    let ghost o = objs_view(objs@);
    let mut out: Vec<TradeRecord> = Vec::new();
    proof {
        assert(o.skip(0) =~= o);
        assert(out@.map_values(|x: TradeRecord| x@) =~= Seq::<TradeModel>::empty());
        match trades_of_objs(o) {
            Option::Some(rest) => {
                assert(Seq::<TradeModel>::empty() + rest =~= rest);
            },
            Option::None => {},
        }
    }
    let mut i: usize = 0;
    while i < objs.len()
        invariant
            i <= objs.len(),
            o == objs_view(objs@),
            i <= o.len(),
            ({
                &&& (match trades_of_objs(o.skip(i as int)) {
                    Option::Some(rest) => trades_of_objs(o) == Option::Some(
                        out@.map_values(|x: TradeRecord| x@) + rest,
                    ),
                    Option::None => trades_of_objs(o) is None,
                })
            }),
        decreases objs.len() - i,
    {
        let ghost suf = o.skip(i as int);
        proof {
            assert(suf[0] == o[i as int]);
            assert(suf.drop_first() =~= o.skip(i as int + 1));
        }
        match trade_from_obj(&objs[i]) {
            Option::Some(rec) => {
                let ghost before = out@.map_values(|x: TradeRecord| x@);
                let ghost recm = rec@;
                out.push(rec);
                proof {
                    assert(out@.map_values(|x: TradeRecord| x@) =~= before + seq![recm]);
                    match trades_of_objs(o.skip(i as int + 1)) {
                        Option::Some(rest2) => {
                            assert((before + seq![recm]) + rest2 =~= before + (seq![recm] + rest2));
                        },
                        Option::None => {},
                    }
                }
            },
            Option::None => {
                return Option::None;
            },
        }
        i += 1;
    }
    proof {
        assert(o.skip(i as int) =~= Seq::<Seq<MemberModel>>::empty());
        assert(out@.map_values(|x: TradeRecord| x@) + Seq::<TradeModel>::empty() =~= out@.map_values(
            |x: TradeRecord| x@,
        ));
    }
    Option::Some(out)
}

/// The records an array of objects decodes to; one bad object fails all.
pub open spec fn zones_of_objs(objs: Seq<Seq<MemberModel>>) -> Option<Seq<ZoneModel>>
    decreases objs.len(),
{
    if objs.len() == 0 {
        Option::Some(Seq::empty())
    } else {
        match (zone_of_obj(objs[0]), zones_of_objs(objs.drop_first())) {
            (Option::Some(m), Option::Some(rest)) => Option::Some(seq![m] + rest),
            _ => Option::None,
        }
    }
}

/// Decodes a whole zones array.
pub fn zones_from_objs(objs: &Vec<Vec<Member>>) -> (r: Option<Vec<ZoneRecord>>)
    ensures
        match r {
            Option::Some(v) => zones_of_objs(objs_view(objs@)) == Option::Some(
                v@.map_values(|x: ZoneRecord| x@),
            ),
            Option::None => zones_of_objs(objs_view(objs@)) is None,
        },
{
    let ghost o = objs_view(objs@);
    let mut out: Vec<ZoneRecord> = Vec::new();
    proof {
        assert(o.skip(0) =~= o);
        assert(out@.map_values(|x: ZoneRecord| x@) =~= Seq::<ZoneModel>::empty());
        match zones_of_objs(o) {
            Option::Some(rest) => {
                assert(Seq::<ZoneModel>::empty() + rest =~= rest);
            },
            Option::None => {},
        }
    }
    let mut i: usize = 0;
    while i < objs.len()
        invariant
            i <= objs.len(),
            o == objs_view(objs@),
            i <= o.len(),
            ({
                &&& (match zones_of_objs(o.skip(i as int)) {
                    Option::Some(rest) => zones_of_objs(o) == Option::Some(
                        out@.map_values(|x: ZoneRecord| x@) + rest,
                    ),
                    Option::None => zones_of_objs(o) is None,
                })
            }),
        decreases objs.len() - i,
    {
        let ghost suf = o.skip(i as int);
        proof {
            assert(suf[0] == o[i as int]);
            assert(suf.drop_first() =~= o.skip(i as int + 1));
        }
        match zone_from_obj(&objs[i]) {
            Option::Some(rec) => {
                let ghost before = out@.map_values(|x: ZoneRecord| x@);
                let ghost recm = rec@;
                out.push(rec);
                proof {
                    assert(out@.map_values(|x: ZoneRecord| x@) =~= before + seq![recm]);
                    match zones_of_objs(o.skip(i as int + 1)) {
                        Option::Some(rest2) => {
                            assert((before + seq![recm]) + rest2 =~= before + (seq![recm] + rest2));
                        },
                        Option::None => {},
                    }
                }
            },
            Option::None => {
                return Option::None;
            },
        }
        i += 1;
    }
    proof {
        assert(o.skip(i as int) =~= Seq::<Seq<MemberModel>>::empty());
        assert(out@.map_values(|x: ZoneRecord| x@) + Seq::<ZoneModel>::empty() =~= out@.map_values(
            |x: ZoneRecord| x@,
        ));
    }
    Option::Some(out)
}

/// The records an array of objects decodes to; one bad object fails all.
pub open spec fn entries_of_objs(objs: Seq<Seq<MemberModel>>) -> Option<Seq<PlannedEntryModel>>
    decreases objs.len(),
{
    if objs.len() == 0 {
        Option::Some(Seq::empty())
    } else {
        match (entry_of_obj(objs[0]), entries_of_objs(objs.drop_first())) {
            (Option::Some(m), Option::Some(rest)) => Option::Some(seq![m] + rest),
            _ => Option::None,
        }
    }
}

/// Decodes a whole planned-entries array.
pub fn entries_from_objs(objs: &Vec<Vec<Member>>) -> (r: Option<Vec<PlannedEntryRecord>>)
    ensures
        match r {
            Option::Some(v) => entries_of_objs(objs_view(objs@)) == Option::Some(
                v@.map_values(|x: PlannedEntryRecord| x@),
            ),
            Option::None => entries_of_objs(objs_view(objs@)) is None,
        },
{
    let ghost o = objs_view(objs@);
    let mut out: Vec<PlannedEntryRecord> = Vec::new();
    proof {
        assert(o.skip(0) =~= o);
        assert(out@.map_values(|x: PlannedEntryRecord| x@) =~= Seq::<PlannedEntryModel>::empty());
        match entries_of_objs(o) {
            Option::Some(rest) => {
                assert(Seq::<PlannedEntryModel>::empty() + rest =~= rest);
            },
            Option::None => {},
        }
    }
    let mut i: usize = 0;
    while i < objs.len()
        invariant
            i <= objs.len(),
            o == objs_view(objs@),
            i <= o.len(),
            ({
                &&& (match entries_of_objs(o.skip(i as int)) {
                    Option::Some(rest) => entries_of_objs(o) == Option::Some(
                        out@.map_values(|x: PlannedEntryRecord| x@) + rest,
                    ),
                    Option::None => entries_of_objs(o) is None,
                })
            }),
        decreases objs.len() - i,
    {
        let ghost suf = o.skip(i as int);
        proof {
            assert(suf[0] == o[i as int]);
            assert(suf.drop_first() =~= o.skip(i as int + 1));
        }
        match entry_from_obj(&objs[i]) {
            Option::Some(rec) => {
                let ghost before = out@.map_values(|x: PlannedEntryRecord| x@);
                let ghost recm = rec@;
                out.push(rec);
                proof {
                    assert(out@.map_values(|x: PlannedEntryRecord| x@) =~= before + seq![recm]);
                    match entries_of_objs(o.skip(i as int + 1)) {
                        Option::Some(rest2) => {
                            assert((before + seq![recm]) + rest2 =~= before + (seq![recm] + rest2));
                        },
                        Option::None => {},
                    }
                }
            },
            Option::None => {
                return Option::None;
            },
        }
        i += 1;
    }
    proof {
        assert(o.skip(i as int) =~= Seq::<Seq<MemberModel>>::empty());
        assert(out@.map_values(|x: PlannedEntryRecord| x@) + Seq::<PlannedEntryModel>::empty() =~= out@.map_values(
            |x: PlannedEntryRecord| x@,
        ));
    }
    Option::Some(out)
}

/// The records an array of objects decodes to; one bad object fails all.
pub open spec fn settings_of_objs(objs: Seq<Seq<MemberModel>>) -> Option<Seq<SettingModel>>
    decreases objs.len(),
{
    if objs.len() == 0 {
        Option::Some(Seq::empty())
    } else {
        match (setting_of_obj(objs[0]), settings_of_objs(objs.drop_first())) {
            (Option::Some(m), Option::Some(rest)) => Option::Some(seq![m] + rest),
            _ => Option::None,
        }
    }
}

/// Decodes a whole settings array.
pub fn settings_from_objs(objs: &Vec<Vec<Member>>) -> (r: Option<Vec<SettingRecord>>)
    ensures
        match r {
            Option::Some(v) => settings_of_objs(objs_view(objs@)) == Option::Some(
                v@.map_values(|x: SettingRecord| x@),
            ),
            Option::None => settings_of_objs(objs_view(objs@)) is None,
        },
{
    let ghost o = objs_view(objs@);
    let mut out: Vec<SettingRecord> = Vec::new();
    proof {
        assert(o.skip(0) =~= o);
        assert(out@.map_values(|x: SettingRecord| x@) =~= Seq::<SettingModel>::empty());
        match settings_of_objs(o) {
            Option::Some(rest) => {
                assert(Seq::<SettingModel>::empty() + rest =~= rest);
            },
            Option::None => {},
        }
    }
    let mut i: usize = 0;
    while i < objs.len()
        invariant
            i <= objs.len(),
            o == objs_view(objs@),
            i <= o.len(),
            ({
                &&& (match settings_of_objs(o.skip(i as int)) {
                    Option::Some(rest) => settings_of_objs(o) == Option::Some(
                        out@.map_values(|x: SettingRecord| x@) + rest,
                    ),
                    Option::None => settings_of_objs(o) is None,
                })
            }),
        decreases objs.len() - i,
    {
        let ghost suf = o.skip(i as int);
        proof {
            assert(suf[0] == o[i as int]);
            assert(suf.drop_first() =~= o.skip(i as int + 1));
        }
        match setting_from_obj(&objs[i]) {
            Option::Some(rec) => {
                let ghost before = out@.map_values(|x: SettingRecord| x@);
                let ghost recm = rec@;
                out.push(rec);
                proof {
                    assert(out@.map_values(|x: SettingRecord| x@) =~= before + seq![recm]);
                    match settings_of_objs(o.skip(i as int + 1)) {
                        Option::Some(rest2) => {
                            assert((before + seq![recm]) + rest2 =~= before + (seq![recm] + rest2));
                        },
                        Option::None => {},
                    }
                }
            },
            Option::None => {
                return Option::None;
            },
        }
        i += 1;
    }
    proof {
        assert(o.skip(i as int) =~= Seq::<Seq<MemberModel>>::empty());
        assert(out@.map_values(|x: SettingRecord| x@) + Seq::<SettingModel>::empty() =~= out@.map_values(
            |x: SettingRecord| x@,
        ));
    }
    Option::Some(out)
}

} // verus!
