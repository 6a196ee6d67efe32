//! Whole-store export and import.
//!
//! Export renders every table into one JSON document; import decodes such a
//! document and replaces the whole store with its contents. Import is
//! all-or-nothing: the document is parsed and every record decoded before
//! any table is touched, so a malformed document leaves the store unchanged.

use vstd::prelude::*;
use crate::clock::now_rfc3339;
use crate::decode::{
    entries_of_objs, entries_from_objs, settings_of_objs, settings_from_objs, trades_of_objs,
    trades_from_objs, zones_of_objs, zones_from_objs, key_is,
};
use crate::emit::{doc_json, render_export};
use crate::error::StorageError;
use crate::json::{doc_view, parse_document, DocMember, DocMemberModel, DocVal, DocValModel,
    MemberModel};
use crate::parse::{e_document, str_to_chars};
use crate::records::{
    PlannedEntryModel, PlannedEntryRecord, SettingModel, SettingRecord, TradeModel, TradeRecord,
    ZoneModel, ZoneRecord,
};
use crate::store::{
    entry_created, entry_id, setting_key, trade_date, trade_id, views_of, zone_date, zone_id,
    Database,
};
use crate::table::{upsert_by_key, upsert_sorted};

verus! {

/// The value of the last top-level member carrying `key`, if any.
pub open spec fn doc_lookup(doc: Seq<DocMemberModel>, key: Seq<char>) -> Option<DocValModel>
    decreases doc.len(),
{
    if doc.len() == 0 {
        Option::None
    } else if doc.last().key == key {
        Option::Some(doc.last().value)
    } else {
        doc_lookup(doc.drop_last(), key)
    }
}

/// The objects of the table under `key`; a missing key, or one whose value
/// is not an array, contributes no rows.
pub open spec fn table_objs(doc: Seq<DocMemberModel>, key: Seq<char>) -> Seq<Seq<MemberModel>> {
    match doc_lookup(doc, key) {
        Option::Some(DocValModel::Arr(objs)) => objs,
        _ => Seq::empty(),
    }
}

/// Everything a well-formed document asks the store to hold.
pub ghost struct ImportPlan {
    pub trades: Seq<TradeModel>,
    pub zones: Seq<ZoneModel>,
    pub planned_entries: Seq<PlannedEntryModel>,
    pub settings: Seq<SettingModel>,
}

/// What importing a text means: the parsed document's four tables, each
/// decoded record by record, or nothing if the text or any record is bad.
pub open spec fn import_plan(s: Seq<char>) -> Option<ImportPlan> {
    match parse_document(s) {
        Option::Some(doc) => {
            if trades_of_objs(table_objs(doc, "trades"@)) is Some && zones_of_objs(
                table_objs(doc, "zones"@),
            ) is Some && entries_of_objs(table_objs(doc, "planned_entries"@)) is Some
                && settings_of_objs(table_objs(doc, "settings"@)) is Some {
                Option::Some(
                    (ImportPlan {
                        trades: trades_of_objs(table_objs(doc, "trades"@)).unwrap(),
                        zones: zones_of_objs(table_objs(doc, "zones"@)).unwrap(),
                        planned_entries: entries_of_objs(
                            table_objs(doc, "planned_entries"@),
                        ).unwrap(),
                        settings: settings_of_objs(table_objs(doc, "settings"@)).unwrap(),
                    }),
                )
            } else {
                Option::None
            }
        },
        Option::None => Option::None,
    }
}

/// The trades table after saving a list of trades into an empty store.
pub open spec fn saved_trades(ts: Seq<TradeModel>) -> Seq<TradeModel>
    decreases ts.len(),
{
    if ts.len() == 0 {
        Seq::empty()
    } else {
        upsert_sorted(saved_trades(ts.drop_last()), trade_id(), trade_date(), ts.last())
    }
}

/// The zones table after saving a list of zones into an empty store.
pub open spec fn saved_zones(zs: Seq<ZoneModel>) -> Seq<ZoneModel>
    decreases zs.len(),
{
    if zs.len() == 0 {
        Seq::empty()
    } else {
        upsert_sorted(saved_zones(zs.drop_last()), zone_id(), zone_date(), zs.last())
    }
}

/// The planned-entries table after saving a list into an empty store.
pub open spec fn saved_entries(es: Seq<PlannedEntryModel>) -> Seq<PlannedEntryModel>
    decreases es.len(),
{
    if es.len() == 0 {
        Seq::empty()
    } else {
        upsert_sorted(saved_entries(es.drop_last()), entry_id(), entry_created(), es.last())
    }
}

/// The settings table after saving a list into an empty store.
pub open spec fn saved_settings(ss: Seq<SettingModel>) -> Seq<SettingModel>
    decreases ss.len(),
{
    if ss.len() == 0 {
        Seq::empty()
    } else {
        upsert_by_key(saved_settings(ss.drop_last()), setting_key(), ss.last())
    }
}

/// The last top-level member carrying `key`, if any.
fn doc_lookup_e<'a>(doc: &'a Vec<DocMember>, key: &str) -> (r: Option<&'a DocVal>)
    ensures
        match r {
            Option::Some(dv) => doc_lookup(doc_view(doc@), key@) == Option::Some(dv@),
            Option::None => doc_lookup(doc_view(doc@), key@) is None,
        },
{
    let ghost ms = doc_view(doc@);
    let mut i: usize = doc.len();
    proof {
        assert(ms.len() == doc@.len());
        assert(ms.subrange(0, ms.len() as int) =~= ms);
    }
    while i > 0
        invariant
            i <= doc.len(),
            ms == doc_view(doc@),
            ms.len() == doc@.len(),
            doc_lookup(ms, key@) == doc_lookup(ms.subrange(0, i as int), key@),
        decreases i,
    {
        i = i - 1;
        proof {
            assert(ms.subrange(0, i + 1 as int).last() == ms[i as int]);
            assert(ms.subrange(0, i + 1 as int).drop_last() =~= ms.subrange(0, i as int));
        }
        if key_is(&doc[i].key, key) {
            return Option::Some(&doc[i].value);
        }
    }
    proof {
        assert(ms.subrange(0, 0) =~= Seq::<DocMemberModel>::empty());
    }
    Option::None
}

fn decode_err(what: &str) -> (r: StorageError)
    ensures
        r matches StorageError::Decode { detail } && detail@ == what@,
{
    StorageError::Decode { detail: String::from_str(what) }
}

impl Database {
    /// Serializes all four tables, an export timestamp and the schema
    /// version tag into one JSON document.
    pub fn export_data(&self) -> (r: Result<String, StorageError>)
        ensures
            r is Ok,
            exists|ed: Seq<char>|
                r->Ok_0@ == doc_json(
                    self@.trades,
                    self@.zones,
                    self@.planned_entries,
                    self@.settings,
                    ed,
                ),
    {
        let trades = match self.get_trades() {
            Ok(v) => v,
            Err(e) => {
                return Err(e);
            },
        };
        let zones = match self.get_zones() {
            Ok(v) => v,
            Err(e) => {
                return Err(e);
            },
        };
        let entries = match self.get_planned_entries() {
            Ok(v) => v,
            Err(e) => {
                return Err(e);
            },
        };
        let settings = match self.get_all_settings() {
            Ok(v) => v,
            Err(e) => {
                return Err(e);
            },
        };
        let date = now_rfc3339();
        let out = render_export(&trades, &zones, &entries, &settings, date.as_str());
        proof {
            assert(trades@.map_values(|x: TradeRecord| x@) =~= views_of(trades@));
            assert(zones@.map_values(|x: ZoneRecord| x@) =~= views_of(zones@));
            assert(entries@.map_values(|x: PlannedEntryRecord| x@) =~= views_of(entries@));
            assert(settings@.map_values(|x: SettingRecord| x@) =~= views_of(settings@));
            assert(out@ == doc_json(
                self@.trades,
                self@.zones,
                self@.planned_entries,
                self@.settings,
                date@,
            ));
        }
        Ok(out)
    }

    /// Destructively replaces the whole store with a document's contents.
    /// The text is parsed and every record decoded first; only a document
    /// that decodes in full touches the store, so failure leaves every
    /// table as it was.
    pub fn import_data(&mut self, json_data: &str) -> (r: Result<(), StorageError>)
        requires
            old(self).wf(),
        ensures
            final(self).wf(),
            match import_plan(json_data@) {
                Option::Some(plan) => r is Ok && final(self)@.trades == saved_trades(plan.trades)
                    && final(self)@.zones == saved_zones(plan.zones)
                    && final(self)@.planned_entries == saved_entries(plan.planned_entries)
                    && final(self)@.settings == saved_settings(plan.settings),
                Option::None => r is Err && final(self)@ == old(self)@,
            },
    {
        let chars = str_to_chars(json_data);
        let doc = match e_document(&chars) {
            Option::Some(d) => d,
            Option::None => {
                return Err(decode_err("the text is not a JSON object"));
            },
        };
        let ghost dm = doc_view(doc@);
        let trades_recs: Vec<TradeRecord> = match doc_lookup_e(&doc, "trades") {
            Option::Some(DocVal::Arr(objs)) => {
                match trades_from_objs(objs) {
                    Option::Some(v) => v,
                    Option::None => {
                        return Err(decode_err("a trade record is malformed"));
                    },
                }
            },
            _ => {
                let empty: Vec<TradeRecord> = Vec::new();
                proof {
                    assert(table_objs(dm, "trades"@) =~= Seq::<Seq<MemberModel>>::empty());
                    assert(empty@.map_values(|x: TradeRecord| x@) =~= Seq::<TradeModel>::empty());
                }
                empty
            },
        };
        let zones_recs: Vec<ZoneRecord> = match doc_lookup_e(&doc, "zones") {
            Option::Some(DocVal::Arr(objs)) => {
                match zones_from_objs(objs) {
                    Option::Some(v) => v,
                    Option::None => {
                        return Err(decode_err("a zone record is malformed"));
                    },
                }
            },
            _ => {
                let empty: Vec<ZoneRecord> = Vec::new();
                proof {
                    assert(table_objs(dm, "zones"@) =~= Seq::<Seq<MemberModel>>::empty());
                    assert(empty@.map_values(|x: ZoneRecord| x@) =~= Seq::<ZoneModel>::empty());
                }
                empty
            },
        };
        let entries_recs: Vec<PlannedEntryRecord> = match doc_lookup_e(&doc, "planned_entries") {
            Option::Some(DocVal::Arr(objs)) => {
                match entries_from_objs(objs) {
                    Option::Some(v) => v,
                    Option::None => {
                        return Err(decode_err("a planned-entry record is malformed"));
                    },
                }
            },
            _ => {
                let empty: Vec<PlannedEntryRecord> = Vec::new();
                proof {
                    assert(table_objs(dm, "planned_entries"@) =~= Seq::<
                        Seq<MemberModel>,
                    >::empty());
                    assert(empty@.map_values(|x: PlannedEntryRecord| x@) =~= Seq::<
                        PlannedEntryModel,
                    >::empty());
                }
                empty
            },
        };
        let settings_recs: Vec<SettingRecord> = match doc_lookup_e(&doc, "settings") {
            Option::Some(DocVal::Arr(objs)) => {
                match settings_from_objs(objs) {
                    Option::Some(v) => v,
                    Option::None => {
                        return Err(decode_err("a setting record is malformed"));
                    },
                }
            },
            _ => {
                let empty: Vec<SettingRecord> = Vec::new();
                proof {
                    assert(table_objs(dm, "settings"@) =~= Seq::<Seq<MemberModel>>::empty());
                    assert(empty@.map_values(|x: SettingRecord| x@) =~= Seq::<
                        SettingModel,
                    >::empty());
                }
                empty
            },
        };
        let ghost plan = import_plan(json_data@).unwrap();
        let ghost tms = trades_recs@.map_values(|x: TradeRecord| x@);
        let ghost zms = zones_recs@.map_values(|x: ZoneRecord| x@);
        let ghost ems = entries_recs@.map_values(|x: PlannedEntryRecord| x@);
        let ghost sms = settings_recs@.map_values(|x: SettingRecord| x@);
        proof {
            assert(plan.trades == tms && plan.zones == zms && plan.planned_entries == ems
                && plan.settings == sms);
        }
        let cleared = self.clear_all_data();
        proof {
            assert(cleared is Ok);
        }
        let mut i: usize = 0;
        proof {
            assert(tms.subrange(0, 0) =~= Seq::<TradeModel>::empty());
        }
        while i < trades_recs.len()
            invariant
                i <= trades_recs.len(),
                tms == trades_recs@.map_values(|x: TradeRecord| x@),
                self.wf(),
                self@.trades == saved_trades(tms.subrange(0, i as int)),
                self@.zones == Seq::<ZoneModel>::empty(),
                self@.planned_entries == Seq::<PlannedEntryModel>::empty(),
                self@.settings == Seq::<SettingModel>::empty(),
            decreases trades_recs.len() - i,
        {
            let saved = self.save_trade(&trades_recs[i]);
            proof {
                assert(saved is Ok);
                assert(tms.subrange(0, i + 1 as int).drop_last() =~= tms.subrange(0, i as int));
                assert(tms.subrange(0, i + 1 as int).last() == tms[i as int]);
            }
            i += 1;
        }
        proof {
            assert(tms.subrange(0, trades_recs@.len() as int) =~= tms);
        }
        let mut i: usize = 0;
        proof {
            assert(zms.subrange(0, 0) =~= Seq::<ZoneModel>::empty());
        }
        while i < zones_recs.len()
            invariant
                i <= zones_recs.len(),
                zms == zones_recs@.map_values(|x: ZoneRecord| x@),
                self.wf(),
                self@.trades == saved_trades(tms),
                self@.zones == saved_zones(zms.subrange(0, i as int)),
                self@.planned_entries == Seq::<PlannedEntryModel>::empty(),
                self@.settings == Seq::<SettingModel>::empty(),
            decreases zones_recs.len() - i,
        {
            let saved = self.save_zone(&zones_recs[i]);
            proof {
                assert(saved is Ok);
                assert(zms.subrange(0, i + 1 as int).drop_last() =~= zms.subrange(0, i as int));
                assert(zms.subrange(0, i + 1 as int).last() == zms[i as int]);
            }
            i += 1;
        }
        proof {
            assert(zms.subrange(0, zones_recs@.len() as int) =~= zms);
        }
        let mut i: usize = 0;
        proof {
            assert(ems.subrange(0, 0) =~= Seq::<PlannedEntryModel>::empty());
        }
        while i < entries_recs.len()
            invariant
                i <= entries_recs.len(),
                ems == entries_recs@.map_values(|x: PlannedEntryRecord| x@),
                self.wf(),
                self@.trades == saved_trades(tms),
                self@.zones == saved_zones(zms),
                self@.planned_entries == saved_entries(ems.subrange(0, i as int)),
                self@.settings == Seq::<SettingModel>::empty(),
            decreases entries_recs.len() - i,
        {
            let saved = self.save_planned_entry(&entries_recs[i]);
            proof {
                assert(saved is Ok);
                assert(ems.subrange(0, i + 1 as int).drop_last() =~= ems.subrange(0, i as int));
                assert(ems.subrange(0, i + 1 as int).last() == ems[i as int]);
            }
            i += 1;
        }
        proof {
            assert(ems.subrange(0, entries_recs@.len() as int) =~= ems);
        }
        let mut i: usize = 0;
        proof {
            assert(sms.subrange(0, 0) =~= Seq::<SettingModel>::empty());
        }
        while i < settings_recs.len()
            invariant
                i <= settings_recs.len(),
                sms == settings_recs@.map_values(|x: SettingRecord| x@),
                self.wf(),
                self@.trades == saved_trades(tms),
                self@.zones == saved_zones(zms),
                self@.planned_entries == saved_entries(ems),
                self@.settings == saved_settings(sms.subrange(0, i as int)),
            decreases settings_recs.len() - i,
        {
            let saved = self.save_setting_record(settings_recs[i].clone());
            proof {
                assert(saved is Ok);
                assert(sms.subrange(0, i + 1 as int).drop_last() =~= sms.subrange(0, i as int));
                assert(sms.subrange(0, i + 1 as int).last() == sms[i as int]);
            }
            i += 1;
        }
        proof {
            assert(sms.subrange(0, settings_recs@.len() as int) =~= sms);
        }
        Ok(())
    }
}

} // verus!
