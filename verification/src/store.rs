//! The storage engine: four in-memory tables with upsert-by-id semantics,
//! date-descending listings, point and bulk reads, idempotent deletes and
//! counts that never fail. Durability (the database file) lives outside
//! this crate; the engine is the part whose behaviour is stated and proved.

use vstd::prelude::*;
use crate::clock::now_rfc3339;
use crate::error::StorageError;
use crate::order::lex_le;
use crate::records::{
    PlannedEntryModel, PlannedEntryRecord, SettingModel, SettingRecord, TradeModel, TradeRecord,
    ZoneModel, ZoneRecord,
};
use crate::table::{
    find_by_id, insert_sorted_desc, lemma_find_by_id_absent, lemma_find_by_id_at,
    lemma_insert_index_keeps_unique, lemma_insert_sorted_at, lemma_remove_by_id_absent,
    lemma_remove_by_id_at, lemma_remove_index_keeps_wf, lemma_upsert_by_key_absent,
    lemma_upsert_by_key_at, remove_by_id, sorted_desc, unique_ids, upsert_by_key, upsert_sorted,
};

verus! {

/// The sequence of models behind a sequence of records.
pub open spec fn views_of<T: View>(s: Seq<T>) -> Seq<T::V> {
    s.map_values(|x: T| x@)
}

/// Primary id of a trade row.
pub open spec fn trade_id() -> spec_fn(TradeModel) -> Seq<char> {
    |t: TradeModel| t.id
}

/// Sort key of the trades listing.
pub open spec fn trade_date() -> spec_fn(TradeModel) -> Seq<char> {
    |t: TradeModel| t.date
}

/// Primary id of a zone row.
pub open spec fn zone_id() -> spec_fn(ZoneModel) -> Seq<char> {
    |z: ZoneModel| z.id
}

/// Sort key of the zones listing.
pub open spec fn zone_date() -> spec_fn(ZoneModel) -> Seq<char> {
    |z: ZoneModel| z.date
}

/// Primary id of a planned-entry row.
pub open spec fn entry_id() -> spec_fn(PlannedEntryModel) -> Seq<char> {
    |e: PlannedEntryModel| e.id
}

/// Sort key of the planned-entries listing.
pub open spec fn entry_created() -> spec_fn(PlannedEntryModel) -> Seq<char> {
    |e: PlannedEntryModel| e.created_at
}

/// Primary key of a settings row.
pub open spec fn setting_key() -> spec_fn(SettingModel) -> Seq<char> {
    |s: SettingModel| s.key
}

/// The value stored under `key`, if any.
pub open spec fn setting_value(s: Seq<SettingModel>, key: Seq<char>) -> Option<Seq<char>> {
    match find_by_id(s, setting_key(), key) {
        Option::Some(m) => Option::Some(m.value),
        Option::None => Option::None,
    }
}

/// The abstract state of the whole store.
pub ghost struct StoreModel {
    pub trades: Seq<TradeModel>,
    pub zones: Seq<ZoneModel>,
    pub planned_entries: Seq<PlannedEntryModel>,
    pub settings: Seq<SettingModel>,
}

/// Row counts as reported by the engine.
#[derive(Debug, Clone, Copy, PartialEq, Eq, Structural)]
pub struct DatabaseInfo {
    pub total_records: u128,
    pub trades: u64,
    pub zones: u64,
    pub planned_entries: u64,
    pub settings: u64,
}

/// The storage engine.
pub struct Database {
    trades: Vec<TradeRecord>,
    zones: Vec<ZoneRecord>,
    planned_entries: Vec<PlannedEntryRecord>,
    settings: Vec<SettingRecord>,
}

impl View for Database {
    type V = StoreModel;

    closed spec fn view(&self) -> StoreModel {
        StoreModel {
            trades: views_of(self.trades@),
            zones: views_of(self.zones@),
            planned_entries: views_of(self.planned_entries@),
            settings: views_of(self.settings@),
        }
    }
}

impl Database {
    /// Every table keeps its ids unique, and the date-keyed tables keep
    /// their rows in descending key order.
    pub open spec fn wf(&self) -> bool {
        &&& unique_ids(self@.trades, trade_id())
        &&& sorted_desc(self@.trades, trade_date())
        &&& unique_ids(self@.zones, zone_id())
        &&& sorted_desc(self@.zones, zone_date())
        &&& unique_ids(self@.planned_entries, entry_id())
        &&& sorted_desc(self@.planned_entries, entry_created())
        &&& unique_ids(self@.settings, setting_key())
    }

    /// A fresh, empty store.
    pub fn new() -> (db: Database)
        ensures
            db.wf(),
            db@.trades == Seq::<TradeModel>::empty(),
            db@.zones == Seq::<ZoneModel>::empty(),
            db@.planned_entries == Seq::<PlannedEntryModel>::empty(),
            db@.settings == Seq::<SettingModel>::empty(),
    {
        let db = Database {
            trades: Vec::new(),
            zones: Vec::new(),
            planned_entries: Vec::new(),
            settings: Vec::new(),
        };
        proof {
            assert(db@.trades =~= Seq::<TradeModel>::empty());
            assert(db@.zones =~= Seq::<ZoneModel>::empty());
            assert(db@.planned_entries =~= Seq::<PlannedEntryModel>::empty());
            assert(db@.settings =~= Seq::<SettingModel>::empty());
        }
        db
    }

    fn find_trade(&self, id: &String) -> (r: Option<usize>)
        ensures
            match r {
                Option::Some(i) => i < self@.trades.len() && self@.trades[i as int].id == id@
                    && forall|j: int| 0 <= j < i ==> (#[trigger] self@.trades[j]).id != id@,
                Option::None => forall|j: int|
                    0 <= j < self@.trades.len() ==> (#[trigger] self@.trades[j]).id != id@,
            },
    {
        let mut i: usize = 0;
        while i < self.trades.len()
            invariant
                i <= self.trades.len(),
                forall|j: int| 0 <= j < i ==> (#[trigger] self@.trades[j]).id != id@,
            decreases self.trades.len() - i,
        {
            if self.trades[i].id == *id {
                return Option::Some(i);
            }
            i += 1;
        }
        Option::None
    }

    /// Saves a trade: the row with the same id (if any) leaves, and the
    /// trade takes its place by date order, latest first.
    pub fn save_trade(&mut self, trade: &TradeRecord) -> (r: Result<(), StorageError>)
        requires
            old(self).wf(),
        ensures
            final(self).wf(),
            r is Ok,
            final(self)@.trades == upsert_sorted(
                old(self)@.trades,
                trade_id(),
                trade_date(),
                trade@,
            ),
            final(self)@.zones == old(self)@.zones,
            final(self)@.planned_entries == old(self)@.planned_entries,
            final(self)@.settings == old(self)@.settings,
    {
        let ghost m0 = self@.trades;
        let found = self.find_trade(&trade.id);
        match found {
            Option::Some(i) => {
                proof {
                    assert forall|j: int|
                        0 <= j < m0.len() && j != i as int implies (#[trigger] m0[j]).id
                        != trade@.id by {}
                    lemma_remove_by_id_at(m0, trade_id(), trade@.id, i as int);
                    lemma_remove_index_keeps_wf(m0, trade_id(), trade_date(), i as int);
                }
                self.trades.remove(i);
                proof {
                    assert(self@.trades =~= m0.remove(i as int));
                }
            },
            Option::None => {
                proof {
                    lemma_remove_by_id_absent(m0, trade_id(), trade@.id);
                }
            },
        }
        let ghost m1 = remove_by_id(m0, trade_id(), trade@.id);
        proof {
            assert(self@.trades == m1);
        }
        let mut pos: usize = 0;
        while pos < self.trades.len() && crate::order::str_lex_le(
            trade.date.as_str(),
            self.trades[pos].date.as_str(),
        )
            invariant
                pos <= self.trades.len(),
                forall|j: int| 0 <= j < pos ==> lex_le(trade@.date, (#[trigger] m1[j]).date),
                self@.trades == m1,
            decreases self.trades.len() - pos,
        {
            pos += 1;
        }
        proof {
            lemma_insert_sorted_at(m1, trade_date(), trade@, pos as int);
            lemma_insert_index_keeps_unique(m1, trade_id(), trade@, pos as int);
        }
        let copy = trade.clone();
        self.trades.insert(pos, copy);
        proof {
            assert(self@.trades =~= m1.insert(pos as int, trade@));
        }
        Ok(())
    }

    /// Every trade, latest date first.
    pub fn get_trades(&self) -> (r: Result<Vec<TradeRecord>, StorageError>)
        ensures
            r is Ok,
            views_of(r->Ok_0@) == self@.trades,
    {
        let mut out: Vec<TradeRecord> = Vec::new();
        let mut i: usize = 0;
        while i < self.trades.len()
            invariant
                i <= self.trades.len(),
                out@ == self.trades@.subrange(0, i as int),
            decreases self.trades.len() - i,
        {
            out.push(self.trades[i].clone());
            proof {
                assert(out@ =~= self.trades@.subrange(0, i + 1 as int));
            }
            i += 1;
        }
        proof {
            assert(out@ =~= self.trades@);
            assert(views_of(out@) =~= self@.trades);
        }
        Ok(out)
    }

    /// Removes the trade with this id; removing an unknown id is a no-op.
    pub fn delete_trade(&mut self, id: &str) -> (r: Result<(), StorageError>)
        requires
            old(self).wf(),
        ensures
            final(self).wf(),
            r is Ok,
            final(self)@.trades == remove_by_id(old(self)@.trades, trade_id(), id@),
            final(self)@.zones == old(self)@.zones,
            final(self)@.planned_entries == old(self)@.planned_entries,
            final(self)@.settings == old(self)@.settings,
    {
        let ghost m0 = self@.trades;
        let key = String::from_str(id);
        let found = self.find_trade(&key);
        match found {
            Option::Some(i) => {
                proof {
                    assert forall|j: int|
                        0 <= j < m0.len() && j != i as int implies (#[trigger] m0[j]).id
                        != id@ by {}
                    lemma_remove_by_id_at(m0, trade_id(), id@, i as int);
                    lemma_remove_index_keeps_wf(m0, trade_id(), trade_date(), i as int);
                }
                self.trades.remove(i);
                proof {
                    assert(self@.trades =~= m0.remove(i as int));
                }
            },
            Option::None => {
                proof {
                    lemma_remove_by_id_absent(m0, trade_id(), id@);
                }
            },
        }
        Ok(())
    }

    fn find_zone(&self, id: &String) -> (r: Option<usize>)
        ensures
            match r {
                Option::Some(i) => i < self@.zones.len() && self@.zones[i as int].id == id@
                    && forall|j: int| 0 <= j < i ==> (#[trigger] self@.zones[j]).id != id@,
                Option::None => forall|j: int|
                    0 <= j < self@.zones.len() ==> (#[trigger] self@.zones[j]).id != id@,
            },
    {
        let mut i: usize = 0;
        while i < self.zones.len()
            invariant
                i <= self.zones.len(),
                forall|j: int| 0 <= j < i ==> (#[trigger] self@.zones[j]).id != id@,
            decreases self.zones.len() - i,
        {
            if self.zones[i].id == *id {
                return Option::Some(i);
            }
            i += 1;
        }
        Option::None
    }

    /// Saves a zone: upsert by id, kept in descending date order.
    pub fn save_zone(&mut self, zone: &ZoneRecord) -> (r: Result<(), StorageError>)
        requires
            old(self).wf(),
        ensures
            final(self).wf(),
            r is Ok,
            final(self)@.zones == upsert_sorted(old(self)@.zones, zone_id(), zone_date(), zone@),
            final(self)@.trades == old(self)@.trades,
            final(self)@.planned_entries == old(self)@.planned_entries,
            final(self)@.settings == old(self)@.settings,
    {
        let ghost m0 = self@.zones;
        let found = self.find_zone(&zone.id);
        match found {
            Option::Some(i) => {
                proof {
                    assert forall|j: int|
                        0 <= j < m0.len() && j != i as int implies (#[trigger] m0[j]).id
                        != zone@.id by {}
                    lemma_remove_by_id_at(m0, zone_id(), zone@.id, i as int);
                    lemma_remove_index_keeps_wf(m0, zone_id(), zone_date(), i as int);
                }
                self.zones.remove(i);
                proof {
                    assert(self@.zones =~= m0.remove(i as int));
                }
            },
            Option::None => {
                proof {
                    lemma_remove_by_id_absent(m0, zone_id(), zone@.id);
                }
            },
        }
        let ghost m1 = remove_by_id(m0, zone_id(), zone@.id);
        proof {
            assert(self@.zones == m1);
        }
        let mut pos: usize = 0;
        while pos < self.zones.len() && crate::order::str_lex_le(
            zone.date.as_str(),
            self.zones[pos].date.as_str(),
        )
            invariant
                pos <= self.zones.len(),
                forall|j: int| 0 <= j < pos ==> lex_le(zone@.date, (#[trigger] m1[j]).date),
                self@.zones == m1,
            decreases self.zones.len() - pos,
        {
            pos += 1;
        }
        proof {
            lemma_insert_sorted_at(m1, zone_date(), zone@, pos as int);
            lemma_insert_index_keeps_unique(m1, zone_id(), zone@, pos as int);
        }
        let copy = zone.clone();
        self.zones.insert(pos, copy);
        proof {
            assert(self@.zones =~= m1.insert(pos as int, zone@));
        }
        Ok(())
    }

    /// Every zone, latest date first.
    pub fn get_zones(&self) -> (r: Result<Vec<ZoneRecord>, StorageError>)
        ensures
            r is Ok,
            views_of(r->Ok_0@) == self@.zones,
    {
        let mut out: Vec<ZoneRecord> = Vec::new();
        let mut i: usize = 0;
        while i < self.zones.len()
            invariant
                i <= self.zones.len(),
                out@ == self.zones@.subrange(0, i as int),
            decreases self.zones.len() - i,
        {
            out.push(self.zones[i].clone());
            proof {
                assert(out@ =~= self.zones@.subrange(0, i + 1 as int));
            }
            i += 1;
        }
        proof {
            assert(out@ =~= self.zones@);
            assert(views_of(out@) =~= self@.zones);
        }
        Ok(out)
    }

    /// Removes the zone with this id; removing an unknown id is a no-op.
    pub fn delete_zone(&mut self, id: &str) -> (r: Result<(), StorageError>)
        requires
            old(self).wf(),
        ensures
            final(self).wf(),
            r is Ok,
            final(self)@.zones == remove_by_id(old(self)@.zones, zone_id(), id@),
            final(self)@.trades == old(self)@.trades,
            final(self)@.planned_entries == old(self)@.planned_entries,
            final(self)@.settings == old(self)@.settings,
    {
        let ghost m0 = self@.zones;
        let key = String::from_str(id);
        let found = self.find_zone(&key);
        match found {
            Option::Some(i) => {
                proof {
                    assert forall|j: int|
                        0 <= j < m0.len() && j != i as int implies (#[trigger] m0[j]).id
                        != id@ by {}
                    lemma_remove_by_id_at(m0, zone_id(), id@, i as int);
                    lemma_remove_index_keeps_wf(m0, zone_id(), zone_date(), i as int);
                }
                self.zones.remove(i);
                proof {
                    assert(self@.zones =~= m0.remove(i as int));
                }
            },
            Option::None => {
                proof {
                    lemma_remove_by_id_absent(m0, zone_id(), id@);
                }
            },
        }
        Ok(())
    }

    fn find_planned_entry(&self, id: &String) -> (r: Option<usize>)
        ensures
            match r {
                Option::Some(i) => i < self@.planned_entries.len()
                    && self@.planned_entries[i as int].id == id@ && forall|j: int|
                    0 <= j < i ==> (#[trigger] self@.planned_entries[j]).id != id@,
                Option::None => forall|j: int|
                    0 <= j < self@.planned_entries.len() ==> (
                    #[trigger] self@.planned_entries[j]).id != id@,
            },
    {
        let mut i: usize = 0;
        while i < self.planned_entries.len()
            invariant
                i <= self.planned_entries.len(),
                forall|j: int| 0 <= j < i ==> (#[trigger] self@.planned_entries[j]).id != id@,
            decreases self.planned_entries.len() - i,
        {
            if self.planned_entries[i].id == *id {
                return Option::Some(i);
            }
            i += 1;
        }
        Option::None
    }

    /// Saves a planned entry: upsert by id, kept in descending order of
    /// creation time.
    pub fn save_planned_entry(&mut self, entry: &PlannedEntryRecord) -> (r: Result<
        (),
        StorageError,
    >)
        requires
            old(self).wf(),
        ensures
            final(self).wf(),
            r is Ok,
            final(self)@.planned_entries == upsert_sorted(
                old(self)@.planned_entries,
                entry_id(),
                entry_created(),
                entry@,
            ),
            final(self)@.trades == old(self)@.trades,
            final(self)@.zones == old(self)@.zones,
            final(self)@.settings == old(self)@.settings,
    {
        let ghost m0 = self@.planned_entries;
        let found = self.find_planned_entry(&entry.id);
        match found {
            Option::Some(i) => {
                proof {
                    assert forall|j: int|
                        0 <= j < m0.len() && j != i as int implies (#[trigger] m0[j]).id
                        != entry@.id by {}
                    lemma_remove_by_id_at(m0, entry_id(), entry@.id, i as int);
                    lemma_remove_index_keeps_wf(m0, entry_id(), entry_created(), i as int);
                }
                self.planned_entries.remove(i);
                proof {
                    assert(self@.planned_entries =~= m0.remove(i as int));
                }
            },
            Option::None => {
                proof {
                    lemma_remove_by_id_absent(m0, entry_id(), entry@.id);
                }
            },
        }
        let ghost m1 = remove_by_id(m0, entry_id(), entry@.id);
        proof {
            assert(self@.planned_entries == m1);
        }
        let mut pos: usize = 0;
        while pos < self.planned_entries.len() && crate::order::str_lex_le(
            entry.created_at.as_str(),
            self.planned_entries[pos].created_at.as_str(),
        )
            invariant
                pos <= self.planned_entries.len(),
                forall|j: int| 0 <= j < pos ==> lex_le(entry@.created_at, (#[trigger] m1[j]).created_at),
                self@.planned_entries == m1,
            decreases self.planned_entries.len() - pos,
        {
            pos += 1;
        }
        proof {
            lemma_insert_sorted_at(m1, entry_created(), entry@, pos as int);
            lemma_insert_index_keeps_unique(m1, entry_id(), entry@, pos as int);
        }
        let copy = entry.clone();
        self.planned_entries.insert(pos, copy);
        proof {
            assert(self@.planned_entries =~= m1.insert(pos as int, entry@));
        }
        Ok(())
    }

    /// Every planned entry, most recently created first.
    pub fn get_planned_entries(&self) -> (r: Result<Vec<PlannedEntryRecord>, StorageError>)
        ensures
            r is Ok,
            views_of(r->Ok_0@) == self@.planned_entries,
    {
        let mut out: Vec<PlannedEntryRecord> = Vec::new();
        let mut i: usize = 0;
        while i < self.planned_entries.len()
            invariant
                i <= self.planned_entries.len(),
                out@ == self.planned_entries@.subrange(0, i as int),
            decreases self.planned_entries.len() - i,
        {
            out.push(self.planned_entries[i].clone());
            proof {
                assert(out@ =~= self.planned_entries@.subrange(0, i + 1 as int));
            }
            i += 1;
        }
        proof {
            assert(out@ =~= self.planned_entries@);
            assert(views_of(out@) =~= self@.planned_entries);
        }
        Ok(out)
    }

    /// Removes the planned entry with this id; removing an unknown id is a
    /// no-op.
    pub fn delete_planned_entry(&mut self, id: &str) -> (r: Result<(), StorageError>)
        requires
            old(self).wf(),
        ensures
            final(self).wf(),
            r is Ok,
            final(self)@.planned_entries == remove_by_id(
                old(self)@.planned_entries,
                entry_id(),
                id@,
            ),
            final(self)@.trades == old(self)@.trades,
            final(self)@.zones == old(self)@.zones,
            final(self)@.settings == old(self)@.settings,
    {
        let ghost m0 = self@.planned_entries;
        let key = String::from_str(id);
        let found = self.find_planned_entry(&key);
        match found {
            Option::Some(i) => {
                proof {
                    assert forall|j: int|
                        0 <= j < m0.len() && j != i as int implies (#[trigger] m0[j]).id
                        != id@ by {}
                    lemma_remove_by_id_at(m0, entry_id(), id@, i as int);
                    lemma_remove_index_keeps_wf(m0, entry_id(), entry_created(), i as int);
                }
                self.planned_entries.remove(i);
                proof {
                    assert(self@.planned_entries =~= m0.remove(i as int));
                }
            },
            Option::None => {
                proof {
                    lemma_remove_by_id_absent(m0, entry_id(), id@);
                }
            },
        }
        Ok(())
    }

    fn find_setting(&self, key: &String) -> (r: Option<usize>)
        ensures
            match r {
                Option::Some(i) => i < self@.settings.len() && self@.settings[i as int].key == key@
                    && forall|j: int| 0 <= j < i ==> (#[trigger] self@.settings[j]).key != key@,
                Option::None => forall|j: int|
                    0 <= j < self@.settings.len() ==> (#[trigger] self@.settings[j]).key != key@,
            },
    {
        let mut i: usize = 0;
        while i < self.settings.len()
            invariant
                i <= self.settings.len(),
                forall|j: int| 0 <= j < i ==> (#[trigger] self@.settings[j]).key != key@,
            decreases self.settings.len() - i,
        {
            if self.settings[i].key == *key {
                return Option::Some(i);
            }
            i += 1;
        }
        Option::None
    }

    /// Stores a full settings row: the row with the same key is replaced in
    /// place, a fresh key is appended. The timestamp is taken from the row.
    pub fn save_setting_record(&mut self, rec: SettingRecord) -> (r: Result<(), StorageError>)
        requires
            old(self).wf(),
        ensures
            final(self).wf(),
            r is Ok,
            final(self)@.settings == upsert_by_key(old(self)@.settings, setting_key(), rec@),
            final(self)@.trades == old(self)@.trades,
            final(self)@.zones == old(self)@.zones,
            final(self)@.planned_entries == old(self)@.planned_entries,
    {
        let ghost m0 = self@.settings;
        let ghost recm = rec@;
        let found = self.find_setting(&rec.key);
        match found {
            Option::Some(i) => {
                proof {
                    lemma_upsert_by_key_at(m0, setting_key(), recm, i as int);
                }
                self.settings.remove(i);
                self.settings.insert(i, rec);
                proof {
                    assert(self@.settings =~= m0.update(i as int, recm));
                    assert forall|a: int, b: int|
                        0 <= a < b < self@.settings.len() implies (#[trigger] self@.settings[a]).key
                        != (#[trigger] self@.settings[b]).key by {
                        assert(m0[i as int].key == recm.key);
                    }
                }
            },
            Option::None => {
                proof {
                    lemma_upsert_by_key_absent(m0, setting_key(), recm);
                }
                self.settings.push(rec);
                proof {
                    assert(self@.settings =~= m0.push(recm));
                }
            },
        }
        Ok(())
    }

    /// Stores `value` under `key`, stamping the row with the current time —
    /// the one field the engine computes itself.
    pub fn save_setting(&mut self, key: &str, value: &str) -> (r: Result<(), StorageError>)
        requires
            old(self).wf(),
        ensures
            final(self).wf(),
            r is Ok,
            exists|ts: Seq<char>|
                final(self)@.settings == upsert_by_key(
                    old(self)@.settings,
                    setting_key(),
                    (SettingModel { key: key@, value: value@, updated_at: ts }),
                ),
            final(self)@.trades == old(self)@.trades,
            final(self)@.zones == old(self)@.zones,
            final(self)@.planned_entries == old(self)@.planned_entries,
    {
        let ts = now_rfc3339();
        let ghost tsm = ts@;
        let rec = SettingRecord {
            key: String::from_str(key),
            value: String::from_str(value),
            updated_at: ts,
        };
        let r = self.save_setting_record(rec);
        proof {
            assert(self@.settings == upsert_by_key(
                old(self)@.settings,
                setting_key(),
                (SettingModel { key: key@, value: value@, updated_at: tsm }),
            ));
        }
        r
    }

    /// The value stored under `key`; absence is a normal outcome.
    pub fn get_setting(&self, key: &str) -> (r: Result<Option<String>, StorageError>)
        ensures
            r is Ok,
            crate::records::opt_view(r->Ok_0) == setting_value(self@.settings, key@),
    {
        let k = String::from_str(key);
        let found = self.find_setting(&k);
        match found {
            Option::Some(i) => {
                proof {
                    lemma_find_by_id_at(self@.settings, setting_key(), key@, i as int);
                }
                Ok(Some(self.settings[i].value.clone()))
            },
            Option::None => {
                proof {
                    lemma_find_by_id_absent(self@.settings, setting_key(), key@);
                }
                Ok(None)
            },
        }
    }

    /// Every settings row, in storage order.
    pub fn get_all_settings(&self) -> (r: Result<Vec<SettingRecord>, StorageError>)
        ensures
            r is Ok,
            views_of(r->Ok_0@) == self@.settings,
    {
        let mut out: Vec<SettingRecord> = Vec::new();
        let mut i: usize = 0;
        while i < self.settings.len()
            invariant
                i <= self.settings.len(),
                out@ == self.settings@.subrange(0, i as int),
            decreases self.settings.len() - i,
        {
            out.push(self.settings[i].clone());
            proof {
                assert(out@ =~= self.settings@.subrange(0, i + 1 as int));
            }
            i += 1;
        }
        proof {
            assert(out@ =~= self.settings@);
            assert(views_of(out@) =~= self@.settings);
        }
        Ok(out)
    }

    /// Four row counts and their sum; this query never fails.
    pub fn get_database_info(&self) -> (info: DatabaseInfo)
        ensures
            info.trades == self@.trades.len(),
            info.zones == self@.zones.len(),
            info.planned_entries == self@.planned_entries.len(),
            info.settings == self@.settings.len(),
            info.total_records == self@.trades.len() + self@.zones.len()
                + self@.planned_entries.len() + self@.settings.len(),
    {
        let t = self.trades.len() as u64;
        let z = self.zones.len() as u64;
        let p = self.planned_entries.len() as u64;
        let s = self.settings.len() as u64;
        let total = t as u128 + z as u128 + p as u128 + s as u128;
        DatabaseInfo { total_records: total, trades: t, zones: z, planned_entries: p, settings: s }
    }

    /// Unconditionally empties all four tables.
    pub fn clear_all_data(&mut self) -> (r: Result<(), StorageError>)
        ensures
            final(self).wf(),
            r is Ok,
            final(self)@.trades == Seq::<TradeModel>::empty(),
            final(self)@.zones == Seq::<ZoneModel>::empty(),
            final(self)@.planned_entries == Seq::<PlannedEntryModel>::empty(),
            final(self)@.settings == Seq::<SettingModel>::empty(),
    {
        self.trades = Vec::new();
        self.zones = Vec::new();
        self.planned_entries = Vec::new();
        self.settings = Vec::new();
        proof {
            assert(self@.trades =~= Seq::<TradeModel>::empty());
            assert(self@.zones =~= Seq::<ZoneModel>::empty());
            assert(self@.planned_entries =~= Seq::<PlannedEntryModel>::empty());
            assert(self@.settings =~= Seq::<SettingModel>::empty());
        }
        Ok(())
    }
}

} // verus!
