//! The four record kinds the store persists.
//!
//! Price-like quantities (entries, stops, sizes, P&L, risk figures) are
//! carried as raw IEEE-754 bit patterns in `u64` fields: the store never
//! interprets them, it only keeps them verbatim, and the boundary that
//! talks to the front-end converts between bits and doubles.

use vstd::prelude::*;

verus! {

/// Spec-level image of an optional string.
pub open spec fn opt_view(o: Option<String>) -> Option<Seq<char>> {
    match o {
        Option::Some(s) => Option::Some(s@),
        Option::None => Option::None,
    }
}

/// A single executed or open trade.
#[derive(Debug, PartialEq)]
pub struct TradeRecord {
    pub id: String,
    pub date: String,
    pub pair: String,
    pub trade_type: String,
    pub entry: u64,
    pub exit: Option<u64>,
    pub stop_loss: u64,
    pub take_profit: u64,
    pub size: u64,
    pub status: String,
    pub pnl: Option<u64>,
    pub zone_id: Option<String>,
    pub zone_name: Option<String>,
    pub planned_entry_id: Option<String>,
    pub risk_amount: u64,
    pub risk_ratio: u64,
    pub notes: Option<String>,
    pub created_at: String,
    pub updated_at: String,
}

pub ghost struct TradeModel {
    pub id: Seq<char>,
    pub date: Seq<char>,
    pub pair: Seq<char>,
    pub trade_type: Seq<char>,
    pub entry: u64,
    pub exit: Option<u64>,
    pub stop_loss: u64,
    pub take_profit: u64,
    pub size: u64,
    pub status: Seq<char>,
    pub pnl: Option<u64>,
    pub zone_id: Option<Seq<char>>,
    pub zone_name: Option<Seq<char>>,
    pub planned_entry_id: Option<Seq<char>>,
    pub risk_amount: u64,
    pub risk_ratio: u64,
    pub notes: Option<Seq<char>>,
    pub created_at: Seq<char>,
    pub updated_at: Seq<char>,
}

impl View for TradeRecord {
    type V = TradeModel;

    open spec fn view(&self) -> TradeModel {
        TradeModel {
            id: self.id@,
            date: self.date@,
            pair: self.pair@,
            trade_type: self.trade_type@,
            entry: self.entry,
            exit: self.exit,
            stop_loss: self.stop_loss,
            take_profit: self.take_profit,
            size: self.size,
            status: self.status@,
            pnl: self.pnl,
            zone_id: opt_view(self.zone_id),
            zone_name: opt_view(self.zone_name),
            planned_entry_id: opt_view(self.planned_entry_id),
            risk_amount: self.risk_amount,
            risk_ratio: self.risk_ratio,
            notes: opt_view(self.notes),
            created_at: self.created_at@,
            updated_at: self.updated_at@,
        }
    }
}

/// Clones an optional string, keeping its view.
pub fn clone_opt_string(o: &Option<String>) -> (r: Option<String>)
    ensures
        r == *o,
{
    match o {
        Option::Some(s) => Option::Some(s.clone()),
        Option::None => Option::None,
    }
}

impl Clone for TradeRecord {
    fn clone(&self) -> (res: Self)
        ensures
            res == *self,
    {
        TradeRecord {
            id: self.id.clone(),
            date: self.date.clone(),
            pair: self.pair.clone(),
            trade_type: self.trade_type.clone(),
            entry: self.entry,
            exit: self.exit,
            stop_loss: self.stop_loss,
            take_profit: self.take_profit,
            size: self.size,
            status: self.status.clone(),
            pnl: self.pnl,
            zone_id: clone_opt_string(&self.zone_id),
            zone_name: clone_opt_string(&self.zone_name),
            planned_entry_id: clone_opt_string(&self.planned_entry_id),
            risk_amount: self.risk_amount,
            risk_ratio: self.risk_ratio,
            notes: clone_opt_string(&self.notes),
            created_at: self.created_at.clone(),
            updated_at: self.updated_at.clone(),
        }
    }
}

/// A support/resistance price band.
#[derive(Debug, PartialEq)]
pub struct ZoneRecord {
    pub id: String,
    pub zone_type: String,
    pub name: String,
    pub start_price: u64,
    pub end_price: u64,
    pub strength: String,
    pub break_strength: Option<String>,
    pub position: Option<String>,
    pub liquidity_type: Option<String>,
    pub order_block_relation: Option<String>,
    pub notes: String,
    pub date: String,
    pub active: bool,
    pub created_at: String,
    pub updated_at: String,
}

pub ghost struct ZoneModel {
    pub id: Seq<char>,
    pub zone_type: Seq<char>,
    pub name: Seq<char>,
    pub start_price: u64,
    pub end_price: u64,
    pub strength: Seq<char>,
    pub break_strength: Option<Seq<char>>,
    pub position: Option<Seq<char>>,
    pub liquidity_type: Option<Seq<char>>,
    pub order_block_relation: Option<Seq<char>>,
    pub notes: Seq<char>,
    pub date: Seq<char>,
    pub active: bool,
    pub created_at: Seq<char>,
    pub updated_at: Seq<char>,
}

impl View for ZoneRecord {
    type V = ZoneModel;

    open spec fn view(&self) -> ZoneModel {
        ZoneModel {
            id: self.id@,
            zone_type: self.zone_type@,
            name: self.name@,
            start_price: self.start_price,
            end_price: self.end_price,
            strength: self.strength@,
            break_strength: opt_view(self.break_strength),
            position: opt_view(self.position),
            liquidity_type: opt_view(self.liquidity_type),
            order_block_relation: opt_view(self.order_block_relation),
            notes: self.notes@,
            date: self.date@,
            active: self.active,
            created_at: self.created_at@,
            updated_at: self.updated_at@,
        }
    }
}

impl Clone for ZoneRecord {
    fn clone(&self) -> (res: Self)
        ensures
            res == *self,
    {
        ZoneRecord {
            id: self.id.clone(),
            zone_type: self.zone_type.clone(),
            name: self.name.clone(),
            start_price: self.start_price,
            end_price: self.end_price,
            strength: self.strength.clone(),
            break_strength: clone_opt_string(&self.break_strength),
            position: clone_opt_string(&self.position),
            liquidity_type: clone_opt_string(&self.liquidity_type),
            order_block_relation: clone_opt_string(&self.order_block_relation),
            notes: self.notes.clone(),
            date: self.date.clone(),
            active: self.active,
            created_at: self.created_at.clone(),
            updated_at: self.updated_at.clone(),
        }
    }
}

/// A queued entry plan derived from a zone.
#[derive(Debug, PartialEq)]
pub struct PlannedEntryRecord {
    pub id: String,
    pub zone_id: String,
    pub zone_name: String,
    pub zone_type: String,
    pub entry_level: u64,
    pub take_profit: u64,
    pub stop_loss: u64,
    pub risk_ratio: u64,
    pub planned_entries: i32,
    pub notes: String,
    pub created_at: String,
    pub updated_at: String,
}

pub ghost struct PlannedEntryModel {
    pub id: Seq<char>,
    pub zone_id: Seq<char>,
    pub zone_name: Seq<char>,
    pub zone_type: Seq<char>,
    pub entry_level: u64,
    pub take_profit: u64,
    pub stop_loss: u64,
    pub risk_ratio: u64,
    pub planned_entries: i32,
    pub notes: Seq<char>,
    pub created_at: Seq<char>,
    pub updated_at: Seq<char>,
}

impl View for PlannedEntryRecord {
    type V = PlannedEntryModel;

    open spec fn view(&self) -> PlannedEntryModel {
        PlannedEntryModel {
            id: self.id@,
            zone_id: self.zone_id@,
            zone_name: self.zone_name@,
            zone_type: self.zone_type@,
            entry_level: self.entry_level,
            take_profit: self.take_profit,
            stop_loss: self.stop_loss,
            risk_ratio: self.risk_ratio,
            planned_entries: self.planned_entries,
            notes: self.notes@,
            created_at: self.created_at@,
            updated_at: self.updated_at@,
        }
    }
}

impl Clone for PlannedEntryRecord {
    fn clone(&self) -> (res: Self)
        ensures
            res == *self,
    {
        PlannedEntryRecord {
            id: self.id.clone(),
            zone_id: self.zone_id.clone(),
            zone_name: self.zone_name.clone(),
            zone_type: self.zone_type.clone(),
            entry_level: self.entry_level,
            take_profit: self.take_profit,
            stop_loss: self.stop_loss,
            risk_ratio: self.risk_ratio,
            planned_entries: self.planned_entries,
            notes: self.notes.clone(),
            created_at: self.created_at.clone(),
            updated_at: self.updated_at.clone(),
        }
    }
}

/// One key-value configuration entry.
#[derive(Debug, PartialEq)]
pub struct SettingRecord {
    pub key: String,
    pub value: String,
    pub updated_at: String,
}

pub ghost struct SettingModel {
    pub key: Seq<char>,
    pub value: Seq<char>,
    pub updated_at: Seq<char>,
}

impl View for SettingRecord {
    type V = SettingModel;

    open spec fn view(&self) -> SettingModel {
        SettingModel { key: self.key@, value: self.value@, updated_at: self.updated_at@ }
    }
}

impl Clone for SettingRecord {
    fn clone(&self) -> (res: Self)
        ensures
            res == *self,
    {
        SettingRecord {
            key: self.key.clone(),
            value: self.value.clone(),
            updated_at: self.updated_at.clone(),
        }
    }
}

} // verus!
