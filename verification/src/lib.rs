//! A verified persistence engine for a desktop trading journal: four keyed
//! tables (trades, zones, planned entries, settings) with upsert semantics,
//! date-ordered listings, whole-store export and import as a JSON document,
//! and counts that never fail.

pub mod clock;
pub mod decode;
pub mod emit;
pub mod error;
pub mod json;
pub mod laws;
pub mod order;
pub mod parse;
pub mod records;
pub mod store;
pub mod table;
pub mod transfer;
