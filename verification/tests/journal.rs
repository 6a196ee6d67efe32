use trading_journal::error::StorageError;
use trading_journal::records::{PlannedEntryRecord, SettingRecord, TradeRecord, ZoneRecord};
use trading_journal::store::Database;

fn trade(id: &str, date: &str, pair: &str, entry: f64) -> TradeRecord {
    TradeRecord {
        id: id.to_string(),
        date: date.to_string(),
        pair: pair.to_string(),
        trade_type: "long".to_string(),
        entry: entry.to_bits(),
        exit: None,
        stop_loss: 1.0950f64.to_bits(),
        take_profit: 1.1100f64.to_bits(),
        size: 10000.0f64.to_bits(),
        status: "open".to_string(),
        pnl: None,
        zone_id: None,
        zone_name: None,
        planned_entry_id: None,
        risk_amount: 50.0f64.to_bits(),
        risk_ratio: 2.0f64.to_bits(),
        notes: None,
        created_at: "2024-01-01T00:00:00Z".to_string(),
        updated_at: "2024-01-01T00:00:00Z".to_string(),
    }
}

fn zone(id: &str, date: &str, name: &str) -> ZoneRecord {
    ZoneRecord {
        id: id.to_string(),
        zone_type: "supply".to_string(),
        name: name.to_string(),
        start_price: 1.2f64.to_bits(),
        end_price: 1.25f64.to_bits(),
        strength: "strong".to_string(),
        break_strength: None,
        position: Some("above".to_string()),
        liquidity_type: None,
        order_block_relation: None,
        notes: "note \"quoted\"\nsecond line\t(tabbed) \\ backslash".to_string(),
        date: date.to_string(),
        active: true,
        created_at: "2024-01-02T00:00:00Z".to_string(),
        updated_at: "2024-01-02T00:00:00Z".to_string(),
    }
}

fn planned(id: &str, created: &str) -> PlannedEntryRecord {
    PlannedEntryRecord {
        id: id.to_string(),
        zone_id: "z1".to_string(),
        zone_name: "Zone One".to_string(),
        zone_type: "demand".to_string(),
        entry_level: 1.08f64.to_bits(),
        take_profit: 1.10f64.to_bits(),
        stop_loss: 1.07f64.to_bits(),
        risk_ratio: 2.0f64.to_bits(),
        planned_entries: -3,
        notes: "queued".to_string(),
        created_at: created.to_string(),
        updated_at: created.to_string(),
    }
}

#[test]
fn save_then_get_trades_round_trip() {
    let mut db = Database::new();
    let t = trade("t1", "2024-03-01", "EURUSD", 1.1000);
    db.save_trade(&t).unwrap();
    let all = db.get_trades().unwrap();
    assert_eq!(all.len(), 1);
    assert_eq!(all[0], t);
    assert_eq!(all[0].entry, 1.1000f64.to_bits());
    assert_eq!(f64::from_bits(all[0].risk_amount), 50.0);
}

#[test]
fn save_existing_id_replaces_row() {
    let mut db = Database::new();
    db.save_trade(&trade("t1", "2024-03-01", "EURUSD", 1.1)).unwrap();
    let replacement = trade("t1", "2024-03-05", "GBPUSD", 1.3);
    db.save_trade(&replacement).unwrap();
    let all = db.get_trades().unwrap();
    assert_eq!(all.len(), 1);
    assert_eq!(all[0], replacement);
}

#[test]
fn trades_are_ordered_by_date_descending() {
    let mut db = Database::new();
    db.save_trade(&trade("a", "2024-01-10", "EURUSD", 1.0)).unwrap();
    db.save_trade(&trade("b", "2024-03-10", "EURUSD", 1.0)).unwrap();
    db.save_trade(&trade("c", "2024-02-10", "EURUSD", 1.0)).unwrap();
    let all = db.get_trades().unwrap();
    let ids: Vec<&str> = all.iter().map(|t| t.id.as_str()).collect();
    assert_eq!(ids, vec!["b", "c", "a"]);
}

#[test]
fn delete_missing_id_is_silent_no_op() {
    let mut db = Database::new();
    db.save_trade(&trade("t1", "2024-03-01", "EURUSD", 1.1)).unwrap();
    assert!(db.delete_trade("no-such-id").is_ok());
    assert_eq!(db.get_trades().unwrap().len(), 1);
    assert!(db.delete_zone("nothing").is_ok());
    assert!(db.delete_planned_entry("nothing").is_ok());
}

#[test]
fn delete_existing_trade_removes_it() {
    let mut db = Database::new();
    db.save_trade(&trade("t1", "2024-03-01", "EURUSD", 1.1)).unwrap();
    db.save_trade(&trade("t2", "2024-03-02", "EURUSD", 1.2)).unwrap();
    db.delete_trade("t1").unwrap();
    let all = db.get_trades().unwrap();
    assert_eq!(all.len(), 1);
    assert_eq!(all[0].id, "t2");
}

#[test]
fn zones_and_planned_entries_round_trip() {
    let mut db = Database::new();
    let z = zone("z1", "2024-02-02", "Weekly supply");
    let p = planned("p1", "2024-02-03T10:00:00Z");
    db.save_zone(&z).unwrap();
    db.save_planned_entry(&p).unwrap();
    assert_eq!(db.get_zones().unwrap(), vec![z]);
    assert_eq!(db.get_planned_entries().unwrap(), vec![p]);
}

#[test]
fn setting_overwrite_keeps_one_row_with_newer_timestamp() {
    let mut db = Database::new();
    db.save_setting("k", "v1").unwrap();
    let first = db.get_all_settings().unwrap();
    assert_eq!(first.len(), 1);
    let ts1 = first[0].updated_at.clone();
    let mut ts2 = ts1.clone();
    for _ in 0..1000 {
        db.save_setting("k", "v2").unwrap();
        ts2 = db.get_all_settings().unwrap()[0].updated_at.clone();
        if ts2 != ts1 {
            break;
        }
    }
    let rows = db.get_all_settings().unwrap();
    assert_eq!(rows.len(), 1);
    assert_eq!(rows[0].key, "k");
    assert_eq!(rows[0].value, "v2");
    assert!(ts2 > ts1, "second save must carry a strictly later timestamp");
}

#[test]
fn get_setting_distinguishes_absent_from_empty() {
    let mut db = Database::new();
    assert_eq!(db.get_setting("missing").unwrap(), None);
    db.save_setting("present", "").unwrap();
    assert_eq!(db.get_setting("present").unwrap(), Some(String::new()));
}

#[test]
fn statistics_total_is_sum_of_counts() {
    let mut db = Database::new();
    db.save_trade(&trade("t1", "2024-03-01", "EURUSD", 1.1)).unwrap();
    db.save_trade(&trade("t2", "2024-03-02", "EURUSD", 1.2)).unwrap();
    db.save_zone(&zone("z1", "2024-02-02", "Z")).unwrap();
    db.save_planned_entry(&planned("p1", "2024-02-03")).unwrap();
    db.save_setting("k", "v").unwrap();
    let info = db.get_database_info();
    assert_eq!(info.trades, 2);
    assert_eq!(info.zones, 1);
    assert_eq!(info.planned_entries, 1);
    assert_eq!(info.settings, 1);
    assert_eq!(info.total_records, 5);
    db.clear_all_data().unwrap();
    let info = db.get_database_info();
    assert_eq!(info.total_records, 0);
    assert_eq!(info.trades, 0);
    assert_eq!(info.zones, 0);
    assert_eq!(info.planned_entries, 0);
    assert_eq!(info.settings, 0);
}

#[test]
fn export_clear_import_restores_every_table() {
    let mut db = Database::new();
    let t1 = trade("t1", "2024-03-01", "EURUSD", 1.1);
    let mut t2 = trade("t2", "2024-03-02", "USDJPY", 155.5);
    t2.exit = Some(156.0f64.to_bits());
    t2.pnl = Some((-12.5f64).to_bits());
    t2.notes = Some("closed early\nsee journal \"page 4\"".to_string());
    let z = zone("z1", "2024-02-02", "Weekly supply");
    let p = planned("p1", "2024-02-03T10:00:00Z");
    db.save_trade(&t1).unwrap();
    db.save_trade(&t2).unwrap();
    db.save_zone(&z).unwrap();
    db.save_planned_entry(&p).unwrap();
    db.save_setting("theme", "dark").unwrap();
    let before_trades = db.get_trades().unwrap();
    let before_zones = db.get_zones().unwrap();
    let before_entries = db.get_planned_entries().unwrap();
    let before_settings = db.get_all_settings().unwrap();

    let doc = db.export_data().unwrap();
    db.clear_all_data().unwrap();
    assert_eq!(db.get_database_info().total_records, 0);
    db.import_data(&doc).unwrap();

    assert_eq!(db.get_trades().unwrap(), before_trades);
    assert_eq!(db.get_zones().unwrap(), before_zones);
    assert_eq!(db.get_planned_entries().unwrap(), before_entries);
    assert_eq!(db.get_all_settings().unwrap(), before_settings);
}

#[test]
fn export_document_shape_and_number_form() {
    let mut db = Database::new();
    let mut t = trade("t1", "2024-03-01", "EURUSD", 1.0);
    t.entry = 1.0f64.to_bits();
    db.save_trade(&t).unwrap();
    let doc = db.export_data().unwrap();
    assert!(doc.starts_with("{\"trades\":[{\"id\":\"t1\","));
    assert!(doc.contains("\"zones\":[]"));
    assert!(doc.contains("\"planned_entries\":[]"));
    assert!(doc.contains("\"settings\":[]"));
    assert!(doc.contains("\"export_date\":\""));
    assert!(doc.ends_with("\",\"version\":\"1.0\"}"));
    // 1.0 as raw IEEE-754 bits
    assert!(doc.contains("\"entry\":4607182418800017408"));
}

#[test]
fn import_accepts_whitespace_and_unknown_members() {
    let mut db = Database::new();
    let doc = "{ \"version\" : \"9.9\" , \"settings\" : [ { \"key\" : \"a\" , \"value\" : \"b\" , \"updated_at\" : \"2024-01-01T00:00:00Z\" } ] , \"extra\" : null }";
    db.import_data(doc).unwrap();
    let rows = db.get_all_settings().unwrap();
    assert_eq!(rows.len(), 1);
    assert_eq!(rows[0].key, "a");
    assert_eq!(rows[0].value, "b");
    assert_eq!(rows[0].updated_at, "2024-01-01T00:00:00Z");
}

#[test]
fn import_with_malformed_record_fails_and_leaves_store_unchanged() {
    let mut db = Database::new();
    db.save_setting("keep", "me").unwrap();
    db.save_trade(&trade("t1", "2024-03-01", "EURUSD", 1.1)).unwrap();
    // a trade missing every required field
    let doc = "{\"trades\":[{\"id\":\"broken\"}]}";
    let r = db.import_data(doc);
    assert!(r.is_err());
    // import validates the whole document before touching any table
    assert_eq!(db.get_trades().unwrap().len(), 1);
    assert_eq!(db.get_all_settings().unwrap().len(), 1);
    match r {
        Err(e) => {
            let msg = e.message();
            assert!(msg.starts_with("import decode error: "));
        }
        Ok(()) => unreachable!(),
    }
}

#[test]
fn import_rejects_text_that_is_not_an_object() {
    let mut db = Database::new();
    assert!(db.import_data("[1,2,3]").is_err());
    assert!(db.import_data("not json at all").is_err());
    assert!(db.import_data("").is_err());
}

#[test]
fn import_ignores_table_key_with_non_array_value() {
    let mut db = Database::new();
    db.save_trade(&trade("t1", "2024-03-01", "EURUSD", 1.1)).unwrap();
    // "trades" present but not an array: no trades are imported, the
    // store is still replaced (cleared) by the document
    db.import_data("{\"trades\":\"oops\"}").unwrap();
    assert_eq!(db.get_trades().unwrap().len(), 0);
}

#[test]
fn import_duplicate_ids_collapse_to_last_row() {
    let mut db = Database::new();
    let doc = "{\"settings\":[\
        {\"key\":\"k\",\"value\":\"first\",\"updated_at\":\"2024-01-01T00:00:00Z\"},\
        {\"key\":\"k\",\"value\":\"second\",\"updated_at\":\"2024-01-02T00:00:00Z\"}]}";
    db.import_data(doc).unwrap();
    let rows = db.get_all_settings().unwrap();
    assert_eq!(rows.len(), 1);
    assert_eq!(rows[0].value, "second");
}

#[test]
fn import_reads_escapes_and_signed_integers() {
    let mut db = Database::new();
    let doc = "{\"planned_entries\":[{\"id\":\"p\\\"1\\\"\",\"zone_id\":\"z\",\"zone_name\":\"line\\nbreak\",\"zone_type\":\"d\",\"entry_level\":1,\"take_profit\":2,\"stop_loss\":3,\"risk_ratio\":4,\"planned_entries\":-7,\"notes\":\"tab\\there\",\"created_at\":\"c\",\"updated_at\":\"u\"}]}";
    db.import_data(doc).unwrap();
    let rows = db.get_planned_entries().unwrap();
    assert_eq!(rows.len(), 1);
    assert_eq!(rows[0].id, "p\"1\"");
    assert_eq!(rows[0].zone_name, "line\nbreak");
    assert_eq!(rows[0].notes, "tab\there");
    assert_eq!(rows[0].planned_entries, -7);
}

#[test]
fn decode_error_message_is_flattened_string() {
    let e = StorageError::Decode { detail: "boom".to_string() };
    assert_eq!(e.message(), "import decode error: boom");
}
