use sysrecorder::query::{query_all, query_by_dt, query_db_all};
use sysrecorder::record::{
    ComponentRecord, DecodeError, DiskRecord, OutOfRange, RAMRecord, Record, RecordKind, SqlValue,
    SysRecord,
};

fn text(s: &str) -> SqlValue {
    SqlValue::Text(s.to_string())
}

#[test]
fn insert_statements() {
    let sys = SysRecord { os: "Linux".into(), os_version: "6.1".into(), hostname: "box".into() };
    let st = sys.write_to_db();
    assert_eq!(st.sql, "INSERT INTO sys (os, osversion, hostname) VALUES (?1, ?2, ?3)");
    assert!(matches!(&st.params[2], SqlValue::Text(h) if h == "box"));

    let disk = DiskRecord { timestamp: "2024-01-01 00:00:00".into(), name: "sda".into(), total: 100, available: 40 };
    let st = disk.write_to_db().unwrap();
    assert_eq!(st.sql, "INSERT INTO disk (timestamp, name, total, available) VALUES (?1, ?2, ?3, ?4)");
    assert!(matches!(st.params[2], SqlValue::Integer(100)));
    assert!(matches!(st.params[3], SqlValue::Integer(40)));
}

#[test]
fn counts_past_the_integer_range_are_refused() {
    let disk = DiskRecord { timestamp: "t".into(), name: "n".into(), total: u64::MAX, available: 0 };
    assert_eq!(disk.write_to_db().unwrap_err(), OutOfRange { column: 2 });
    let ram = RAMRecord {
        timestamp: "t".into(),
        total_memory: 1,
        used_memory: 1,
        total_swap: 1,
        used_swap: i64::MAX as u64 + 1,
    };
    assert_eq!(ram.write_to_db().unwrap_err(), OutOfRange { column: 4 });
    let ram = RAMRecord { used_swap: i64::MAX as u64, ..ram };
    assert!(ram.write_to_db().is_ok());
}

#[test]
fn rows_round_trip() {
    let ram = RAMRecord { timestamp: "2024-01-01 00:00:00".into(), total_memory: 8, used_memory: 4, total_swap: 2, used_swap: 1 };
    let back = RAMRecord::from_row(&ram.to_values().unwrap()).unwrap();
    assert_eq!((back.timestamp.as_str(), back.total_memory, back.used_memory, back.total_swap, back.used_swap),
        ("2024-01-01 00:00:00", 8, 4, 2, 1));
    let comp = ComponentRecord { timestamp: "2024-01-01 00:00:00".into(), label: "cpu".into(), temperature: 45.5f64.to_bits() };
    let back = ComponentRecord::from_row(&comp.to_values()).unwrap();
    assert_eq!(f64::from_bits(back.temperature), 45.5);
    assert_eq!(back.label, "cpu");
}

#[test]
fn decode_errors() {
    assert_eq!(SysRecord::from_row(&vec![text("a"), text("b")]).unwrap_err(), DecodeError::ColumnCount);
    assert_eq!(SysRecord::from_row(&vec![text("a"), SqlValue::Integer(1), text("c")]).unwrap_err(), DecodeError::Column(1));
    let row = vec![text("t"), text("sda"), SqlValue::Integer(-1), SqlValue::Integer(0)];
    assert_eq!(DiskRecord::from_row(&row).unwrap_err(), DecodeError::Column(2));
    let row = vec![text("t"), text("cpu"), SqlValue::Integer(45)];
    assert_eq!(ComponentRecord::from_row(&row).unwrap_err(), DecodeError::Column(2));
    let row = vec![text("t"), SqlValue::Null, SqlValue::Integer(0), SqlValue::Integer(0), SqlValue::Integer(0)];
    assert_eq!(RAMRecord::from_row(&row).unwrap_err(), DecodeError::Column(1));
}

#[test]
fn query_statements() {
    assert_eq!(query_all(RecordKind::Ram).sql, "SELECT timestamp, total_memory, used_memory, total_swap, used_swap FROM ram ORDER BY id");
    let q = query_by_dt(RecordKind::Disk, "2024-01-01 00:00:00", "2024-01-02 00:00:00");
    assert_eq!(q.sql, "SELECT timestamp, name, total, available FROM disk WHERE timestamp BETWEEN ?1 AND ?2 ORDER BY id");
    assert!(matches!(&q.params[0], SqlValue::Text(s) if s == "2024-01-01 00:00:00"));
    assert!(matches!(&q.params[1], SqlValue::Text(s) if s == "2024-01-02 00:00:00"));
    let q = query_by_dt(RecordKind::Sys, "a", "b");
    assert_eq!(q.sql, "SELECT os, osversion, hostname FROM sys ORDER BY id");
    assert!(q.params.is_empty());
}

#[test]
fn rows_decode_in_order_or_fail() {
    let rows = vec![
        vec![text("Linux"), text("6.1"), text("a")],
        vec![text("Linux"), text("6.2"), text("b")],
    ];
    let recs = query_db_all(RecordKind::Sys, &rows).unwrap();
    assert_eq!(recs.len(), 2);
    assert!(matches!(&recs[1], Record::Sys(s) if s.hostname == "b" && s.os_version == "6.2"));
    let bad = vec![vec![text("Linux"), text("6.1"), text("a")], vec![text("x")]];
    assert_eq!(query_db_all(RecordKind::Sys, &bad).unwrap_err(), DecodeError::ColumnCount);
    assert!(query_db_all(RecordKind::Disk, &vec![]).unwrap().is_empty());
}
