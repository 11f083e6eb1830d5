use rusqlite::types::Value;
use rusqlite::Connection;
use sysrecorder::engine::{Action, Command, Engine, Wake};
use sysrecorder::query::{query_all, query_by_dt, query_db_all};
use sysrecorder::record::{Record, RecordKind, SqlValue, Statement, SysRecord};
use sysrecorder::sampling::{write_all_records, write_sysdata, DiskSample, RamSample, SensorSample, Snapshot};
use sysrecorder::timestamp::Timestamp;

fn to_sql(v: &SqlValue) -> Value {
    match v {
        SqlValue::Null => Value::Null,
        SqlValue::Integer(i) => Value::Integer(*i),
        SqlValue::Real(b) => Value::Real(f64::from_bits(*b)),
        SqlValue::Text(s) => Value::Text(s.clone()),
        SqlValue::Blob(b) => Value::Blob(b.clone()),
    }
}

fn from_sql(v: Value) -> SqlValue {
    match v {
        Value::Null => SqlValue::Null,
        Value::Integer(i) => SqlValue::Integer(i),
        Value::Real(f) => SqlValue::Real(f.to_bits()),
        Value::Text(s) => SqlValue::Text(s),
        Value::Blob(b) => SqlValue::Blob(b),
    }
}

fn fresh_store() -> Connection {
    let conn = Connection::open_in_memory().unwrap();
    for kind in RecordKind::all() {
        conn.execute(kind.create_sql(), ()).unwrap();
        conn.execute(kind.create_sql(), ()).unwrap();
    }
    conn
}

fn execute(conn: &Connection, st: &Statement) {
    let params: Vec<Value> = st.params.iter().map(to_sql).collect();
    conn.execute(&st.sql, rusqlite::params_from_iter(params)).unwrap();
}

fn fetch(conn: &Connection, kind: RecordKind, st: &Statement) -> Vec<Record> {
    let params: Vec<Value> = st.params.iter().map(to_sql).collect();
    let mut stmt = conn.prepare(&st.sql).unwrap();
    let n = stmt.column_count();
    let rows: Vec<Vec<SqlValue>> = stmt
        .query_map(rusqlite::params_from_iter(params), |row| {
            (0..n).map(|i| row.get::<_, Value>(i).map(from_sql)).collect()
        })
        .unwrap()
        .map(|r| r.unwrap())
        .collect();
    query_db_all(kind, &rows).unwrap()
}

fn stamp(h: u32, mi: u32, s: u32) -> Timestamp {
    Timestamp::new(2024, 5, 6, h, mi, s).unwrap()
}

fn snapshot() -> Snapshot {
    Snapshot {
        ram: RamSample { total_memory: 16, used_memory: 8, total_swap: 4, used_swap: 1 },
        disks: vec![
            DiskSample { name: "sda".into(), total: 500, available: 200 },
            DiskSample { name: "sdb".into(), total: 1000, available: 999 },
        ],
        sensors: vec![SensorSample { label: "cpu".into(), temperature: 51.25f64.to_bits() }],
    }
}

fn write_tick(conn: &Connection, t: &Timestamp) {
    for rec in write_all_records(t, &snapshot()) {
        execute(conn, &rec.write_to_db().unwrap());
    }
}

fn timestamps(recs: &[Record]) -> Vec<String> {
    recs.iter()
        .map(|r| match r {
            Record::Component(x) => x.timestamp.clone(),
            Record::Disk(x) => x.timestamp.clone(),
            Record::Ram(x) => x.timestamp.clone(),
            Record::Sys(_) => String::new(),
        })
        .collect()
}

fn identity(host: &str) -> SysRecord {
    SysRecord { os: "Linux".into(), os_version: "6.1".into(), hostname: host.into() }
}

fn startup(conn: &Connection, me: &SysRecord) {
    let existing: Vec<SysRecord> = fetch(conn, RecordKind::Sys, &query_all(RecordKind::Sys))
        .into_iter()
        .map(|r| match r {
            Record::Sys(s) => s,
            _ => unreachable!(),
        })
        .collect();
    if let Some(st) = write_sysdata(&existing, me) {
        execute(conn, &st);
    }
}

#[test]
fn identity_is_written_once_per_host() {
    let conn = fresh_store();
    startup(&conn, &identity("alpha"));
    startup(&conn, &identity("alpha"));
    startup(&conn, &identity("beta"));
    startup(&conn, &identity("alpha"));
    let rows = fetch(&conn, RecordKind::Sys, &query_all(RecordKind::Sys));
    let hosts: Vec<String> = rows
        .iter()
        .map(|r| match r {
            Record::Sys(s) => s.hostname.clone(),
            _ => unreachable!(),
        })
        .collect();
    assert_eq!(hosts, vec!["alpha".to_string(), "beta".to_string()]);
}

#[test]
fn tick_rows_share_one_timestamp() {
    let t = stamp(10, 0, 0);
    let recs = write_all_records(&t, &snapshot());
    assert_eq!(recs.len(), 4);
    assert!(matches!(&recs[0], Record::Ram(r) if r.used_memory == 8));
    assert!(matches!(&recs[2], Record::Disk(d) if d.name == "sdb" && d.available == 999));
    assert!(matches!(&recs[3], Record::Component(c) if c.label == "cpu"));
    assert!(timestamps(&recs).iter().all(|s| s == "2024-05-06 10:00:00"));
}

#[test]
fn range_query_includes_both_bounds() {
    let conn = fresh_store();
    let (t1, t2, t3) = (stamp(9, 0, 0), stamp(9, 0, 10), stamp(9, 0, 20));
    for t in [&t1, &t2, &t3] {
        write_tick(&conn, t);
    }
    for kind in [RecordKind::Component, RecordKind::Disk, RecordKind::Ram] {
        let q = query_by_dt(kind, &t1.to_text(), &t2.to_text());
        let got = timestamps(&fetch(&conn, kind, &q));
        let per_tick = match kind {
            RecordKind::Disk => 2,
            _ => 1,
        };
        assert_eq!(got.len(), 2 * per_tick, "{:?}", kind);
        assert!(got.iter().all(|s| *s == t1.to_text() || *s == t2.to_text()));
        assert!(got.iter().any(|s| *s == t1.to_text()) && got.iter().any(|s| *s == t2.to_text()));
    }
}

#[test]
fn inverted_range_query_is_empty() {
    let conn = fresh_store();
    let (t1, t3) = (stamp(9, 0, 0), stamp(9, 0, 20));
    write_tick(&conn, &t1);
    write_tick(&conn, &t3);
    for kind in [RecordKind::Component, RecordKind::Disk, RecordKind::Ram] {
        let q = query_by_dt(kind, &t3.to_text(), &t1.to_text());
        assert!(fetch(&conn, kind, &q).is_empty());
    }
}

#[test]
fn temperature_survives_the_store() {
    let conn = fresh_store();
    write_tick(&conn, &stamp(8, 0, 0));
    let recs = fetch(&conn, RecordKind::Component, &query_all(RecordKind::Component));
    assert!(matches!(&recs[0], Record::Component(c) if f64::from_bits(c.temperature) == 51.25));
}

#[test]
fn start_tick_stop_scenario() {
    let conn = fresh_store();
    startup(&conn, &identity("host-1"));
    assert_eq!(fetch(&conn, RecordKind::Sys, &query_all(RecordKind::Sys)).len(), 1);

    let mut engine = Engine::new(1);
    let mut clock = 0u32;
    let mut run = |engine: &mut Engine, wake: Wake| {
        if let Action::Sample { .. } = engine.on_wake(wake) {
            clock += 1;
            write_tick(&conn, &stamp(12, 0, clock));
        }
    };
    run(&mut engine, Wake::Command(Command::Start));
    run(&mut engine, Wake::TimerElapsed);
    let ram = fetch(&conn, RecordKind::Ram, &query_all(RecordKind::Ram));
    assert_eq!(ram.len(), 2);
    let first_tick: Vec<String> = timestamps(&fetch(&conn, RecordKind::Disk, &query_all(RecordKind::Disk)))[..2].to_vec();
    assert_eq!(first_tick[0], first_tick[1]);

    run(&mut engine, Wake::Command(Command::Stop));
    assert_eq!(engine.wait_limit(), None);
    run(&mut engine, Wake::TimerElapsed);
    run(&mut engine, Wake::TimerElapsed);
    assert_eq!(fetch(&conn, RecordKind::Ram, &query_all(RecordKind::Ram)).len(), 2);
    assert_eq!(fetch(&conn, RecordKind::Component, &query_all(RecordKind::Component)).len(), 2);
}
