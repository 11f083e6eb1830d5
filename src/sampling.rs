//! What one tick writes, from a snapshot of the host's metrics, and the
//! identity row written at startup.
use vstd::prelude::*;
use crate::record::{
    Record, RecordKind, SysRecord, SysRecordView, ComponentRecord, DiskRecord, RAMRecord,
    Statement, row_view, insert_text, sys_values, record_timestamp,
};
use crate::timestamp::{Timestamp, timestamp_text};

verus! {

/// Memory and swap, in bytes.
#[derive(Debug, Clone, Copy, PartialEq, Eq, Structural)]
pub struct RamSample {
    pub total_memory: u64,
    pub used_memory: u64,
    pub total_swap: u64,
    pub used_swap: u64,
}

/// One disk's capacity, in bytes.
#[derive(Debug)]
pub struct DiskSample {
    pub name: String,
    pub total: u64,
    pub available: u64,
}

/// One sensor's reading.
#[derive(Debug)]
pub struct SensorSample {
    pub label: String,
    /// Degrees Celsius, as the bit pattern of a 64-bit float.
    pub temperature: u64,
}

/// The metrics of the host at one moment.
#[derive(Debug)]
pub struct Snapshot {
    pub ram: RamSample,
    pub disks: Vec<DiskSample>,
    pub sensors: Vec<SensorSample>,
}

/// `rec` is the memory row of a tick stamped `ts`.
pub open spec fn is_ram_row(rec: Record, ram: RamSample, ts: Seq<char>) -> bool {
    rec matches Record::Ram(x) && x.timestamp@ == ts && x.total_memory == ram.total_memory
        && x.used_memory == ram.used_memory && x.total_swap == ram.total_swap && x.used_swap
        == ram.used_swap
}

/// `rec` is the row of disk `d` in a tick stamped `ts`.
pub open spec fn is_disk_row(rec: Record, d: DiskSample, ts: Seq<char>) -> bool {
    rec matches Record::Disk(x) && x.timestamp@ == ts && x.name@ == d.name@ && x.total == d.total
        && x.available == d.available
}

/// `rec` is the row of sensor `s` in a tick stamped `ts`.
pub open spec fn is_sensor_row(rec: Record, s: SensorSample, ts: Seq<char>) -> bool {
    rec matches Record::Component(x) && x.timestamp@ == ts && x.label@ == s.label@
        && x.temperature == s.temperature
}

/// The rows of one tick: the memory row, then a row per disk, then a row per
/// sensor, in the snapshot's order, all stamped with the same time.
pub fn write_all_records(stamp: &Timestamp, snap: &Snapshot) -> (r: Vec<Record>)
    ensures
        r@.len() == 1 + snap.disks@.len() + snap.sensors@.len(),
        is_ram_row(r@[0], snap.ram, timestamp_text(stamp@)),
        forall|i: int|
            0 <= i < snap.disks@.len() ==> is_disk_row(
                #[trigger] r@[1 + i],
                snap.disks@[i],
                timestamp_text(stamp@),
            ),
        forall|j: int|
            0 <= j < snap.sensors@.len() ==> is_sensor_row(
                #[trigger] r@[1 + snap.disks@.len() + j],
                snap.sensors@[j],
                timestamp_text(stamp@),
            ),
        forall|k: int| 0 <= k < r@.len() ==> record_timestamp(#[trigger] r@[k]) == timestamp_text(stamp@),
{
    let ts = stamp.to_text();
    let mut out: Vec<Record> = Vec::new();
    out.push(
        Record::Ram(
            RAMRecord {
                timestamp: ts.clone(),
                total_memory: snap.ram.total_memory,
                used_memory: snap.ram.used_memory,
                total_swap: snap.ram.total_swap,
                used_swap: snap.ram.used_swap,
            },
        ),
    );
    let mut i: usize = 0;
    while i < snap.disks.len()
        invariant
            ts@ == timestamp_text(stamp@),
            i <= snap.disks@.len(),
            out@.len() == 1 + i,
            is_ram_row(out@[0], snap.ram, ts@),
            forall|a: int| 0 <= a < i ==> is_disk_row(#[trigger] out@[1 + a], snap.disks@[a], ts@),
            forall|k: int| 0 <= k < out@.len() ==> record_timestamp(#[trigger] out@[k]) == ts@,
        decreases snap.disks@.len() - i,
    {
        let d = &snap.disks[i];
        out.push(
            Record::Disk(
                DiskRecord {
                    timestamp: ts.clone(),
                    name: d.name.clone(),
                    total: d.total,
                    available: d.available,
                },
            ),
        );
        i = i + 1;
    }
    let nd = snap.disks.len();
    let mut j: usize = 0;
    while j < snap.sensors.len()
        invariant
            ts@ == timestamp_text(stamp@),
            nd == snap.disks@.len(),
            j <= snap.sensors@.len(),
            out@.len() == 1 + nd + j,
            is_ram_row(out@[0], snap.ram, ts@),
            forall|a: int| 0 <= a < nd ==> is_disk_row(#[trigger] out@[1 + a], snap.disks@[a], ts@),
            forall|b: int|
                0 <= b < j ==> is_sensor_row(#[trigger] out@[1 + nd + b], snap.sensors@[b], ts@),
            forall|k: int| 0 <= k < out@.len() ==> record_timestamp(#[trigger] out@[k]) == ts@,
        decreases snap.sensors@.len() - j,
    {
        let s = &snap.sensors[j];
        out.push(
            Record::Component(
                ComponentRecord {
                    timestamp: ts.clone(),
                    label: s.label.clone(),
                    temperature: s.temperature,
                },
            ),
        );
        j = j + 1;
    }
    out
}

// ---- the identity row ----

/// Some row of `rows` names host `host`.
pub open spec fn hostname_present(rows: Seq<SysRecordView>, host: Seq<char>) -> bool {
    exists|i: int| 0 <= i < rows.len() && (#[trigger] rows[i]).hostname == host
}

/// How many rows of `rows` name host `host`.
pub open spec fn host_count(rows: Seq<SysRecordView>, host: Seq<char>) -> nat
    decreases rows.len(),
{
    if rows.len() == 0 {
        0
    } else {
        host_count(rows.drop_last(), host) + if rows.last().hostname == host {
            1nat
        } else {
            0nat
        }
    }
}

/// The sys table after startup with identity `current`: one row is added
/// where no row names its host.
pub open spec fn after_startup(rows: Seq<SysRecordView>, current: SysRecordView) -> Seq<
    SysRecordView,
> {
    if hostname_present(rows, current.hostname) {
        rows
    } else {
        rows.push(current)
    }
}

pub open spec fn sys_views(rows: Seq<SysRecord>) -> Seq<SysRecordView> {
    rows.map_values(|r: SysRecord| r@)
}

/// The statement that writes the host's identity at startup, where no
/// existing row names its host; none where one does.
pub fn write_sysdata(existing: &Vec<SysRecord>, current: &SysRecord) -> (r: Option<Statement>)
    ensures
        r is Some <==> !hostname_present(sys_views(existing@), current.hostname@),
        r matches Some(st) ==> st.sql@ == insert_text(RecordKind::Sys) && row_view(st.params@)
            == sys_values(current@),
{
    let mut i: usize = 0;
    while i < existing.len()
        invariant
            i <= existing@.len(),
            forall|k: int| 0 <= k < i ==> (#[trigger] sys_views(existing@)[k]).hostname != current.hostname@,
        decreases existing@.len() - i,
    {
        if existing[i].hostname == current.hostname {
            assert(sys_views(existing@)[i as int].hostname == current.hostname@);
            return None;
        }
        i = i + 1;
    }
    Some(current.write_to_db())
}

proof fn lemma_count_present(rows: Seq<SysRecordView>, host: Seq<char>)
    ensures
        (host_count(rows, host) > 0) == hostname_present(rows, host),
    decreases rows.len(),
{
    if rows.len() > 0 {
        lemma_count_present(rows.drop_last(), host);
        if hostname_present(rows.drop_last(), host) {
            let i = choose|i: int|
                0 <= i < rows.drop_last().len() && (#[trigger] rows.drop_last()[i]).hostname == host;
            assert(rows[i] == rows.drop_last()[i]);
        }
        if hostname_present(rows, host) && rows.last().hostname != host {
            let i = choose|i: int| 0 <= i < rows.len() && (#[trigger] rows[i]).hostname == host;
            assert(rows.drop_last()[i] == rows[i]);
        }
        if rows.last().hostname == host {
            assert(rows[rows.len() - 1].hostname == host);
        }
    }
}

/// Running startup twice with the same identity leaves exactly one row for
/// that host, where there was at most one before; the second run changes
/// nothing.
pub proof fn lemma_startup_idempotent(rows: Seq<SysRecordView>, current: SysRecordView)
    requires
        host_count(rows, current.hostname) <= 1,
    ensures
        after_startup(after_startup(rows, current), current) == after_startup(rows, current),
        host_count(after_startup(after_startup(rows, current), current), current.hostname) == 1,
{
    let once = after_startup(rows, current);
    lemma_count_present(rows, current.hostname);
    if !hostname_present(rows, current.hostname) {
        assert(once.drop_last() =~= rows);
        assert(once[once.len() - 1].hostname == current.hostname);
    }
    lemma_count_present(once, current.hostname);
}

} // verus!
