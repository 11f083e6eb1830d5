//! The four kinds of record, their tables, and how a record becomes a row of
//! column values and back.
use vstd::prelude::*;

verus! {

/// The tables of the store, one per kind of record.
#[derive(Debug, Clone, Copy, PartialEq, Eq, Structural)]
pub enum RecordKind {
    Sys,
    Component,
    Disk,
    Ram,
}

/// A value of one column, as the store holds it. A real number is held as
/// the IEEE 754 bit pattern of its 64-bit binary form.
#[derive(Debug)]
pub enum SqlValue {
    Null,
    Integer(i64),
    Real(u64),
    Text(String),
    Blob(Vec<u8>),
}

pub enum SqlValueView {
    Null,
    Integer(int),
    Real(u64),
    Text(Seq<char>),
    Blob(Seq<u8>),
}

impl View for SqlValue {
    type V = SqlValueView;

    open spec fn view(&self) -> SqlValueView {
        match self {
            SqlValue::Null => SqlValueView::Null,
            SqlValue::Integer(i) => SqlValueView::Integer(*i as int),
            SqlValue::Real(b) => SqlValueView::Real(*b),
            SqlValue::Text(s) => SqlValueView::Text(s@),
            SqlValue::Blob(b) => SqlValueView::Blob(b@),
        }
    }
}

/// The values of a row, in column order.
pub open spec fn row_view(row: Seq<SqlValue>) -> Seq<SqlValueView> {
    row.map_values(|v: SqlValue| v@)
}

/// Why a row does not give a record.
#[derive(Debug, Clone, Copy, PartialEq, Eq, Structural)]
pub enum DecodeError {
    /// The row has another number of columns than the record.
    ColumnCount,
    /// The value of this column has another type, or does not fit the field.
    Column(usize),
}

/// A value that the store's integer columns cannot hold: SQLite integers are
/// signed 64-bit.
#[derive(Debug, Clone, Copy, PartialEq, Eq, Structural)]
pub struct OutOfRange {
    pub column: usize,
}

/// The identity of the host: written once per host name.
#[derive(Debug)]
pub struct SysRecord {
    pub os: String,
    pub os_version: String,
    pub hostname: String,
}

/// One sensor's reading at one tick.
#[derive(Debug)]
pub struct ComponentRecord {
    pub timestamp: String,
    pub label: String,
    /// Degrees Celsius, as the bit pattern of a 64-bit float.
    pub temperature: u64,
}

/// One disk's capacity at one tick.
#[derive(Debug)]
pub struct DiskRecord {
    pub timestamp: String,
    pub name: String,
    pub total: u64,
    pub available: u64,
}

/// Memory and swap use at one tick.
#[derive(Debug)]
pub struct RAMRecord {
    pub timestamp: String,
    pub total_memory: u64,
    pub used_memory: u64,
    pub total_swap: u64,
    pub used_swap: u64,
}

pub struct SysRecordView {
    pub os: Seq<char>,
    pub os_version: Seq<char>,
    pub hostname: Seq<char>,
}

pub struct ComponentRecordView {
    pub timestamp: Seq<char>,
    pub label: Seq<char>,
    pub temperature: u64,
}

pub struct DiskRecordView {
    pub timestamp: Seq<char>,
    pub name: Seq<char>,
    pub total: u64,
    pub available: u64,
}

pub struct RAMRecordView {
    pub timestamp: Seq<char>,
    pub total_memory: u64,
    pub used_memory: u64,
    pub total_swap: u64,
    pub used_swap: u64,
}

impl View for SysRecord {
    type V = SysRecordView;

    open spec fn view(&self) -> SysRecordView {
        SysRecordView { os: self.os@, os_version: self.os_version@, hostname: self.hostname@ }
    }
}

impl View for ComponentRecord {
    type V = ComponentRecordView;

    open spec fn view(&self) -> ComponentRecordView {
        ComponentRecordView {
            timestamp: self.timestamp@,
            label: self.label@,
            temperature: self.temperature,
        }
    }
}

impl View for DiskRecord {
    type V = DiskRecordView;

    open spec fn view(&self) -> DiskRecordView {
        DiskRecordView {
            timestamp: self.timestamp@,
            name: self.name@,
            total: self.total,
            available: self.available,
        }
    }
}

impl View for RAMRecord {
    type V = RAMRecordView;

    open spec fn view(&self) -> RAMRecordView {
        RAMRecordView {
            timestamp: self.timestamp@,
            total_memory: self.total_memory,
            used_memory: self.used_memory,
            total_swap: self.total_swap,
            used_swap: self.used_swap,
        }
    }
}

/// Any one record, tagged with its kind.
#[derive(Debug)]
pub enum Record {
    Sys(SysRecord),
    Component(ComponentRecord),
    Disk(DiskRecord),
    Ram(RAMRecord),
}

/// A statement for the store: SQL text and the values bound to `?1`, `?2`, ...
#[derive(Debug)]
pub struct Statement {
    pub sql: String,
    pub params: Vec<SqlValue>,
}

// ---- column values ----

pub open spec fn fits_integer(v: u64) -> bool {
    v <= i64::MAX
}

/// Rows of the store hold a count as a non-negative integer.
pub open spec fn count_of(v: SqlValueView) -> Option<u64> {
    match v {
        SqlValueView::Integer(i) => if 0 <= i <= u64::MAX {
            Some(i as u64)
        } else {
            None
        },
        _ => None,
    }
}

pub open spec fn text_of(v: SqlValueView) -> Option<Seq<char>> {
    match v {
        SqlValueView::Text(s) => Some(s),
        _ => None,
    }
}

pub open spec fn real_of(v: SqlValueView) -> Option<u64> {
    match v {
        SqlValueView::Real(b) => Some(b),
        _ => None,
    }
}

fn text_value(s: &String) -> (r: SqlValue)
    ensures
        r@ == SqlValueView::Text(s@),
{
    SqlValue::Text(s.clone())
}

fn count_value(v: u64, column: usize) -> (r: Result<SqlValue, OutOfRange>)
    ensures
        r is Ok <==> fits_integer(v),
        r matches Ok(x) ==> x@ == SqlValueView::Integer(v as int),
        r matches Err(e) ==> e.column == column,
{
    if v <= i64::MAX as u64 {
        Ok(SqlValue::Integer(v as i64))
    } else {
        Err(OutOfRange { column })
    }
}

fn decode_text(v: &SqlValue, column: usize) -> (r: Result<String, DecodeError>)
    ensures
        r is Ok <==> text_of(v@) is Some,
        r matches Ok(s) ==> s@ == text_of(v@)->0,
        r matches Err(e) ==> e == DecodeError::Column(column),
{
    match v {
        SqlValue::Text(s) => Ok(s.clone()),
        _ => Err(DecodeError::Column(column)),
    }
}

fn decode_count(v: &SqlValue, column: usize) -> (r: Result<u64, DecodeError>)
    ensures
        r is Ok <==> count_of(v@) is Some,
        r matches Ok(n) ==> n == count_of(v@)->0,
        r matches Err(e) ==> e == DecodeError::Column(column),
{
    match v {
        SqlValue::Integer(i) => {
            if *i >= 0 {
                Ok(*i as u64)
            } else {
                Err(DecodeError::Column(column))
            }
        },
        _ => Err(DecodeError::Column(column)),
    }
}

fn decode_real(v: &SqlValue, column: usize) -> (r: Result<u64, DecodeError>)
    ensures
        r is Ok <==> real_of(v@) is Some,
        r matches Ok(b) ==> b == real_of(v@)->0,
        r matches Err(e) ==> e == DecodeError::Column(column),
{
    match v {
        SqlValue::Real(b) => Ok(*b),
        _ => Err(DecodeError::Column(column)),
    }
}

// ---- SQL text of each table ----

pub open spec fn create_text(kind: RecordKind) -> Seq<char> {
    match kind {
        RecordKind::Sys => "CREATE TABLE IF NOT EXISTS sys (id INTEGER PRIMARY KEY, os TEXT NOT NULL, osversion TEXT NOT NULL, hostname TEXT NOT NULL)"@,
        RecordKind::Component => "CREATE TABLE IF NOT EXISTS component (id INTEGER PRIMARY KEY, timestamp TEXT NOT NULL, label TEXT NOT NULL, temp REAL NOT NULL)"@,
        RecordKind::Disk => "CREATE TABLE IF NOT EXISTS disk (id INTEGER PRIMARY KEY, timestamp TEXT NOT NULL, name TEXT NOT NULL, total INTEGER NOT NULL, available INTEGER NOT NULL)"@,
        RecordKind::Ram => "CREATE TABLE IF NOT EXISTS ram (id INTEGER PRIMARY KEY, timestamp TEXT NOT NULL, total_memory INTEGER NOT NULL, used_memory INTEGER NOT NULL, total_swap INTEGER NOT NULL, used_swap INTEGER NOT NULL)"@,
    }
}

pub open spec fn insert_text(kind: RecordKind) -> Seq<char> {
    match kind {
        RecordKind::Sys => "INSERT INTO sys (os, osversion, hostname) VALUES (?1, ?2, ?3)"@,
        RecordKind::Component => "INSERT INTO component (timestamp, label, temp) VALUES (?1, ?2, ?3)"@,
        RecordKind::Disk => "INSERT INTO disk (timestamp, name, total, available) VALUES (?1, ?2, ?3, ?4)"@,
        RecordKind::Ram => "INSERT INTO ram (timestamp, total_memory, used_memory, total_swap, used_swap) VALUES (?1, ?2, ?3, ?4, ?5)"@,
    }
}

/// Every row of the table, in the order written.
pub open spec fn select_all_text(kind: RecordKind) -> Seq<char> {
    match kind {
        RecordKind::Sys => "SELECT os, osversion, hostname FROM sys ORDER BY id"@,
        RecordKind::Component => "SELECT timestamp, label, temp FROM component ORDER BY id"@,
        RecordKind::Disk => "SELECT timestamp, name, total, available FROM disk ORDER BY id"@,
        RecordKind::Ram => "SELECT timestamp, total_memory, used_memory, total_swap, used_swap FROM ram ORDER BY id"@,
    }
}

/// The rows whose timestamp lies between `?1` and `?2`, both included, in the
/// order written. The sys table has no timestamp: its range query is the
/// query of all rows.
pub open spec fn select_range_text(kind: RecordKind) -> Seq<char> {
    match kind {
        RecordKind::Sys => select_all_text(RecordKind::Sys),
        RecordKind::Component => "SELECT timestamp, label, temp FROM component WHERE timestamp BETWEEN ?1 AND ?2 ORDER BY id"@,
        RecordKind::Disk => "SELECT timestamp, name, total, available FROM disk WHERE timestamp BETWEEN ?1 AND ?2 ORDER BY id"@,
        RecordKind::Ram => "SELECT timestamp, total_memory, used_memory, total_swap, used_swap FROM ram WHERE timestamp BETWEEN ?1 AND ?2 ORDER BY id"@,
    }
}

impl RecordKind {
    /// The four kinds, in the order their tables are created.
    pub fn all() -> (r: Vec<RecordKind>)
        ensures
            r@ == seq![RecordKind::Sys, RecordKind::Component, RecordKind::Disk, RecordKind::Ram],
    {
        vec![RecordKind::Sys, RecordKind::Component, RecordKind::Disk, RecordKind::Ram]
    }

    /// Whether the kind's rows carry a timestamp, so that a range query
    /// narrows them.
    pub fn has_timestamp(&self) -> (r: bool)
        ensures
            r == (*self != RecordKind::Sys),
    {
        !matches!(self, RecordKind::Sys)
    }

    /// Creates the kind's table where it does not exist yet.
    pub fn create_sql(&self) -> (r: &'static str)
        ensures
            r@ == create_text(*self),
    {
        match self {
            RecordKind::Sys => "CREATE TABLE IF NOT EXISTS sys (id INTEGER PRIMARY KEY, os TEXT NOT NULL, osversion TEXT NOT NULL, hostname TEXT NOT NULL)",
            RecordKind::Component => "CREATE TABLE IF NOT EXISTS component (id INTEGER PRIMARY KEY, timestamp TEXT NOT NULL, label TEXT NOT NULL, temp REAL NOT NULL)",
            RecordKind::Disk => "CREATE TABLE IF NOT EXISTS disk (id INTEGER PRIMARY KEY, timestamp TEXT NOT NULL, name TEXT NOT NULL, total INTEGER NOT NULL, available INTEGER NOT NULL)",
            RecordKind::Ram => "CREATE TABLE IF NOT EXISTS ram (id INTEGER PRIMARY KEY, timestamp TEXT NOT NULL, total_memory INTEGER NOT NULL, used_memory INTEGER NOT NULL, total_swap INTEGER NOT NULL, used_swap INTEGER NOT NULL)",
        }
    }

    pub fn insert_sql(&self) -> (r: &'static str)
        ensures
            r@ == insert_text(*self),
    {
        match self {
            RecordKind::Sys => "INSERT INTO sys (os, osversion, hostname) VALUES (?1, ?2, ?3)",
            RecordKind::Component => "INSERT INTO component (timestamp, label, temp) VALUES (?1, ?2, ?3)",
            RecordKind::Disk => "INSERT INTO disk (timestamp, name, total, available) VALUES (?1, ?2, ?3, ?4)",
            RecordKind::Ram => "INSERT INTO ram (timestamp, total_memory, used_memory, total_swap, used_swap) VALUES (?1, ?2, ?3, ?4, ?5)",
        }
    }

    /// Selects every column of every row of the kind's table.
    pub fn query(&self) -> (r: &'static str)
        ensures
            r@ == select_all_text(*self),
    {
        match self {
            RecordKind::Sys => "SELECT os, osversion, hostname FROM sys ORDER BY id",
            RecordKind::Component => "SELECT timestamp, label, temp FROM component ORDER BY id",
            RecordKind::Disk => "SELECT timestamp, name, total, available FROM disk ORDER BY id",
            RecordKind::Ram => "SELECT timestamp, total_memory, used_memory, total_swap, used_swap FROM ram ORDER BY id",
        }
    }

    pub fn query_range_sql(&self) -> (r: &'static str)
        ensures
            r@ == select_range_text(*self),
    {
        match self {
            RecordKind::Sys => "SELECT os, osversion, hostname FROM sys ORDER BY id",
            RecordKind::Component => "SELECT timestamp, label, temp FROM component WHERE timestamp BETWEEN ?1 AND ?2 ORDER BY id",
            RecordKind::Disk => "SELECT timestamp, name, total, available FROM disk WHERE timestamp BETWEEN ?1 AND ?2 ORDER BY id",
            RecordKind::Ram => "SELECT timestamp, total_memory, used_memory, total_swap, used_swap FROM ram WHERE timestamp BETWEEN ?1 AND ?2 ORDER BY id",
        }
    }
}

// ---- rows of each kind ----

pub open spec fn sys_values(v: SysRecordView) -> Seq<SqlValueView> {
    seq![SqlValueView::Text(v.os), SqlValueView::Text(v.os_version), SqlValueView::Text(v.hostname)]
}

pub open spec fn component_values(v: ComponentRecordView) -> Seq<SqlValueView> {
    seq![SqlValueView::Text(v.timestamp), SqlValueView::Text(v.label), SqlValueView::Real(v.temperature)]
}

pub open spec fn disk_values(v: DiskRecordView) -> Seq<SqlValueView> {
    seq![
        SqlValueView::Text(v.timestamp),
        SqlValueView::Text(v.name),
        SqlValueView::Integer(v.total as int),
        SqlValueView::Integer(v.available as int),
    ]
}

pub open spec fn ram_values(v: RAMRecordView) -> Seq<SqlValueView> {
    seq![
        SqlValueView::Text(v.timestamp),
        SqlValueView::Integer(v.total_memory as int),
        SqlValueView::Integer(v.used_memory as int),
        SqlValueView::Integer(v.total_swap as int),
        SqlValueView::Integer(v.used_swap as int),
    ]
}

pub open spec fn disk_fits(v: DiskRecordView) -> bool {
    fits_integer(v.total) && fits_integer(v.available)
}

pub open spec fn ram_fits(v: RAMRecordView) -> bool {
    fits_integer(v.total_memory) && fits_integer(v.used_memory) && fits_integer(v.total_swap)
        && fits_integer(v.used_swap)
}

pub open spec fn sys_of_row(row: Seq<SqlValueView>) -> Option<SysRecordView> {
    if row.len() == 3 && text_of(row[0]) is Some && text_of(row[1]) is Some && text_of(
        row[2],
    ) is Some {
        Some(
            SysRecordView {
                os: text_of(row[0])->0,
                os_version: text_of(row[1])->0,
                hostname: text_of(row[2])->0,
            },
        )
    } else {
        None
    }
}

pub open spec fn component_of_row(row: Seq<SqlValueView>) -> Option<ComponentRecordView> {
    if row.len() == 3 && text_of(row[0]) is Some && text_of(row[1]) is Some && real_of(
        row[2],
    ) is Some {
        Some(
            ComponentRecordView {
                timestamp: text_of(row[0])->0,
                label: text_of(row[1])->0,
                temperature: real_of(row[2])->0,
            },
        )
    } else {
        None
    }
}

pub open spec fn disk_of_row(row: Seq<SqlValueView>) -> Option<DiskRecordView> {
    if row.len() == 4 && text_of(row[0]) is Some && text_of(row[1]) is Some && count_of(
        row[2],
    ) is Some && count_of(row[3]) is Some {
        Some(
            DiskRecordView {
                timestamp: text_of(row[0])->0,
                name: text_of(row[1])->0,
                total: count_of(row[2])->0,
                available: count_of(row[3])->0,
            },
        )
    } else {
        None
    }
}

pub open spec fn ram_of_row(row: Seq<SqlValueView>) -> Option<RAMRecordView> {
    if row.len() == 5 && text_of(row[0]) is Some && count_of(row[1]) is Some && count_of(
        row[2],
    ) is Some && count_of(row[3]) is Some && count_of(row[4]) is Some {
        Some(
            RAMRecordView {
                timestamp: text_of(row[0])->0,
                total_memory: count_of(row[1])->0,
                used_memory: count_of(row[2])->0,
                total_swap: count_of(row[3])->0,
                used_swap: count_of(row[4])->0,
            },
        )
    } else {
        None
    }
}

fn statement(sql: &str, params: Vec<SqlValue>) -> (r: Statement)
    ensures
        r.sql@ == sql@,
        r.params@ == params@,
{
    Statement { sql: sql.to_owned(), params }
}

impl SysRecord {
    /// The row's values: os, os version, host name.
    pub fn to_values(&self) -> (r: Vec<SqlValue>)
        ensures
            row_view(r@) == sys_values(self@),
    {
        let r = vec![text_value(&self.os), text_value(&self.os_version), text_value(&self.hostname)];
        assert(row_view(r@) =~= sys_values(self@));
        r
    }

    /// The statement that writes this record as a new row of its table.
    pub fn write_to_db(&self) -> (r: Statement)
        ensures
            r.sql@ == insert_text(RecordKind::Sys),
            row_view(r.params@) == sys_values(self@),
    {
        statement(RecordKind::Sys.insert_sql(), self.to_values())
    }

    /// The record that a row of three text columns holds.
    pub fn from_row(row: &Vec<SqlValue>) -> (r: Result<SysRecord, DecodeError>)
        ensures
            r is Ok <==> sys_of_row(row_view(row@)) is Some,
            r matches Ok(x) ==> sys_of_row(row_view(row@)) == Some(x@),
            r matches Err(e) ==> (e == DecodeError::ColumnCount <==> row@.len() != 3),
    {
        if row.len() != 3 {
            return Err(DecodeError::ColumnCount);
        }
        let os = decode_text(&row[0], 0)?;
        let os_version = decode_text(&row[1], 1)?;
        let hostname = decode_text(&row[2], 2)?;
        Ok(SysRecord { os, os_version, hostname })
    }
}

impl ComponentRecord {
    /// The row's values: timestamp, label, temperature.
    pub fn to_values(&self) -> (r: Vec<SqlValue>)
        ensures
            row_view(r@) == component_values(self@),
    {
        let r = vec![text_value(&self.timestamp), text_value(&self.label), SqlValue::Real(self.temperature)];
        assert(row_view(r@) =~= component_values(self@));
        r
    }

    /// The statement that writes this record as a new row of its table.
    pub fn write_to_db(&self) -> (r: Statement)
        ensures
            r.sql@ == insert_text(RecordKind::Component),
            row_view(r.params@) == component_values(self@),
    {
        statement(RecordKind::Component.insert_sql(), self.to_values())
    }

    /// The record that a row of two text columns and a real holds.
    pub fn from_row(row: &Vec<SqlValue>) -> (r: Result<ComponentRecord, DecodeError>)
        ensures
            r is Ok <==> component_of_row(row_view(row@)) is Some,
            r matches Ok(x) ==> component_of_row(row_view(row@)) == Some(x@),
            r matches Err(e) ==> (e == DecodeError::ColumnCount <==> row@.len() != 3),
    {
        if row.len() != 3 {
            return Err(DecodeError::ColumnCount);
        }
        let timestamp = decode_text(&row[0], 0)?;
        let label = decode_text(&row[1], 1)?;
        let temperature = decode_real(&row[2], 2)?;
        Ok(ComponentRecord { timestamp, label, temperature })
    }
}

impl DiskRecord {
    /// The row's values: timestamp, name, total and available bytes; fails
    /// where a byte count is past the largest integer of the store.
    pub fn to_values(&self) -> (r: Result<Vec<SqlValue>, OutOfRange>)
        ensures
            r is Ok <==> disk_fits(self@),
            r matches Ok(v) ==> row_view(v@) == disk_values(self@),
    {
        let total = count_value(self.total, 2)?;
        let available = count_value(self.available, 3)?;
        let r = vec![text_value(&self.timestamp), text_value(&self.name), total, available];
        assert(row_view(r@) =~= disk_values(self@));
        Ok(r)
    }

    /// The statement that writes this record as a new row of its table.
    pub fn write_to_db(&self) -> (r: Result<Statement, OutOfRange>)
        ensures
            r is Ok <==> disk_fits(self@),
            r matches Ok(st) ==> st.sql@ == insert_text(RecordKind::Disk) && row_view(st.params@)
                == disk_values(self@),
    {
        let values = self.to_values()?;
        Ok(statement(RecordKind::Disk.insert_sql(), values))
    }

    /// The record that a row of two text columns and two counts holds.
    pub fn from_row(row: &Vec<SqlValue>) -> (r: Result<DiskRecord, DecodeError>)
        ensures
            r is Ok <==> disk_of_row(row_view(row@)) is Some,
            r matches Ok(x) ==> disk_of_row(row_view(row@)) == Some(x@),
            r matches Err(e) ==> (e == DecodeError::ColumnCount <==> row@.len() != 4),
    {
        if row.len() != 4 {
            return Err(DecodeError::ColumnCount);
        }
        let timestamp = decode_text(&row[0], 0)?;
        let name = decode_text(&row[1], 1)?;
        let total = decode_count(&row[2], 2)?;
        let available = decode_count(&row[3], 3)?;
        Ok(DiskRecord { timestamp, name, total, available })
    }
}

impl RAMRecord {
    /// The row's values: timestamp, total and used memory, total and used
    /// swap; fails where a count is past the largest integer of the store.
    pub fn to_values(&self) -> (r: Result<Vec<SqlValue>, OutOfRange>)
        ensures
            r is Ok <==> ram_fits(self@),
            r matches Ok(v) ==> row_view(v@) == ram_values(self@),
    {
        let total_memory = count_value(self.total_memory, 1)?;
        let used_memory = count_value(self.used_memory, 2)?;
        let total_swap = count_value(self.total_swap, 3)?;
        let used_swap = count_value(self.used_swap, 4)?;
        let r = vec![text_value(&self.timestamp), total_memory, used_memory, total_swap, used_swap];
        assert(row_view(r@) =~= ram_values(self@));
        Ok(r)
    }

    /// The statement that writes this record as a new row of its table.
    pub fn write_to_db(&self) -> (r: Result<Statement, OutOfRange>)
        ensures
            r is Ok <==> ram_fits(self@),
            r matches Ok(st) ==> st.sql@ == insert_text(RecordKind::Ram) && row_view(st.params@)
                == ram_values(self@),
    {
        let values = self.to_values()?;
        Ok(statement(RecordKind::Ram.insert_sql(), values))
    }

    /// The record that a row of a text column and four counts holds.
    pub fn from_row(row: &Vec<SqlValue>) -> (r: Result<RAMRecord, DecodeError>)
        ensures
            r is Ok <==> ram_of_row(row_view(row@)) is Some,
            r matches Ok(x) ==> ram_of_row(row_view(row@)) == Some(x@),
            r matches Err(e) ==> (e == DecodeError::ColumnCount <==> row@.len() != 5),
    {
        if row.len() != 5 {
            return Err(DecodeError::ColumnCount);
        }
        let timestamp = decode_text(&row[0], 0)?;
        let total_memory = decode_count(&row[1], 1)?;
        let used_memory = decode_count(&row[2], 2)?;
        let total_swap = decode_count(&row[3], 3)?;
        let used_swap = decode_count(&row[4], 4)?;
        Ok(RAMRecord { timestamp, total_memory, used_memory, total_swap, used_swap })
    }
}

/// The row values of any record.
pub open spec fn record_values(r: Record) -> Seq<SqlValueView> {
    match r {
        Record::Sys(x) => sys_values(x@),
        Record::Component(x) => component_values(x@),
        Record::Disk(x) => disk_values(x@),
        Record::Ram(x) => ram_values(x@),
    }
}

/// Every count of the record fits an integer of the store.
pub open spec fn record_fits(r: Record) -> bool {
    match r {
        Record::Disk(x) => disk_fits(x@),
        Record::Ram(x) => ram_fits(x@),
        _ => true,
    }
}

pub open spec fn kind_of(r: Record) -> RecordKind {
    match r {
        Record::Sys(_) => RecordKind::Sys,
        Record::Component(_) => RecordKind::Component,
        Record::Disk(_) => RecordKind::Disk,
        Record::Ram(_) => RecordKind::Ram,
    }
}

/// The timestamp of a record of a timed kind; the empty text for a sys record.
pub open spec fn record_timestamp(r: Record) -> Seq<char> {
    match r {
        Record::Sys(_) => Seq::empty(),
        Record::Component(x) => x.timestamp@,
        Record::Disk(x) => x.timestamp@,
        Record::Ram(x) => x.timestamp@,
    }
}

/// The row decodes, as a record of the kind's table.
pub open spec fn row_decodes(kind: RecordKind, row: Seq<SqlValueView>) -> bool {
    match kind {
        RecordKind::Sys => sys_of_row(row) is Some,
        RecordKind::Component => component_of_row(row) is Some,
        RecordKind::Disk => disk_of_row(row) is Some,
        RecordKind::Ram => ram_of_row(row) is Some,
    }
}

/// `rec` is the record that the row of the kind's table holds.
pub open spec fn row_holds(kind: RecordKind, row: Seq<SqlValueView>, rec: Record) -> bool {
    match rec {
        Record::Sys(x) => kind == RecordKind::Sys && sys_of_row(row) == Some(x@),
        Record::Component(x) => kind == RecordKind::Component && component_of_row(row) == Some(
            x@,
        ),
        Record::Disk(x) => kind == RecordKind::Disk && disk_of_row(row) == Some(x@),
        Record::Ram(x) => kind == RecordKind::Ram && ram_of_row(row) == Some(x@),
    }
}

impl Record {
    pub fn kind(&self) -> (r: RecordKind)
        ensures
            r == kind_of(*self),
    {
        match self {
            Record::Sys(_) => RecordKind::Sys,
            Record::Component(_) => RecordKind::Component,
            Record::Disk(_) => RecordKind::Disk,
            Record::Ram(_) => RecordKind::Ram,
        }
    }

    /// The record that a row of the kind's table holds.
    pub fn from_row(kind: RecordKind, row: &Vec<SqlValue>) -> (r: Result<Record, DecodeError>)
        ensures
            r is Ok <==> row_decodes(kind, row_view(row@)),
            r matches Ok(x) ==> row_holds(kind, row_view(row@), x),
    {
        match kind {
            RecordKind::Sys => match SysRecord::from_row(row) {
                Ok(x) => Ok(Record::Sys(x)),
                Err(e) => Err(e),
            },
            RecordKind::Component => match ComponentRecord::from_row(row) {
                Ok(x) => Ok(Record::Component(x)),
                Err(e) => Err(e),
            },
            RecordKind::Disk => match DiskRecord::from_row(row) {
                Ok(x) => Ok(Record::Disk(x)),
                Err(e) => Err(e),
            },
            RecordKind::Ram => match RAMRecord::from_row(row) {
                Ok(x) => Ok(Record::Ram(x)),
                Err(e) => Err(e),
            },
        }
    }

    /// The statement that writes this record as a new row of its table.
    pub fn write_to_db(&self) -> (r: Result<Statement, OutOfRange>)
        ensures
            r is Ok <==> record_fits(*self),
            r matches Ok(st) ==> st.sql@ == insert_text(kind_of(*self)) && row_view(st.params@)
                == record_values(*self),
    {
        match self {
            Record::Sys(x) => Ok(x.write_to_db()),
            Record::Component(x) => Ok(x.write_to_db()),
            Record::Disk(x) => x.write_to_db(),
            Record::Ram(x) => x.write_to_db(),
        }
    }
}

/// A record written as a row reads back as the same record.
pub proof fn lemma_row_round_trip(
    s: SysRecordView,
    c: ComponentRecordView,
    d: DiskRecordView,
    m: RAMRecordView,
)
    ensures
        sys_of_row(sys_values(s)) == Some(s),
        component_of_row(component_values(c)) == Some(c),
        disk_fits(d) ==> disk_of_row(disk_values(d)) == Some(d),
        ram_fits(m) ==> ram_of_row(ram_values(m)) == Some(m),
{
}

} // verus!
