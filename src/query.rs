//! Reading records back: the two query shapes of each table, what a range
//! query selects, and turning the rows that come back into records.
use vstd::prelude::*;
use crate::collation::{text_le, text_lt, lemma_le_facts};
use crate::record::{
    Record, RecordKind, SqlValue, Statement, DecodeError, row_view, row_decodes, row_holds,
    record_timestamp, select_all_text, select_range_text,
};
use crate::timestamp::{TimestampView, valid_fields, earlier, timestamp_text, lemma_text_order};

verus! {

/// What `timestamp BETWEEN start AND end` keeps: the bounds are included, and
/// text compares as the store compares it.
pub open spec fn between(start: Seq<char>, end: Seq<char>, ts: Seq<char>) -> bool {
    text_le(start, ts) && text_le(ts, end)
}

/// The rows that a range query over `rows` returns, in the order written.
pub open spec fn records_between(rows: Seq<Record>, start: Seq<char>, end: Seq<char>) -> Seq<
    Record,
>
    decreases rows.len(),
{
    if rows.len() == 0 {
        Seq::empty()
    } else {
        let rest = records_between(rows.drop_last(), start, end);
        if between(start, end, record_timestamp(rows.last())) {
            rest.push(rows.last())
        } else {
            rest
        }
    }
}

/// The query of every row of the kind's table, in the order written.
pub fn query_all(kind: RecordKind) -> (r: Statement)
    ensures
        r.sql@ == select_all_text(kind),
        r.params@.len() == 0,
{
    Statement { sql: kind.query().to_owned(), params: Vec::new() }
}

/// The query of the rows of the kind's table whose timestamp lies between
/// `start` and `end`, both included; the bounds are taken as they are. The
/// sys table has no timestamp, and its range query returns every row.
pub fn query_by_dt(kind: RecordKind, start: &str, end: &str) -> (r: Statement)
    ensures
        r.sql@ == select_range_text(kind),
        kind == RecordKind::Sys ==> r.params@.len() == 0,
        kind != RecordKind::Sys ==> row_view(r.params@) == seq![
            crate::record::SqlValueView::Text(start@),
            crate::record::SqlValueView::Text(end@),
        ],
{
    let sql = kind.query_range_sql().to_owned();
    if kind.has_timestamp() {
        let params = vec![SqlValue::Text(start.to_owned()), SqlValue::Text(end.to_owned())];
        assert(row_view(params@) =~= seq![
            crate::record::SqlValueView::Text(start@),
            crate::record::SqlValueView::Text(end@),
        ]);
        Statement { sql, params }
    } else {
        Statement { sql, params: Vec::new() }
    }
}

/// The records that the rows of a query on the kind's table hold, in order;
/// the first row that does not decode fails the whole.
pub fn query_db_all(kind: RecordKind, rows: &Vec<Vec<SqlValue>>) -> (r: Result<
    Vec<Record>,
    DecodeError,
>)
    ensures
        r is Ok <==> forall|i: int| 0 <= i < rows@.len() ==> row_decodes(kind, row_view(#[trigger] rows@[i]@)),
        r matches Ok(v) ==> v@.len() == rows@.len() && forall|i: int|
            0 <= i < rows@.len() ==> row_holds(kind, row_view(#[trigger] rows@[i]@), v@[i]),
{
    let mut out: Vec<Record> = Vec::new();
    let mut i: usize = 0;
    while i < rows.len()
        invariant
            i <= rows@.len(),
            out@.len() == i,
            forall|j: int| 0 <= j < i ==> row_decodes(kind, row_view(#[trigger] rows@[j]@)),
            forall|j: int| 0 <= j < i ==> row_holds(kind, row_view(#[trigger] rows@[j]@), out@[j]),
        decreases rows@.len() - i,
    {
        match Record::from_row(kind, &rows[i]) {
            Ok(rec) => out.push(rec),
            Err(e) => return Err(e),
        }
        i = i + 1;
    }
    Ok(out)
}

/// A range whose start sorts after its end selects no row.
pub proof fn lemma_text_range_inverted(rows: Seq<Record>, start: Seq<char>, end: Seq<char>)
    requires
        text_lt(end, start),
    ensures
        records_between(rows, start, end).len() == 0,
    decreases rows.len(),
{
    if rows.len() > 0 {
        lemma_text_range_inverted(rows.drop_last(), start, end);
        lemma_le_facts(start, record_timestamp(rows.last()), end);
        lemma_le_facts(start, end, start);
    }
}

/// Querying from a later time back to an earlier one returns nothing, and is
/// no error.
pub proof fn lemma_range_inverted(rows: Seq<Record>, t1: TimestampView, t3: TimestampView)
    requires
        valid_fields(t1),
        valid_fields(t3),
        earlier(t1, t3),
    ensures
        records_between(rows, timestamp_text(t3), timestamp_text(t1)).len() == 0,
{
    lemma_text_order(t1, t3);
    lemma_text_range_inverted(rows, timestamp_text(t3), timestamp_text(t1));
}

/// Of rows written at times `t1 < t2 < t3`, the range from `t1` to `t2`
/// returns the first two, both bounds included, and not the third.
pub proof fn lemma_range_inclusive(
    r1: Record,
    r2: Record,
    r3: Record,
    t1: TimestampView,
    t2: TimestampView,
    t3: TimestampView,
)
    requires
        valid_fields(t1),
        valid_fields(t2),
        valid_fields(t3),
        record_timestamp(r1) == timestamp_text(t1),
        record_timestamp(r2) == timestamp_text(t2),
        record_timestamp(r3) == timestamp_text(t3),
        earlier(t1, t2),
        earlier(t2, t3),
    ensures
        records_between(seq![r1, r2, r3], timestamp_text(t1), timestamp_text(t2)) == seq![r1, r2],
{
    let a = timestamp_text(t1);
    let b = timestamp_text(t2);
    lemma_text_order(t1, t2);
    lemma_text_order(t2, t3);
    lemma_text_order(t3, t2);
    lemma_le_facts(b, timestamp_text(t3), b);
    let rows = seq![r1, r2, r3];
    assert(rows.drop_last() =~= seq![r1, r2]);
    assert(seq![r1, r2].drop_last() =~= seq![r1]);
    assert(seq![r1].drop_last() =~= Seq::<Record>::empty());
    assert(between(a, b, record_timestamp(r1)));
    assert(between(a, b, record_timestamp(r2)));
    assert(!between(a, b, record_timestamp(r3)));
    reveal_with_fuel(records_between, 4);
    assert(records_between(rows, a, b) =~= seq![r1, r2]);
}

} // verus!
