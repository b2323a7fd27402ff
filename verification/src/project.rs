//! The record projector: a header of column display names plus a row of
//! cells becomes either a flat sequence of display strings or an ordered,
//! duplicate-tolerant association list of (name, structured value) pairs.
//! Projection is pure and tolerates rows and headers of unequal length.

use vstd::prelude::*;

use crate::data::{Cell, Column, CookedResponse, JsonScalar, Record, ResultSet};
use crate::fields::{display_of, field_value, format_value, scalar_of};

verus! {

/// The display name of a column: its label if present, else its name, else
/// `?`.
pub open spec fn column_name_text(c: Column) -> Seq<char> {
    match c.label {
        Some(l) => l@,
        None => match c.name {
            Some(n) => n@,
            None => "?"@,
        },
    }
}

/// The columns of a result set, an absent metadata field reading as empty.
pub open spec fn columns_seq(rs: ResultSet) -> Seq<Column> {
    match rs.column_metadata {
        Some(v) => v@,
        None => Seq::empty(),
    }
}

/// The rows of a result set, an absent records field reading as empty.
pub open spec fn records_seq(rs: ResultSet) -> Seq<Vec<Cell>> {
    match rs.records {
        Some(v) => v@,
        None => Seq::empty(),
    }
}

/// The header of a result set: one display name per column, in column order.
pub open spec fn header_spec(rs: ResultSet) -> Seq<Seq<char>> {
    columns_seq(rs).map_values(|c: Column| column_name_text(c))
}

/// One row's display strings, in cell order — the same length as the row,
/// whatever the header's length.
pub open spec fn row_display_spec(row: Seq<Cell>) -> Seq<Seq<char>> {
    row.map_values(|c: Cell| display_of(c))
}

/// Every row's display strings, in response order.
pub open spec fn rows_display_spec(rows: Seq<Vec<Cell>>) -> Seq<Seq<Seq<char>>> {
    rows.map_values(|r: Vec<Cell>| row_display_spec(r@))
}

/// The view of one projected pair: the name's characters and the scalar.
pub open spec fn pair_view(p: (String, JsonScalar)) -> (Seq<char>, JsonScalar) {
    (p.0@, p.1)
}

/// The view of a projected record: its pairs, in insertion order.
pub open spec fn record_view(r: Record) -> Seq<(Seq<char>, JsonScalar)> {
    r.record@.map_values(|p: (String, JsonScalar)| pair_view(p))
}

/// The association list that projecting one row yields: `header[i]` paired
/// with the decoding of `row[i]` while `i` is in range for both — pairs are
/// neither deduplicated nor merged by name, and unmatched cells or names are
/// dropped.
pub open spec fn annotate_spec(h: Seq<Seq<char>>, row: Seq<Cell>) -> Seq<(Seq<char>, JsonScalar)> {
    Seq::new(
        if h.len() <= row.len() {
            h.len()
        } else {
            row.len()
        },
        |i: int| (h[i], scalar_of(row[i])),
    )
}

/// Extracts a display name for each column of the result set.
pub fn format_header(result: &ResultSet) -> (r: Vec<String>)
    ensures
        r.deep_view() == header_spec(*result),
{
    let mut r: Vec<String> = Vec::new();
    match &result.column_metadata {
        Some(cols) => {
            let mut i: usize = 0;
            while i < cols.len()
                invariant
                    i <= cols@.len(),
                    result.column_metadata matches Some(cs) && cs@ == cols@,
                    r@.len() == i,
                    forall|j: int| 0 <= j < i ==> r@[j]@ == column_name_text(cols@[j]),
                decreases cols@.len() - i,
            {
                let name = match &cols[i].label {
                    Some(l) => l.clone(),
                    None => match &cols[i].name {
                        Some(n) => n.clone(),
                        None => String::from_str("?"),
                    },
                };
                r.push(name);
                i = i + 1;
            }
        },
        None => {},
    }
    proof {
        assert(r.deep_view() =~~= header_spec(*result));
    }
    r
}

/// Renders one row as its display strings, one per cell.
pub fn one_row(values: &Vec<Cell>) -> (r: Vec<String>)
    ensures
        r.deep_view() == row_display_spec(values@),
{
    let mut r: Vec<String> = Vec::new();
    let mut i: usize = 0;
    while i < values.len()
        invariant
            i <= values@.len(),
            r@.len() == i,
            forall|j: int| 0 <= j < i ==> r@[j]@ == display_of(values@[j]),
        decreases values@.len() - i,
    {
        r.push(format_value(&values[i]));
        i = i + 1;
    }
    proof {
        assert(r.deep_view() =~~= row_display_spec(values@));
    }
    r
}

/// Renders every row of the result set as its display strings.
pub fn format_rows(result: &ResultSet) -> (r: Vec<Vec<String>>)
    ensures
        r.deep_view() == rows_display_spec(records_seq(*result)),
{
    let mut r: Vec<Vec<String>> = Vec::new();
    match &result.records {
        Some(rows) => {
            let mut i: usize = 0;
            while i < rows.len()
                invariant
                    i <= rows@.len(),
                    result.records matches Some(rs) && rs@ == rows@,
                    r@.len() == i,
                    forall|j: int| 0 <= j < i ==> r@[j].deep_view() == row_display_spec(
                        rows@[j]@,
                    ),
                decreases rows@.len() - i,
            {
                r.push(one_row(&rows[i]));
                i = i + 1;
            }
        },
        None => {},
    }
    proof {
        assert(r.deep_view() =~~= rows_display_spec(records_seq(*result)));
    }
    r
}

/// Projects one row against a header into an ordered association list:
/// `header[i]` paired with cell `i`'s structured value while both are in
/// range. A name appearing twice in the header yields two pairs, by design.
pub fn annotate_fields(header: &Vec<String>, record: &Vec<Cell>) -> (r: Record)
    ensures
        record_view(r) == annotate_spec(header.deep_view(), record@),
{
    let n = if header.len() <= record.len() {
        header.len()
    } else {
        record.len()
    };
    let mut pairs: Vec<(String, JsonScalar)> = Vec::new();
    let mut i: usize = 0;
    while i < n
        invariant
            i <= n,
            n == if header@.len() <= record@.len() {
                header@.len()
            } else {
                record@.len()
            },
            pairs@.len() == i,
            forall|j: int|
                0 <= j < i ==> pair_view(pairs@[j]) == (header@[j]@, scalar_of(record@[j])),
        decreases n - i,
    {
        pairs.push((header[i].clone(), field_value(&record[i])));
        i = i + 1;
    }
    let r = Record { record: pairs };
    proof {
        assert(record_view(r) =~~= annotate_spec(header.deep_view(), record@));
    }
    r
}

/// Materializes a whole response: the update count together with every row
/// projected against the result set's own header.
pub fn cook_response(result: &ResultSet) -> (r: CookedResponse)
    ensures
        r.number_of_records_updated == result.number_of_records_updated,
        r.records@.len() == records_seq(*result).len(),
        forall|i: int|
            0 <= i < r.records@.len() ==> record_view(r.records@[i]) == annotate_spec(
                header_spec(*result),
                records_seq(*result)[i]@,
            ),
{
    let header = format_header(result);
    let mut records: Vec<Record> = Vec::new();
    match &result.records {
        Some(rows) => {
            let mut i: usize = 0;
            while i < rows.len()
                invariant
                    i <= rows@.len(),
                    result.records matches Some(rs) && rs@ == rows@,
                    header.deep_view() == header_spec(*result),
                    records@.len() == i,
                    forall|j: int|
                        0 <= j < i ==> record_view(records@[j]) == annotate_spec(
                            header_spec(*result),
                            rows@[j]@,
                        ),
                decreases rows@.len() - i,
            {
                records.push(annotate_fields(&header, &rows[i]));
                i = i + 1;
            }
        },
        None => {},
    }
    CookedResponse { number_of_records_updated: result.number_of_records_updated, records }
}

} // verus!
