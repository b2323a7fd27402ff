//! The delimited output encoder: one header line of column display names,
//! one line per row of display strings, comma-delimited with standard
//! quoting, preceded by an update-count line exactly when the update count
//! is nonzero or no column metadata was returned at all. The line encoding
//! itself is done by the `csv` crate, behind a trusted wrapper whose
//! contract states the encoding exactly.

use vstd::prelude::*;

use crate::data::ResultSet;
use crate::project::{format_header, header_spec, one_row, records_seq, row_display_spec};
use crate::text::{append_str_chars, chars_to_string, i64_dec, join_with, push_dec_i64};
use crate::data::Cell;

verus! {

/// A character that forces a field into quotes: the delimiter, the quote
/// itself, or either line-ending character.
pub open spec fn csv_special(c: char) -> bool {
    c == ',' || c == '"' || c == '\n' || c == '\r'
}

/// Whether a field must be quoted.
pub open spec fn csv_needs_quotes(f: Seq<char>) -> bool {
    exists|i: int| 0 <= i < f.len() && csv_special(f[i])
}

/// A field's body with every quote doubled.
pub open spec fn csv_escaped(f: Seq<char>) -> Seq<char>
    decreases f.len(),
{
    if f.len() == 0 {
        f
    } else {
        csv_escaped(f.drop_last()) + (if f.last() == '"' {
            seq!['"', '"']
        } else {
            seq![f.last()]
        })
    }
}

/// One encoded field: quoted, with inner quotes doubled, exactly when it
/// holds a special character; verbatim otherwise.
pub open spec fn csv_field(f: Seq<char>) -> Seq<char> {
    if csv_needs_quotes(f) {
        seq!['"'] + csv_escaped(f) + seq!['"']
    } else {
        f
    }
}

/// One encoded record line: the encoded fields joined by commas and
/// terminated by a newline. A record that would otherwise produce no bytes —
/// no fields at all, or a single empty field — is written as one quoted
/// empty field, so that the line remains readable as a record.
pub open spec fn csv_line(fields: Seq<Seq<char>>) -> Seq<char> {
    if fields.len() == 0 || (fields.len() == 1 && fields[0].len() == 0) {
        seq!['"', '"', '\n']
    } else {
        join_with(fields.map_values(|f: Seq<char>| csv_field(f)), seq![',']) + seq!['\n']
    }
}

/// Relies on `csv::Writer` in its default configuration: a record is written
/// as its fields joined by commas and terminated by a newline; a field is
/// quoted, with inner quotes doubled, exactly when it holds a comma, a
/// quote, a newline or a carriage return; a record that would otherwise be
/// empty is written as one quoted empty field.
#[verifier::external_body]
pub(crate) fn csv_encode_record(fields: &Vec<String>) -> (r: String)
    ensures
        r@ == csv_line(fields.deep_view()),
{
    let mut wtr = csv::Writer::from_writer(Vec::new());
    let _ = wtr.write_record(fields.iter());
    match wtr.into_inner() {
        Ok(bytes) => String::from_utf8(bytes).unwrap_or_default(),
        Err(_) => String::new(),
    }
}

/// The update-count line that precedes the table when it is printed.
pub open spec fn update_count_line(n: int) -> Seq<char> {
    "number_of_records_updated: "@ + i64_dec(n) + seq!['\n']
}

/// The encoded lines of every row, in response order.
pub open spec fn csv_rows_text(rows: Seq<Vec<Cell>>) -> Seq<char>
    decreases rows.len(),
{
    if rows.len() == 0 {
        Seq::empty()
    } else {
        csv_rows_text(rows.drop_last()) + csv_line(row_display_spec(rows.last()@))
    }
}

/// The whole delimited output of a result set: the update-count line exactly
/// when the update count is nonzero or no column metadata was returned, then
/// the header line, then one line per row.
pub open spec fn csv_output_spec(rs: ResultSet) -> Seq<char> {
    (if rs.number_of_records_updated > 0 || rs.column_metadata is None {
        update_count_line(rs.number_of_records_updated as int)
    } else {
        Seq::empty()
    }) + csv_line(header_spec(rs)) + csv_rows_text(records_seq(rs))
}

/// Renders a whole result set as delimited text.
pub fn csv_output(result: &ResultSet) -> (r: String)
    ensures
        r@ == csv_output_spec(*result),
{
    let mut pre: Vec<char> = Vec::new();
    if result.number_of_records_updated > 0 || result.column_metadata.is_none() {
        append_str_chars(&mut pre, "number_of_records_updated: ");
        push_dec_i64(&mut pre, result.number_of_records_updated);
        pre.push('\n');
    }
    let mut s = chars_to_string(&pre);
    let header = format_header(result);
    let header_line = csv_encode_record(&header);
    s.append(header_line.as_str());
    let ghost base = s@;
    match &result.records {
        Some(rows) => {
            let mut i: usize = 0;
            while i < rows.len()
                invariant
                    i <= rows@.len(),
                    s@ == base + csv_rows_text(rows@.take(i as int)),
                decreases rows@.len() - i,
            {
                let row = one_row(&rows[i]);
                let line = csv_encode_record(&row);
                s.append(line.as_str());
                proof {
                    assert(rows@.take(i + 1).drop_last() =~= rows@.take(i as int));
                    assert(rows@.take(i + 1).last() == rows@[i as int]);
                    assert(s@ =~= base + csv_rows_text(rows@.take(i + 1)));
                }
                i = i + 1;
            }
            proof {
                assert(rows@.take(rows@.len() as int) =~= rows@);
                assert(s@ =~= csv_output_spec(*result));
            }
        },
        None => {
            proof {
                assert(s@ =~= csv_output_spec(*result));
            }
        },
    }
    s
}

} // verus!
