//! The structured output encoder: a pretty-printed object holding the
//! numeric update count and one object per row, each object being the
//! order-preserving, duplicate-tolerant association list of the record
//! projector. The text is produced by the library itself, because ordinary
//! key-deduplicating JSON values cannot represent repeated field names.

use vstd::prelude::*;

use crate::data::{CookedResponse, JsonScalar, Record, ResultSet};
use crate::project::{annotate_spec, cook_response, header_spec, record_view, records_seq};
use crate::text::{append_str_chars, chars_to_string, digit_char, i64_dec, push_dec_i64};

verus! {

/// The character for one hexadecimal digit, lower case.
pub open spec fn hex_char(d: int) -> char {
    if d < 10 {
        digit_char(d as nat)
    } else if d == 10 {
        'a'
    } else if d == 11 {
        'b'
    } else if d == 12 {
        'c'
    } else if d == 13 {
        'd'
    } else if d == 14 {
        'e'
    } else {
        'f'
    }
}

/// The escape of one character inside a JSON string: the quote and the
/// backslash are escaped, the named control characters take their short
/// forms, every other control character takes its four-digit form, and
/// everything else stands verbatim.
pub open spec fn json_escape_char(c: char) -> Seq<char> {
    if c == '"' {
        "\\\""@
    } else if c == '\\' {
        "\\\\"@
    } else if c == '\u{8}' {
        "\\b"@
    } else if c == '\t' {
        "\\t"@
    } else if c == '\n' {
        "\\n"@
    } else if c == '\u{c}' {
        "\\f"@
    } else if c == '\r' {
        "\\r"@
    } else if (c as int) < 0x20 {
        seq!['\\', 'u', '0', '0', hex_char((c as int) / 16), hex_char((c as int) % 16)]
    } else {
        seq![c]
    }
}

/// A whole string body, escaped character by character.
pub open spec fn json_escaped(s: Seq<char>) -> Seq<char>
    decreases s.len(),
{
    if s.len() == 0 {
        Seq::empty()
    } else {
        json_escaped(s.drop_last()) + json_escape_char(s.last())
    }
}

/// One encoded JSON string: the escaped body in quotes.
pub open spec fn json_string(s: Seq<char>) -> Seq<char> {
    "\""@ + json_escaped(s) + "\""@
}

/// One encoded structured scalar. A `Double` carries its number token
/// verbatim, so no floating-point value is ever reinterpreted.
pub open spec fn scalar_json(v: JsonScalar) -> Seq<char> {
    match v {
        JsonScalar::Null => "null"@,
        JsonScalar::Bool(b) => if b {
            "true"@
        } else {
            "false"@
        },
        JsonScalar::Long(n) => i64_dec(n as int),
        JsonScalar::Double(s) => s@,
        JsonScalar::Str(s) => json_string(s@),
    }
}

/// One encoded record entry, at its indentation.
pub open spec fn entry_json(name: Seq<char>, v: JsonScalar) -> Seq<char> {
    "      "@ + json_string(name) + ": "@ + scalar_json(v)
}

/// A record's entries, in insertion order, separated by commas. Nothing is
/// deduplicated: a name appearing twice yields two entries.
pub open spec fn entries_json(pairs: Seq<(Seq<char>, JsonScalar)>) -> Seq<char>
    decreases pairs.len(),
{
    if pairs.len() == 0 {
        Seq::empty()
    } else if pairs.len() == 1 {
        entry_json(pairs[0].0, pairs[0].1)
    } else {
        entries_json(pairs.drop_last()) + ",\n"@ + entry_json(pairs.last().0, pairs.last().1)
    }
}

/// One encoded record object.
pub open spec fn record_json(pairs: Seq<(Seq<char>, JsonScalar)>) -> Seq<char> {
    if pairs.len() == 0 {
        "{}"@
    } else {
        "{\n"@ + entries_json(pairs) + "\n    }"@
    }
}

/// The encoded record objects, in response order, separated by commas, each
/// at its indentation.
pub open spec fn records_items(recs: Seq<Seq<(Seq<char>, JsonScalar)>>) -> Seq<char>
    decreases recs.len(),
{
    if recs.len() == 0 {
        Seq::empty()
    } else if recs.len() == 1 {
        "    "@ + record_json(recs[0])
    } else {
        records_items(recs.drop_last()) + ",\n"@ + "    "@ + record_json(recs.last())
    }
}

/// The encoded array of record objects.
pub open spec fn records_array_json(recs: Seq<Seq<(Seq<char>, JsonScalar)>>) -> Seq<char> {
    if recs.len() == 0 {
        "[]"@
    } else {
        "[\n"@ + records_items(recs) + "\n  ]"@
    }
}

/// The views of a materialized response's records.
pub open spec fn cooked_views(c: CookedResponse) -> Seq<Seq<(Seq<char>, JsonScalar)>> {
    c.records@.map_values(|r: Record| record_view(r))
}

/// The whole structured output of a materialized response: a pretty-printed
/// object holding the numeric update count and the array of record objects,
/// terminated with a trailing newline.
pub open spec fn cooked_json(c: CookedResponse) -> Seq<char> {
    "{\n  \"numberOfRecordsUpdated\": "@ + i64_dec(c.number_of_records_updated as int)
        + ",\n  \"records\": "@ + records_array_json(cooked_views(c)) + "\n}\n"@
}

/// The association lists of every row of a result set, each row projected
/// against the result set's own header.
pub open spec fn records_views(rs: ResultSet) -> Seq<Seq<(Seq<char>, JsonScalar)>> {
    records_seq(rs).map_values(|row: Vec<crate::data::Cell>| annotate_spec(header_spec(rs), row@))
}

/// The whole structured output of a result set.
pub open spec fn json_output_spec(rs: ResultSet) -> Seq<char> {
    "{\n  \"numberOfRecordsUpdated\": "@ + i64_dec(rs.number_of_records_updated as int)
        + ",\n  \"records\": "@ + records_array_json(records_views(rs)) + "\n}\n"@
}

fn hex_char_exec(d: u32) -> (r: char)
    requires
        d < 16,
    ensures
        r == hex_char(d as int),
{
    if d == 0 {
        '0'
    } else if d == 1 {
        '1'
    } else if d == 2 {
        '2'
    } else if d == 3 {
        '3'
    } else if d == 4 {
        '4'
    } else if d == 5 {
        '5'
    } else if d == 6 {
        '6'
    } else if d == 7 {
        '7'
    } else if d == 8 {
        '8'
    } else if d == 9 {
        '9'
    } else if d == 10 {
        'a'
    } else if d == 11 {
        'b'
    } else if d == 12 {
        'c'
    } else if d == 13 {
        'd'
    } else if d == 14 {
        'e'
    } else {
        'f'
    }
}

/// Appends the escaped body of `s` to `out`.
fn push_json_escaped(out: &mut Vec<char>, s: &str)
    ensures
        final(out)@ == old(out)@ + json_escaped(s@),
{
    let n = s.unicode_len();
    let mut i: usize = 0;
    while i < n
        invariant
            i <= n,
            n as nat == s@.len(),
            out@ == old(out)@ + json_escaped(s@.subrange(0, i as int)),
        decreases n - i,
    {
        let c = s.get_char(i);
        if c == '"' {
            append_str_chars(out, "\\\"");
        } else if c == '\\' {
            append_str_chars(out, "\\\\");
        } else if c == '\u{8}' {
            append_str_chars(out, "\\b");
        } else if c == '\t' {
            append_str_chars(out, "\\t");
        } else if c == '\n' {
            append_str_chars(out, "\\n");
        } else if c == '\u{c}' {
            append_str_chars(out, "\\f");
        } else if c == '\r' {
            append_str_chars(out, "\\r");
        } else {
            let code = c as u32;
            if code < 0x20 {
                out.push('\\');
                out.push('u');
                out.push('0');
                out.push('0');
                out.push(hex_char_exec(code / 16));
                out.push(hex_char_exec(code % 16));
            } else {
                out.push(c);
            }
        }
        proof {
            assert(s@.subrange(0, (i + 1) as int).drop_last() =~= s@.subrange(0, i as int));
            assert(s@.subrange(0, (i + 1) as int).last() == s@[i as int]);
            assert(out@ =~= old(out)@ + json_escaped(s@.subrange(0, (i + 1) as int)));
        }
        i = i + 1;
    }
    proof {
        assert(s@.subrange(0, n as int) =~= s@);
    }
}

/// Appends the encoded JSON string for `s` to `out`.
fn push_json_string(out: &mut Vec<char>, s: &str)
    ensures
        final(out)@ == old(out)@ + json_string(s@),
{
    append_str_chars(out, "\"");
    push_json_escaped(out, s);
    append_str_chars(out, "\"");
    proof {
        assert(final(out)@ =~= old(out)@ + json_string(s@));
    }
}

/// Appends the encoding of one structured scalar to `out`.
fn push_scalar_json(out: &mut Vec<char>, v: &JsonScalar)
    ensures
        final(out)@ == old(out)@ + scalar_json(*v),
{
    match v {
        JsonScalar::Null => append_str_chars(out, "null"),
        JsonScalar::Bool(b) => if *b {
            append_str_chars(out, "true")
        } else {
            append_str_chars(out, "false")
        },
        JsonScalar::Long(n) => push_dec_i64(out, *n),
        JsonScalar::Double(s) => append_str_chars(out, s.as_str()),
        JsonScalar::Str(s) => push_json_string(out, s.as_str()),
    }
}

/// Appends the encoding of one record object to `out`.
fn push_record_json(out: &mut Vec<char>, rec: &Record)
    ensures
        final(out)@ == old(out)@ + record_json(record_view(*rec)),
{
    if rec.record.len() == 0 {
        append_str_chars(out, "{}");
        return ;
    }
    append_str_chars(out, "{\n");
    let ghost base = out@;
    let mut i: usize = 0;
    while i < rec.record.len()
        invariant
            i <= rec.record@.len(),
            out@ == base + entries_json(record_view(*rec).take(i as int)),
        decreases rec.record@.len() - i,
    {
        if i > 0 {
            append_str_chars(out, ",\n");
        }
        append_str_chars(out, "      ");
        push_json_string(out, rec.record[i].0.as_str());
        append_str_chars(out, ": ");
        push_scalar_json(out, &rec.record[i].1);
        proof {
            assert(record_view(*rec).take(i + 1).drop_last() =~= record_view(*rec).take(i as int));
            assert(record_view(*rec).take(i + 1).last() == record_view(*rec)[i as int]);
            assert(out@ =~= base + entries_json(record_view(*rec).take(i + 1)));
        }
        i = i + 1;
    }
    append_str_chars(out, "\n    }");
    proof {
        assert(record_view(*rec).take(rec.record@.len() as int) =~= record_view(*rec));
        assert(final(out)@ =~= old(out)@ + record_json(record_view(*rec)));
    }
}

/// Renders a materialized response as its structured output text.
pub fn render_response(c: &CookedResponse) -> (r: String)
    ensures
        r@ == cooked_json(*c),
{
    let mut out: Vec<char> = Vec::new();
    append_str_chars(&mut out, "{\n  \"numberOfRecordsUpdated\": ");
    push_dec_i64(&mut out, c.number_of_records_updated);
    append_str_chars(&mut out, ",\n  \"records\": ");
    if c.records.len() == 0 {
        append_str_chars(&mut out, "[]");
    } else {
        append_str_chars(&mut out, "[\n");
        let ghost base = out@;
        let mut i: usize = 0;
        while i < c.records.len()
            invariant
                i <= c.records@.len(),
                out@ == base + records_items(cooked_views(*c).take(i as int)),
            decreases c.records@.len() - i,
        {
            if i > 0 {
                append_str_chars(&mut out, ",\n");
            }
            append_str_chars(&mut out, "    ");
            push_record_json(&mut out, &c.records[i]);
            proof {
                assert(cooked_views(*c).take(i + 1).drop_last() =~= cooked_views(*c).take(
                    i as int,
                ));
                assert(cooked_views(*c).take(i + 1).last() == cooked_views(*c)[i as int]);
                assert(out@ =~= base + records_items(cooked_views(*c).take(i + 1)));
            }
            i = i + 1;
        }
        append_str_chars(&mut out, "\n  ]");
        proof {
            assert(cooked_views(*c).take(c.records@.len() as int) =~= cooked_views(*c));
        }
    }
    append_str_chars(&mut out, "\n}\n");
    proof {
        assert(out@ =~= cooked_json(*c));
    }
    chars_to_string(&out)
}

/// Renders a whole result set as its structured output text.
pub fn cooked_output(result: &ResultSet) -> (r: String)
    ensures
        r@ == json_output_spec(*result),
{
    let cooked = cook_response(result);
    let r = render_response(&cooked);
    proof {
        assert(cooked_views(cooked) =~~= records_views(*result));
    }
    r
}

} // verus!
