//! The field decoder: one variant-typed cell becomes a canonical display
//! string for delimited output and a canonical structured scalar for record
//! output. Decoding is total: every cell, including an entirely empty one,
//! decodes without error.

use vstd::prelude::*;

use crate::data::{Cell, JsonScalar};
use crate::text::{chars_to_string, i64_dec, push_dec_i64};

verus! {

/// The canonical display string of a cell: booleans and integers in their
/// natural textual form, strings verbatim, an explicit database NULL as the
/// literal `NULL`, uninterpreted variants as their textual dump, and an
/// entirely empty cell as the empty string.
pub open spec fn display_of(c: Cell) -> Seq<char> {
    match c {
        Cell::Array(s) => s@,
        Cell::Blob(s) => s@,
        Cell::Boolean(b) => if b {
            "true"@
        } else {
            "false"@
        },
        Cell::Double(s) => s@,
        Cell::Null => "NULL"@,
        Cell::Long(n) => i64_dec(n as int),
        Cell::Str(s) => s@,
        Cell::Other(s) => s@,
        Cell::Empty => Seq::empty(),
    }
}

/// The canonical structured scalar of a cell: booleans, numbers and strings
/// keep their value; NULL, the uninterpreted variants and an entirely empty
/// cell all become a structured null (their information is deliberately not
/// preserved in record output).
pub open spec fn scalar_of(c: Cell) -> JsonScalar {
    match c {
        Cell::Array(_) => JsonScalar::Null,
        Cell::Blob(_) => JsonScalar::Null,
        Cell::Boolean(b) => JsonScalar::Bool(b),
        Cell::Double(s) => JsonScalar::Double(s),
        Cell::Null => JsonScalar::Null,
        Cell::Long(n) => JsonScalar::Long(n),
        Cell::Str(s) => JsonScalar::Str(s),
        Cell::Other(_) => JsonScalar::Null,
        Cell::Empty => JsonScalar::Null,
    }
}

/// Renders one cell as its canonical display string.
pub fn format_value(value: &Cell) -> (r: String)
    ensures
        r@ == display_of(*value),
{
    match value {
        Cell::Array(s) => s.clone(),
        Cell::Blob(s) => s.clone(),
        Cell::Boolean(b) => if *b {
            String::from_str("true")
        } else {
            String::from_str("false")
        },
        Cell::Double(s) => s.clone(),
        Cell::Null => String::from_str("NULL"),
        Cell::Long(n) => {
            let mut digits: Vec<char> = Vec::new();
            push_dec_i64(&mut digits, *n);
            chars_to_string(&digits)
        },
        Cell::Str(s) => s.clone(),
        Cell::Other(s) => s.clone(),
        Cell::Empty => String::new(),
    }
}

/// Decodes one cell into its canonical structured scalar.
pub fn field_value(field: &Cell) -> (r: JsonScalar)
    ensures
        r == scalar_of(*field),
{
    match field {
        Cell::Array(_) => JsonScalar::Null,
        Cell::Blob(_) => JsonScalar::Null,
        Cell::Boolean(b) => JsonScalar::Bool(*b),
        Cell::Double(s) => JsonScalar::Double(s.clone()),
        Cell::Null => JsonScalar::Null,
        Cell::Long(n) => JsonScalar::Long(*n),
        Cell::Str(s) => JsonScalar::Str(s.clone()),
        Cell::Other(_) => JsonScalar::Null,
        Cell::Empty => JsonScalar::Null,
    }
}

} // verus!
