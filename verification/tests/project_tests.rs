use rdsq::data::{Cell, Column, JsonScalar, ResultSet};
use rdsq::fields::{field_value, format_value};
use rdsq::project::{annotate_fields, cook_response, format_header, format_rows, one_row};

fn named_column(name: &str) -> Column {
    Column { label: None, name: Some(name.to_string()) }
}

#[test]
fn null_cell_decodes_to_null_literal_and_structured_null() {
    assert_eq!(format_value(&Cell::Null), "NULL");
    assert_eq!(field_value(&Cell::Null), JsonScalar::Null);
}

#[test]
fn empty_cell_decodes_to_empty_string_and_structured_null() {
    assert_eq!(format_value(&Cell::Empty), "");
    assert_eq!(field_value(&Cell::Empty), JsonScalar::Null);
}

#[test]
fn boolean_cell_decodes_to_its_textual_form() {
    assert_eq!(format_value(&Cell::Boolean(true)), "true");
    assert_eq!(format_value(&Cell::Boolean(false)), "false");
    assert_eq!(field_value(&Cell::Boolean(true)), JsonScalar::Bool(true));
}

#[test]
fn long_cell_decodes_to_decimal_text() {
    assert_eq!(format_value(&Cell::Long(7)), "7");
    assert_eq!(format_value(&Cell::Long(0)), "0");
    assert_eq!(format_value(&Cell::Long(-42)), "-42");
    assert_eq!(format_value(&Cell::Long(i64::MAX)), "9223372036854775807");
    assert_eq!(format_value(&Cell::Long(i64::MIN)), "-9223372036854775808");
    assert_eq!(field_value(&Cell::Long(-42)), JsonScalar::Long(-42));
}

#[test]
fn string_cell_renders_verbatim() {
    assert_eq!(format_value(&Cell::Str("a,b \"q\"".to_string())), "a,b \"q\"");
    assert_eq!(
        field_value(&Cell::Str("Ann".to_string())),
        JsonScalar::Str("Ann".to_string())
    );
}

#[test]
fn double_cell_keeps_its_textual_form() {
    assert_eq!(format_value(&Cell::Double("1.5".to_string())), "1.5");
    assert_eq!(
        field_value(&Cell::Double("1.5".to_string())),
        JsonScalar::Double("1.5".to_string())
    );
}

#[test]
fn uninterpreted_cells_dump_display_and_null_structured() {
    assert_eq!(format_value(&Cell::Array("[1, 2]".to_string())), "[1, 2]");
    assert_eq!(field_value(&Cell::Array("[1, 2]".to_string())), JsonScalar::Null);
    assert_eq!(format_value(&Cell::Blob("blob".to_string())), "blob");
    assert_eq!(field_value(&Cell::Blob("blob".to_string())), JsonScalar::Null);
    assert_eq!(format_value(&Cell::Other("UNKNOWN".to_string())), "UNKNOWN");
    assert_eq!(field_value(&Cell::Other("UNKNOWN".to_string())), JsonScalar::Null);
}

#[test]
fn header_prefers_label_then_name_then_question_mark() {
    let rs = ResultSet {
        column_metadata: Some(vec![
            Column { label: Some("L".to_string()), name: Some("n".to_string()) },
            Column { label: None, name: Some("n2".to_string()) },
            Column { label: None, name: None },
        ]),
        records: None,
        number_of_records_updated: 0,
    };
    assert_eq!(format_header(&rs), vec!["L".to_string(), "n2".to_string(), "?".to_string()]);
}

#[test]
fn absent_column_metadata_yields_empty_header() {
    let rs = ResultSet { column_metadata: None, records: None, number_of_records_updated: 0 };
    assert_eq!(format_header(&rs), Vec::<String>::new());
}

#[test]
fn duplicate_names_are_kept_in_order() {
    let header = vec!["a".to_string(), "a".to_string(), "b".to_string()];
    let row = vec![Cell::Long(1), Cell::Long(2), Cell::Long(3)];
    let rec = annotate_fields(&header, &row);
    assert_eq!(
        rec.record,
        vec![
            ("a".to_string(), JsonScalar::Long(1)),
            ("a".to_string(), JsonScalar::Long(2)),
            ("b".to_string(), JsonScalar::Long(3)),
        ]
    );
}

#[test]
fn projection_pairs_only_while_both_in_range() {
    let header = vec!["a".to_string(), "b".to_string()];
    let row = vec![Cell::Long(1), Cell::Long(2), Cell::Long(3)];
    let rec = annotate_fields(&header, &row);
    assert_eq!(
        rec.record,
        vec![
            ("a".to_string(), JsonScalar::Long(1)),
            ("b".to_string(), JsonScalar::Long(2)),
        ]
    );
    let short_row = vec![Cell::Long(1)];
    let rec = annotate_fields(&header, &short_row);
    assert_eq!(rec.record, vec![("a".to_string(), JsonScalar::Long(1))]);
}

#[test]
fn delimited_row_keeps_the_row_length_not_the_header_length() {
    let row = vec![Cell::Long(1), Cell::Str("x".to_string()), Cell::Null];
    assert_eq!(one_row(&row), vec!["1".to_string(), "x".to_string(), "NULL".to_string()]);
}

#[test]
fn format_rows_renders_every_row_in_order() {
    let rs = ResultSet {
        column_metadata: Some(vec![named_column("n")]),
        records: Some(vec![vec![Cell::Long(1)], vec![Cell::Long(2)]]),
        number_of_records_updated: 0,
    };
    assert_eq!(
        format_rows(&rs),
        vec![vec!["1".to_string()], vec!["2".to_string()]]
    );
}

#[test]
fn cook_response_projects_every_row_against_the_header() {
    let rs = ResultSet {
        column_metadata: Some(vec![named_column("id"), named_column("who")]),
        records: Some(vec![
            vec![Cell::Long(1), Cell::Str("Ann".to_string())],
            vec![Cell::Long(2), Cell::Null],
        ]),
        number_of_records_updated: 4,
    };
    let cooked = cook_response(&rs);
    assert_eq!(cooked.number_of_records_updated, 4);
    assert_eq!(cooked.records.len(), 2);
    assert_eq!(
        cooked.records[0].record,
        vec![
            ("id".to_string(), JsonScalar::Long(1)),
            ("who".to_string(), JsonScalar::Str("Ann".to_string())),
        ]
    );
    assert_eq!(
        cooked.records[1].record,
        vec![
            ("id".to_string(), JsonScalar::Long(2)),
            ("who".to_string(), JsonScalar::Null),
        ]
    );
}
