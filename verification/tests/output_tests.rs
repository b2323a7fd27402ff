use rdsq::csv_out::csv_output;
use rdsq::data::{Cell, Column, CookedResponse, JsonScalar, Record, ResultSet};
use rdsq::json_out::{cooked_output, render_response};

fn named_column(name: &str) -> Column {
    Column { label: None, name: Some(name.to_string()) }
}

fn labeled_column(label: &str) -> Column {
    Column { label: Some(label.to_string()), name: None }
}

fn round_trip_result_set() -> ResultSet {
    ResultSet {
        column_metadata: Some(vec![named_column("id"), labeled_column("Name")]),
        records: Some(vec![vec![Cell::Long(7), Cell::Str("Ann".to_string())]]),
        number_of_records_updated: 0,
    }
}

#[test]
fn round_trip_delimited() {
    assert_eq!(csv_output(&round_trip_result_set()), "id,Name\n7,Ann\n");
}

#[test]
fn round_trip_structured() {
    let expected = "{\n  \"numberOfRecordsUpdated\": 0,\n  \"records\": [\n    {\n      \"id\": 7,\n      \"Name\": \"Ann\"\n    }\n  ]\n}\n";
    assert_eq!(cooked_output(&round_trip_result_set()), expected);
}

#[test]
fn delimited_quotes_embedded_delimiters_and_quotes() {
    let rs = ResultSet {
        column_metadata: Some(vec![named_column("a"), named_column("b"), named_column("c")]),
        records: Some(vec![vec![
            Cell::Str("x,y".to_string()),
            Cell::Str("say \"hi\"".to_string()),
            Cell::Str("line\nbreak".to_string()),
        ]]),
        number_of_records_updated: 0,
    };
    assert_eq!(
        csv_output(&rs),
        "a,b,c\n\"x,y\",\"say \"\"hi\"\"\",\"line\nbreak\"\n"
    );
}

#[test]
fn delimited_prints_update_count_when_nonzero() {
    let rs = ResultSet {
        column_metadata: Some(vec![named_column("n")]),
        records: Some(vec![]),
        number_of_records_updated: 3,
    };
    assert_eq!(csv_output(&rs), "number_of_records_updated: 3\nn\n");
}

#[test]
fn delimited_prints_update_count_when_no_metadata() {
    let rs = ResultSet { column_metadata: None, records: None, number_of_records_updated: 0 };
    assert_eq!(csv_output(&rs), "number_of_records_updated: 0\n\"\"\n");
}

#[test]
fn delimited_empty_table_prints_header_only() {
    let rs = ResultSet {
        column_metadata: Some(vec![named_column("id"), named_column("who")]),
        records: Some(vec![]),
        number_of_records_updated: 0,
    };
    assert_eq!(csv_output(&rs), "id,who\n");
}

#[test]
fn delimited_row_of_no_cells_is_one_quoted_empty_field() {
    let rs = ResultSet {
        column_metadata: Some(vec![named_column("id")]),
        records: Some(vec![vec![]]),
        number_of_records_updated: 0,
    };
    assert_eq!(csv_output(&rs), "id\n\"\"\n");
}

#[test]
fn structured_empty_records_is_an_empty_array() {
    let rs = ResultSet {
        column_metadata: Some(vec![named_column("id")]),
        records: Some(vec![]),
        number_of_records_updated: 5,
    };
    assert_eq!(
        cooked_output(&rs),
        "{\n  \"numberOfRecordsUpdated\": 5,\n  \"records\": []\n}\n"
    );
}

#[test]
fn structured_escapes_quotes_backslashes_and_controls() {
    let rs = ResultSet {
        column_metadata: Some(vec![named_column("s")]),
        records: Some(vec![vec![Cell::Str("a\"b\\c\nd\t\u{1}".to_string())]]),
        number_of_records_updated: 0,
    };
    let expected = "{\n  \"numberOfRecordsUpdated\": 0,\n  \"records\": [\n    {\n      \"s\": \"a\\\"b\\\\c\\nd\\t\\u0001\"\n    }\n  ]\n}\n";
    assert_eq!(cooked_output(&rs), expected);
}

#[test]
fn structured_keeps_duplicate_names_in_order() {
    let rs = ResultSet {
        column_metadata: Some(vec![named_column("a"), named_column("a")]),
        records: Some(vec![vec![Cell::Long(1), Cell::Long(2)]]),
        number_of_records_updated: 0,
    };
    let expected = "{\n  \"numberOfRecordsUpdated\": 0,\n  \"records\": [\n    {\n      \"a\": 1,\n      \"a\": 2\n    }\n  ]\n}\n";
    assert_eq!(cooked_output(&rs), expected);
}

#[test]
fn structured_scalar_variants_render_as_json() {
    let rs = ResultSet {
        column_metadata: Some(vec![
            named_column("b"),
            named_column("n"),
            named_column("d"),
            named_column("z"),
        ]),
        records: Some(vec![vec![
            Cell::Boolean(true),
            Cell::Long(-42),
            Cell::Double("1.5".to_string()),
            Cell::Null,
        ]]),
        number_of_records_updated: 0,
    };
    let expected = "{\n  \"numberOfRecordsUpdated\": 0,\n  \"records\": [\n    {\n      \"b\": true,\n      \"n\": -42,\n      \"d\": 1.5,\n      \"z\": null\n    }\n  ]\n}\n";
    assert_eq!(cooked_output(&rs), expected);
}

#[test]
fn structured_row_without_pairs_is_an_empty_object() {
    let rs = ResultSet {
        column_metadata: None,
        records: Some(vec![vec![Cell::Long(1)]]),
        number_of_records_updated: 0,
    };
    let expected = "{\n  \"numberOfRecordsUpdated\": 0,\n  \"records\": [\n    {}\n  ]\n}\n";
    assert_eq!(cooked_output(&rs), expected);
}

#[test]
fn render_response_renders_a_prebuilt_response() {
    let c = CookedResponse {
        number_of_records_updated: -1,
        records: vec![Record {
            record: vec![("k".to_string(), JsonScalar::Str("v".to_string()))],
        }],
    };
    let expected = "{\n  \"numberOfRecordsUpdated\": -1,\n  \"records\": [\n    {\n      \"k\": \"v\"\n    }\n  ]\n}\n";
    assert_eq!(render_response(&c), expected);
}
