use timestream_sample::model::{column_kind, ColumnInfo, ColumnKind, ColumnType, Datum, Row, TimeSeriesDataPoint};
use timestream_sample::query_common::{
    process_array_type, process_row_type, process_scalar_type, process_time_series_type,
    DecodeError,
};

fn empty_type() -> ColumnType {
    ColumnType {
        scalar_type: None,
        array_column_info: None,
        time_series_measure_value_column_info: None,
        row_column_info: None,
    }
}

fn column(t: ColumnType) -> ColumnInfo {
    ColumnInfo { name: None, column_type: Some(Box::new(t)) }
}

fn scalar_col() -> ColumnInfo {
    column(ColumnType { scalar_type: Some("VARCHAR".to_string()), ..empty_type() })
}

fn array_col(elem: ColumnInfo) -> ColumnInfo {
    column(ColumnType { array_column_info: Some(elem), ..empty_type() })
}

fn row_col(fields: Vec<ColumnInfo>) -> ColumnInfo {
    column(ColumnType { row_column_info: Some(fields), ..empty_type() })
}

fn ts_col(value: ColumnInfo) -> ColumnInfo {
    column(ColumnType { time_series_measure_value_column_info: Some(value), ..empty_type() })
}

fn empty_datum() -> Datum {
    Datum {
        scalar_value: None,
        time_series_value: None,
        array_value: None,
        row_value: None,
        null_value: None,
    }
}

fn scalar(s: &str) -> Datum {
    Datum { scalar_value: Some(s.to_string()), ..empty_datum() }
}

fn array(items: Vec<Datum>) -> Datum {
    Datum { array_value: Some(items), ..empty_datum() }
}

fn row(items: Vec<Datum>) -> Datum {
    Datum { row_value: Some(Row { data: items }), ..empty_datum() }
}

fn series(points: Vec<(&str, Datum)>) -> Datum {
    let pts = points
        .into_iter()
        .map(|(t, v)| TimeSeriesDataPoint { time: t.to_string(), value: Some(v) })
        .collect();
    Datum { time_series_value: Some(pts), ..empty_datum() }
}

#[test]
fn end_to_end_row_with_array() {
    let data = vec![scalar("us-east-1"), array(vec![scalar("10"), scalar("20")])];
    let meta = vec![scalar_col(), array_col(scalar_col())];
    assert_eq!(process_row_type(&data, &meta), Ok("us-east-1, [10, 20]".to_string()));
}

#[test]
fn scalar_value_is_returned_unchanged() {
    assert_eq!(process_scalar_type(&scalar("cpu  42,5 ")), Ok("cpu  42,5 ".to_string()));
    assert_eq!(process_scalar_type(&scalar("")), Ok(String::new()));
}

#[test]
fn scalar_without_value_is_missing() {
    assert_eq!(process_scalar_type(&empty_datum()), Err(DecodeError::MissingValue));
}

#[test]
fn empty_scalar_type_with_array_info_renders_as_array() {
    let c = column(ColumnType {
        scalar_type: Some(String::new()),
        array_column_info: Some(scalar_col()),
        ..empty_type()
    });
    assert_eq!(column_kind(&c), ColumnKind::Array);
    let data = vec![array(vec![scalar("1"), scalar("2")])];
    assert_eq!(process_row_type(&data, &[c]), Ok("[1, 2]".to_string()));
}

#[test]
fn sole_variant_is_selected() {
    assert_eq!(column_kind(&scalar_col()), ColumnKind::Scalar);
    assert_eq!(column_kind(&array_col(scalar_col())), ColumnKind::Array);
    assert_eq!(column_kind(&row_col(vec![scalar_col()])), ColumnKind::Row);
    assert_eq!(column_kind(&ts_col(scalar_col())), ColumnKind::TimeSeries);
    assert_eq!(column_kind(&column(empty_type())), ColumnKind::Unsupported);
    assert_eq!(column_kind(&ColumnInfo { name: None, column_type: None }), ColumnKind::Unsupported);
}

#[test]
fn row_output_follows_field_order() {
    let meta = vec![scalar_col(), scalar_col(), scalar_col()];
    let a = vec![scalar("a"), scalar("b"), scalar("c")];
    let b = vec![scalar("c"), scalar("a"), scalar("b")];
    assert_eq!(process_row_type(&a, &meta), Ok("a, b, c".to_string()));
    assert_eq!(process_row_type(&b, &meta), Ok("c, a, b".to_string()));
}

#[test]
fn empty_row_renders_empty() {
    assert_eq!(process_row_type(&[], &[]), Ok(String::new()));
}

#[test]
fn row_shape_mismatch_is_an_error() {
    let meta = vec![scalar_col()];
    let data = vec![scalar("a"), scalar("b")];
    assert_eq!(process_row_type(&data, &meta), Err(DecodeError::ShapeMismatch));
    assert_eq!(process_row_type(&data[..1], &[]), Err(DecodeError::ShapeMismatch));
}

#[test]
fn array_of_rows_brackets_each_row() {
    let elem = row_col(vec![scalar_col(), scalar_col()]);
    let items = vec![row(vec![scalar("a"), scalar("1")]), row(vec![scalar("b"), scalar("2")])];
    assert_eq!(process_array_type(&items, &elem), Ok("[a, 1], [b, 2]".to_string()));
}

#[test]
fn row_field_array_is_bracketed() {
    let meta = vec![array_col(scalar_col()), scalar_col()];
    let data = vec![array(vec![scalar("x")]), scalar("y")];
    assert_eq!(process_row_type(&data, &meta), Ok("[x], y".to_string()));
}

#[test]
fn array_of_rows_of_arrays() {
    let inner = array_col(scalar_col());
    let elem = row_col(vec![scalar_col(), inner]);
    let items = vec![
        row(vec![scalar("a"), array(vec![scalar("1"), scalar("2")])]),
        row(vec![scalar("b"), array(vec![])]),
    ];
    assert_eq!(process_array_type(&items, &elem), Ok("[a, [1, 2]], [b, []]".to_string()));
    let meta = vec![array_col(elem)];
    let data = vec![array(items)];
    assert_eq!(process_row_type(&data, &meta), Ok("[[a, [1, 2]], [b, []]]".to_string()));
}

#[test]
fn time_series_points_render_with_timestamps() {
    let points = vec![
        TimeSeriesDataPoint { time: "2024-01-01 00:00:00".to_string(), value: Some(scalar("1.5")) },
        TimeSeriesDataPoint { time: "2024-01-01 00:01:00".to_string(), value: Some(scalar("2.5")) },
    ];
    assert_eq!(
        process_time_series_type(&points, &scalar_col()),
        Ok("2024-01-01 00:00:00:1.5, 2024-01-01 00:01:00:2.5".to_string())
    );
}

#[test]
fn empty_time_series_renders_empty() {
    assert_eq!(process_time_series_type(&[], &scalar_col()), Ok(String::new()));
}

#[test]
fn time_series_in_row_is_bracketed_and_in_array_is_not() {
    let meta = vec![scalar_col(), ts_col(scalar_col())];
    let data = vec![scalar("host"), series(vec![("t1", scalar("1")), ("t2", scalar("2"))])];
    assert_eq!(process_row_type(&data, &meta), Ok("host, [t1:1, t2:2]".to_string()));
    let items = vec![series(vec![("t1", scalar("1"))]), series(vec![("t2", scalar("2"))])];
    assert_eq!(process_array_type(&items, &ts_col(scalar_col())), Ok("t1:1, t2:2".to_string()));
}

#[test]
fn time_series_values_of_arrays_and_rows_are_not_bracketed() {
    let points = vec![TimeSeriesDataPoint {
        time: "t".to_string(),
        value: Some(array(vec![scalar("1"), scalar("2")])),
    }];
    assert_eq!(process_time_series_type(&points, &array_col(scalar_col())), Ok("t:1, 2".to_string()));
    let points = vec![TimeSeriesDataPoint {
        time: "t".to_string(),
        value: Some(row(vec![scalar("a"), scalar("b")])),
    }];
    let c = row_col(vec![scalar_col(), scalar_col()]);
    assert_eq!(process_time_series_type(&points, &c), Ok("t:a, b".to_string()));
}

#[test]
fn time_series_of_time_series_is_unsupported() {
    let points = vec![TimeSeriesDataPoint {
        time: "t".to_string(),
        value: Some(series(vec![("u", scalar("1"))])),
    }];
    assert_eq!(
        process_time_series_type(&points, &ts_col(scalar_col())),
        Err(DecodeError::UnsupportedColumnType)
    );
}

#[test]
fn time_series_point_without_value_is_missing() {
    let points = vec![TimeSeriesDataPoint { time: "t".to_string(), value: None }];
    assert_eq!(process_time_series_type(&points, &scalar_col()), Err(DecodeError::MissingValue));
}

#[test]
fn column_without_variant_is_unsupported() {
    let bad = column(empty_type());
    assert_eq!(process_row_type(&[scalar("a")], &[bad]), Err(DecodeError::UnsupportedColumnType));
    let bad = ColumnInfo { name: Some("c".to_string()), column_type: None };
    assert_eq!(process_array_type(&[scalar("a")], &bad), Err(DecodeError::UnsupportedColumnType));
    let bad = column(ColumnType { scalar_type: Some(String::new()), ..empty_type() });
    assert_eq!(process_row_type(&[scalar("a")], &[bad]), Err(DecodeError::UnsupportedColumnType));
}

#[test]
fn missing_nested_value_fails_whole_row() {
    let meta = vec![scalar_col(), array_col(scalar_col())];
    let data = vec![scalar("a"), scalar("not an array")];
    assert_eq!(process_row_type(&data, &meta), Err(DecodeError::MissingValue));
}

#[test]
fn first_failure_wins() {
    let meta = vec![scalar_col(), column(empty_type())];
    let data = vec![empty_datum(), scalar("b")];
    assert_eq!(process_row_type(&data, &meta), Err(DecodeError::MissingValue));
}
