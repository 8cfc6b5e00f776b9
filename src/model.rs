use vstd::prelude::*;

verus! {

/// The declared type of a result column.
///
/// Mirrors the query service's shape: several independent optional slots, of
/// which a well-formed column populates exactly one. A scalar type given as the
/// empty string counts as absent.
pub struct ColumnType {
    pub scalar_type: Option<String>,
    pub array_column_info: Option<ColumnInfo>,
    pub time_series_measure_value_column_info: Option<ColumnInfo>,
    pub row_column_info: Option<Vec<ColumnInfo>>,
}

/// Metadata of one result column: an optional name and its declared type.
pub struct ColumnInfo {
    pub name: Option<String>,
    pub column_type: Option<Box<ColumnType>>,
}

/// One cell of a query result. At most one of the value slots is expected to
/// be populated; which one is read is decided by the column's declared type.
pub struct Datum {
    pub scalar_value: Option<String>,
    pub time_series_value: Option<Vec<TimeSeriesDataPoint>>,
    pub array_value: Option<Vec<Datum>>,
    pub row_value: Option<Row>,
    pub null_value: Option<bool>,
}

/// The field values of a nested row, positionally aligned with the row
/// column's field types.
pub struct Row {
    pub data: Vec<Datum>,
}

/// One point of a time series: its timestamp text and its measure value.
pub struct TimeSeriesDataPoint {
    pub time: String,
    pub value: Option<Datum>,
}

/// The variant that a column's declared type selects.
#[derive(Clone, Copy, Debug, PartialEq, Eq, Structural)]
pub enum ColumnKind {
    Scalar,
    TimeSeries,
    Array,
    Row,
    Unsupported,
}

/// Whether the scalar slot names a scalar type (present and non-empty).
pub open spec fn has_scalar_type(t: ColumnType) -> bool {
    t.scalar_type is Some && t.scalar_type->0@.len() > 0
}

/// The variant selected by a column, probing the slots in a fixed order:
/// scalar, time series, array, row.
pub open spec fn kind_of(c: ColumnInfo) -> ColumnKind {
    match c.column_type {
        None => ColumnKind::Unsupported,
        Some(t) => {
            if has_scalar_type(*t) {
                ColumnKind::Scalar
            } else if t.time_series_measure_value_column_info is Some {
                ColumnKind::TimeSeries
            } else if t.array_column_info is Some {
                ColumnKind::Array
            } else if t.row_column_info is Some {
                ColumnKind::Row
            } else {
                ColumnKind::Unsupported
            }
        },
    }
}

/// Classifies a column by the slot its declared type populates.
pub fn column_kind(c: &ColumnInfo) -> (r: ColumnKind)
    ensures
        r == kind_of(*c),
{
    match &c.column_type {
        None => ColumnKind::Unsupported,
        Some(t) => {
            let scalar = match &t.scalar_type {
                Some(s) => !s.as_str().is_empty(),
                None => false,
            };
            if scalar {
                ColumnKind::Scalar
            } else if t.time_series_measure_value_column_info.is_some() {
                ColumnKind::TimeSeries
            } else if t.array_column_info.is_some() {
                ColumnKind::Array
            } else if t.row_column_info.is_some() {
                ColumnKind::Row
            } else {
                ColumnKind::Unsupported
            }
        },
    }
}

} // verus!
