use vstd::prelude::*;

use crate::model::{has_scalar_type, kind_of, ColumnInfo, ColumnKind, ColumnType, Datum, TimeSeriesDataPoint};
use crate::query_common::{
    render_array, render_array_element, render_array_prefix, render_point,
    render_point_value, render_row, render_row_field, render_row_prefix, render_scalar,
    render_time_series, render_time_series_prefix, sep, wrap, DecodeError,
};

verus! {

/// The pieces joined with `", "`, in order.
pub open spec fn join(parts: Seq<Seq<char>>) -> Seq<char>
    decreases parts.len(),
{
    if parts.len() == 0 {
        Seq::empty()
    } else if parts.len() == 1 {
        parts[0]
    } else {
        join(parts.drop_last()) + sep() + parts.last()
    }
}

/// The number of the four type slots that a column type populates (a scalar
/// type only when non-empty).
pub open spec fn populated_slots(t: ColumnType) -> int {
    (if has_scalar_type(t) { 1int } else { 0int }) + (if t.time_series_measure_value_column_info is Some {
        1int
    } else {
        0int
    }) + (if t.array_column_info is Some { 1int } else { 0int }) + (if t.row_column_info is Some {
        1int
    } else {
        0int
    })
}

/// A cell with a scalar value renders as exactly that value.
pub proof fn scalar_renders_unchanged(d: Datum)
    requires
        d.scalar_value is Some,
    ensures
        render_scalar(d) == Ok::<Seq<char>, DecodeError>(d.scalar_value->0@),
{
}

/// A column type with exactly one populated slot selects that slot; an
/// empty scalar type name does not count as populated.
pub proof fn dispatch_selects_sole_variant(c: ColumnInfo)
    requires
        c.column_type is Some,
        populated_slots(*c.column_type->0) == 1,
    ensures
        has_scalar_type(*c.column_type->0) ==> kind_of(c) == ColumnKind::Scalar,
        c.column_type->0.time_series_measure_value_column_info is Some ==> kind_of(c)
            == ColumnKind::TimeSeries,
        c.column_type->0.array_column_info is Some ==> kind_of(c) == ColumnKind::Array,
        c.column_type->0.row_column_info is Some ==> kind_of(c) == ColumnKind::Row,
{
}

proof fn lemma_row_prefix_joins(fields: Seq<Datum>, cols: Seq<ColumnInfo>, n: int)
    requires
        fields.len() == cols.len(),
        0 <= n <= fields.len(),
        forall|i: int| 0 <= i < fields.len() ==> (#[trigger] render_row_field(fields[i], cols[i])) is Ok,
    ensures
        render_row_prefix(fields, cols, n) == Ok::<Seq<char>, DecodeError>(
            join(Seq::new(n as nat, |i: int| render_row_field(fields[i], cols[i])->Ok_0)),
        ),
    decreases n,
{
    let parts = Seq::new(n as nat, |i: int| render_row_field(fields[i], cols[i])->Ok_0);
    if n > 0 {
        lemma_row_prefix_joins(fields, cols, n - 1);
        let prev = Seq::new((n - 1) as nat, |i: int| render_row_field(fields[i], cols[i])->Ok_0);
        assert(parts.drop_last() =~= prev);
        assert(render_row_field(fields[n - 1], cols[n - 1]) is Ok);
    }
}

/// A row whose fields all render joins exactly those renderings, field `i`
/// by column `i`, in field order.
pub proof fn row_joins_fields(fields: Seq<Datum>, cols: Seq<ColumnInfo>)
    requires
        fields.len() == cols.len(),
        forall|i: int| 0 <= i < fields.len() ==> (#[trigger] render_row_field(fields[i], cols[i])) is Ok,
    ensures
        render_row(fields, cols) == Ok::<Seq<char>, DecodeError>(
            join(Seq::new(fields.len(), |i: int| render_row_field(fields[i], cols[i])->Ok_0)),
        ),
{
    lemma_row_prefix_joins(fields, cols, fields.len() as int);
}

/// Rows whose field and column counts differ are refused.
pub proof fn row_shape_must_match(fields: Seq<Datum>, cols: Seq<ColumnInfo>)
    requires
        fields.len() != cols.len(),
    ensures
        render_row(fields, cols) == Err::<Seq<char>, DecodeError>(DecodeError::ShapeMismatch),
{
}

proof fn lemma_array_prefix_joins(elems: Seq<Datum>, c: ColumnInfo, n: int)
    requires
        0 <= n <= elems.len(),
        forall|i: int| 0 <= i < elems.len() ==> (#[trigger] render_array_element(elems[i], c)) is Ok,
    ensures
        render_array_prefix(elems, c, n) == Ok::<Seq<char>, DecodeError>(
            join(Seq::new(n as nat, |i: int| render_array_element(elems[i], c)->Ok_0)),
        ),
    decreases n,
{
    let parts = Seq::new(n as nat, |i: int| render_array_element(elems[i], c)->Ok_0);
    if n > 0 {
        lemma_array_prefix_joins(elems, c, n - 1);
        let prev = Seq::new((n - 1) as nat, |i: int| render_array_element(elems[i], c)->Ok_0);
        assert(parts.drop_last() =~= prev);
        assert(render_array_element(elems[n - 1], c) is Ok);
    }
}

/// An array whose elements all render joins exactly those renderings, in
/// element order.
pub proof fn array_joins_elements(elems: Seq<Datum>, c: ColumnInfo)
    requires
        forall|i: int| 0 <= i < elems.len() ==> (#[trigger] render_array_element(elems[i], c)) is Ok,
    ensures
        render_array(elems, c) == Ok::<Seq<char>, DecodeError>(
            join(Seq::new(elems.len(), |i: int| render_array_element(elems[i], c)->Ok_0)),
        ),
{
    lemma_array_prefix_joins(elems, c, elems.len() as int);
}

/// Inside an array, an element of row type renders as its row's joined
/// fields in one pair of brackets, and an element of array type as its
/// elements in one pair of brackets.
pub proof fn array_brackets_nested_values(d: Datum, c: ColumnInfo)
    ensures
        kind_of(c) == ColumnKind::Row && d.row_value is Some ==> render_array_element(d, c) == wrap(
            render_row(d.row_value->0.data@, c.column_type->0.row_column_info->0@),
        ),
        kind_of(c) == ColumnKind::Array && d.array_value is Some ==> render_array_element(d, c)
            == wrap(render_array(d.array_value->0@, c.column_type->0.array_column_info->0)),
{
}

/// Inside a row, a field of array, row or time-series type renders in one
/// pair of brackets.
pub proof fn row_brackets_nested_values(d: Datum, c: ColumnInfo)
    ensures
        kind_of(c) == ColumnKind::Array && d.array_value is Some ==> render_row_field(d, c) == wrap(
            render_array(d.array_value->0@, c.column_type->0.array_column_info->0),
        ),
        kind_of(c) == ColumnKind::Row && d.row_value is Some ==> render_row_field(d, c) == wrap(
            render_row(d.row_value->0.data@, c.column_type->0.row_column_info->0@),
        ),
        kind_of(c) == ColumnKind::TimeSeries && d.time_series_value is Some ==> render_row_field(
            d,
            c,
        ) == wrap(
            render_time_series(
                d.time_series_value->0@,
                c.column_type->0.time_series_measure_value_column_info->0,
            ),
        ),
{
}

proof fn lemma_time_series_prefix_joins(points: Seq<TimeSeriesDataPoint>, c: ColumnInfo, n: int)
    requires
        0 <= n <= points.len(),
        forall|i: int| 0 <= i < points.len() ==> (#[trigger] render_point(points[i], c)) is Ok,
    ensures
        render_time_series_prefix(points, c, n) == Ok::<Seq<char>, DecodeError>(
            join(Seq::new(n as nat, |i: int| render_point(points[i], c)->Ok_0)),
        ),
    decreases n,
{
    let parts = Seq::new(n as nat, |i: int| render_point(points[i], c)->Ok_0);
    if n > 0 {
        lemma_time_series_prefix_joins(points, c, n - 1);
        let prev = Seq::new((n - 1) as nat, |i: int| render_point(points[i], c)->Ok_0);
        assert(parts.drop_last() =~= prev);
        assert(render_point(points[n - 1], c) is Ok);
    }
}

/// A time series renders each point as `<timestamp>:<value>` and joins the
/// points with `", "` in order; with no points it renders as the empty text.
pub proof fn time_series_joins_points(points: Seq<TimeSeriesDataPoint>, c: ColumnInfo)
    ensures
        points.len() == 0 ==> render_time_series(points, c) == Ok::<Seq<char>, DecodeError>(
            Seq::empty(),
        ),
        (forall|i: int| 0 <= i < points.len() ==> (#[trigger] render_point(points[i], c)) is Ok)
            ==> render_time_series(points, c) == Ok::<Seq<char>, DecodeError>(
            join(Seq::new(points.len(), |i: int| render_point(points[i], c)->Ok_0)),
        ),
        forall|i: int|
            0 <= i < points.len() && c.column_type is Some && (#[trigger] points[i]).value is Some
                && render_point_value(points[i].value->0, c) is Ok ==> render_point(points[i], c)
                == Ok::<Seq<char>, DecodeError>(
                points[i].time@ + seq![':'] + render_point_value(points[i].value->0, c)->Ok_0,
            ),
{
    if forall|i: int| 0 <= i < points.len() ==> (#[trigger] render_point(points[i], c)) is Ok {
        lemma_time_series_prefix_joins(points, c, points.len() as int);
    }
}

/// A column type that populates none of the four slots fails with
/// `UnsupportedColumnType` wherever a value of it is rendered.
pub proof fn unsupported_column_fails(d: Datum, c: ColumnInfo, elems: Seq<Datum>)
    requires
        kind_of(c) == ColumnKind::Unsupported,
    ensures
        render_row_field(d, c) == Err::<Seq<char>, DecodeError>(
            DecodeError::UnsupportedColumnType,
        ),
        render_array_element(d, c) == Err::<Seq<char>, DecodeError>(
            DecodeError::UnsupportedColumnType,
        ),
        render_point_value(d, c) == Err::<Seq<char>, DecodeError>(
            DecodeError::UnsupportedColumnType,
        ),
        elems.len() > 0 ==> render_array(elems, c) == Err::<Seq<char>, DecodeError>(
            DecodeError::UnsupportedColumnType,
        ),
        render_row(seq![d], seq![c]) == Err::<Seq<char>, DecodeError>(
            DecodeError::UnsupportedColumnType,
        ),
{
    if elems.len() > 0 {
        lemma_array_unsupported(elems, c, elems.len() as int);
    }
    assert(render_row_prefix(seq![d], seq![c], 0) is Ok);
}

proof fn lemma_array_unsupported(elems: Seq<Datum>, c: ColumnInfo, n: int)
    requires
        kind_of(c) == ColumnKind::Unsupported,
        1 <= n,
    ensures
        render_array_prefix(elems, c, n) == Err::<Seq<char>, DecodeError>(
            DecodeError::UnsupportedColumnType,
        ),
    decreases n,
{
    if n > 1 {
        lemma_array_unsupported(elems, c, n - 1);
    } else {
        assert(render_array_prefix(elems, c, 0) is Ok);
    }
    assert(render_array_element(elems[n - 1], c) is Err);
}

} // verus!
