use vstd::prelude::*;

use crate::model::{column_kind, kind_of, ColumnInfo, ColumnKind, Datum, TimeSeriesDataPoint};

verus! {

pub const DEFAULT_DATABASE_NAME: &'static str = "devops_multi_sample_application";

pub const DEFAULT_OUTPUT_FILE: &'static str = "query_results.log";

pub const DEFAULT_REGION: &'static str = "us-east-1";

pub const DEFAULT_TABLE_NAME: &'static str = "host_metrics_sample_application";

/// Settings of a query run: the database and table queried, the file that
/// results are logged to, and the region of the service.
pub struct Args {
    pub database_name: String,
    pub output_file: String,
    pub region: String,
    pub table_name: String,
}

impl Default for Args {
    fn default() -> (r: Args)
        ensures
            r.database_name@ == DEFAULT_DATABASE_NAME@,
            r.output_file@ == DEFAULT_OUTPUT_FILE@,
            r.region@ == DEFAULT_REGION@,
            r.table_name@ == DEFAULT_TABLE_NAME@,
    {
        Args {
            database_name: String::from_str(DEFAULT_DATABASE_NAME),
            output_file: String::from_str(DEFAULT_OUTPUT_FILE),
            region: String::from_str(DEFAULT_REGION),
            table_name: String::from_str(DEFAULT_TABLE_NAME),
        }
    }
}

/// What to do after one page of query results has been counted.
pub enum PageStep {
    /// Fetch the next page with this continuation token.
    FetchNext(String),
    /// The last page has been seen.
    Finished,
}

/// The running state of a paginated query: the rows counted so far.
pub struct QueryProgress {
    pub rows_seen: usize,
}

impl QueryProgress {
    /// No page seen yet.
    pub fn new() -> (r: QueryProgress)
        ensures
            r.rows_seen == 0,
    {
        QueryProgress { rows_seen: 0 }
    }

    /// Counts a page of `page_rows` rows and decides, from the page's
    /// continuation token, whether another page is to be fetched.
    pub fn record_page(&mut self, page_rows: usize, next_token: Option<String>) -> (step: PageStep)
        requires
            old(self).rows_seen + page_rows <= usize::MAX,
        ensures
            final(self).rows_seen == old(self).rows_seen + page_rows,
            step == (match next_token {
                Some(t) => PageStep::FetchNext(t),
                None => PageStep::Finished,
            }),
    {
        self.rows_seen = self.rows_seen + page_rows;
        match next_token {
            Some(t) => PageStep::FetchNext(t),
            None => PageStep::Finished,
        }
    }
}

/// Why a result value could not be rendered.
#[derive(Clone, Copy, Debug, PartialEq, Eq, Structural)]
pub enum DecodeError {
    /// A value slot that the column's declared type calls for is absent.
    MissingValue,
    /// The column's declared type populates none of the four variants (or
    /// asks for a time series of time series).
    UnsupportedColumnType,
    /// A row's field count differs from its column count.
    ShapeMismatch,
}

/// The separator between rendered list items: a comma and a space.
pub open spec fn sep() -> Seq<char> {
    seq![',', ' ']
}

/// `s` enclosed in square brackets.
pub open spec fn bracket(s: Seq<char>) -> Seq<char> {
    seq!['['] + s + seq![']']
}

/// Extends the rendering of the first `n` items of a list by item `n`.
pub open spec fn join_next(acc: Seq<char>, n: int, part: Seq<char>) -> Seq<char> {
    if n == 0 {
        part
    } else {
        acc + sep() + part
    }
}

/// A rendering result with its text in brackets.
pub open spec fn wrap(r: Result<Seq<char>, DecodeError>) -> Result<Seq<char>, DecodeError> {
    match r {
        Ok(s) => Ok(bracket(s)),
        Err(e) => Err(e),
    }
}

/// The view of an executable rendering result.
pub open spec fn result_view(r: Result<String, DecodeError>) -> Result<Seq<char>, DecodeError> {
    match r {
        Ok(s) => Ok(s@),
        Err(e) => Err(e),
    }
}

/// A scalar cell renders as its text, unchanged.
pub open spec fn render_scalar(d: Datum) -> Result<Seq<char>, DecodeError> {
    match d.scalar_value {
        Some(s) => Ok(s@),
        None => Err(DecodeError::MissingValue),
    }
}

/// One element of an array whose element type is `c`. Nested arrays and rows
/// are bracketed; an embedded time series is not.
pub open spec fn render_array_element(d: Datum, c: ColumnInfo) -> Result<Seq<char>, DecodeError>
    decreases c, 0int, 0int,
{
    match c.column_type {
        None => Err(DecodeError::UnsupportedColumnType),
        Some(t) => match kind_of(c) {
            ColumnKind::Scalar => render_scalar(d),
            ColumnKind::TimeSeries => match d.time_series_value {
                Some(points) => render_time_series(
                    points@,
                    t.time_series_measure_value_column_info->0,
                ),
                None => Err(DecodeError::MissingValue),
            },
            ColumnKind::Array => match d.array_value {
                Some(elems) => wrap(render_array(elems@, t.array_column_info->0)),
                None => Err(DecodeError::MissingValue),
            },
            ColumnKind::Row => match d.row_value {
                Some(row) => wrap(render_row(row.data@, t.row_column_info->0@)),
                None => Err(DecodeError::MissingValue),
            },
            ColumnKind::Unsupported => Err(DecodeError::UnsupportedColumnType),
        },
    }
}

/// The first `n` elements of an array, joined; the first failure wins.
pub open spec fn render_array_prefix(elems: Seq<Datum>, c: ColumnInfo, n: int) -> Result<
    Seq<char>,
    DecodeError,
>
    decreases c, 1int, n,
{
    if n <= 0 {
        Ok(Seq::empty())
    } else {
        match render_array_prefix(elems, c, n - 1) {
            Err(e) => Err(e),
            Ok(acc) => match render_array_element(elems[n - 1], c) {
                Err(e) => Err(e),
                Ok(s) => Ok(join_next(acc, n - 1, s)),
            },
        }
    }
}

/// An array of elements of type `c`, rendered element by element and joined.
pub open spec fn render_array(elems: Seq<Datum>, c: ColumnInfo) -> Result<Seq<char>, DecodeError>
    decreases c, 2int, 0int,
{
    render_array_prefix(elems, c, elems.len() as int)
}

/// The value of a time-series point, whose type is `c`. Nested arrays and
/// rows are not bracketed; a time series of time series is refused.
pub open spec fn render_point_value(v: Datum, c: ColumnInfo) -> Result<Seq<char>, DecodeError>
    decreases c, 0int, 0int,
{
    match c.column_type {
        None => Err(DecodeError::UnsupportedColumnType),
        Some(t) => match kind_of(c) {
            ColumnKind::Scalar => render_scalar(v),
            ColumnKind::Array => match v.array_value {
                Some(elems) => render_array(elems@, t.array_column_info->0),
                None => Err(DecodeError::MissingValue),
            },
            ColumnKind::Row => match v.row_value {
                Some(row) => render_row(row.data@, t.row_column_info->0@),
                None => Err(DecodeError::MissingValue),
            },
            _ => Err(DecodeError::UnsupportedColumnType),
        },
    }
}

/// One time-series point, as `<timestamp>:<value>`.
pub open spec fn render_point(p: TimeSeriesDataPoint, c: ColumnInfo) -> Result<
    Seq<char>,
    DecodeError,
>
    decreases c, 0int, 1int,
{
    if c.column_type is None {
        Err(DecodeError::UnsupportedColumnType)
    } else {
        match p.value {
            None => Err(DecodeError::MissingValue),
            Some(v) => match render_point_value(v, c) {
                Ok(s) => Ok(p.time@ + seq![':'] + s),
                Err(e) => Err(e),
            },
        }
    }
}

/// The first `n` points of a time series, joined; the first failure wins.
pub open spec fn render_time_series_prefix(
    points: Seq<TimeSeriesDataPoint>,
    c: ColumnInfo,
    n: int,
) -> Result<Seq<char>, DecodeError>
    decreases c, 1int, n,
{
    if n <= 0 {
        Ok(Seq::empty())
    } else {
        match render_time_series_prefix(points, c, n - 1) {
            Err(e) => Err(e),
            Ok(acc) => match render_point(points[n - 1], c) {
                Err(e) => Err(e),
                Ok(s) => Ok(join_next(acc, n - 1, s)),
            },
        }
    }
}

/// A time series whose point values have type `c`, point by point, joined.
pub open spec fn render_time_series(points: Seq<TimeSeriesDataPoint>, c: ColumnInfo) -> Result<
    Seq<char>,
    DecodeError,
>
    decreases c, 2int, 0int,
{
    render_time_series_prefix(points, c, points.len() as int)
}

/// One field of a row, whose type is `c`. Time series, arrays and rows are
/// bracketed.
pub open spec fn render_row_field(d: Datum, c: ColumnInfo) -> Result<Seq<char>, DecodeError>
    decreases c, 0int, 0int,
{
    match c.column_type {
        None => Err(DecodeError::UnsupportedColumnType),
        Some(t) => match kind_of(c) {
            ColumnKind::Scalar => render_scalar(d),
            ColumnKind::TimeSeries => match d.time_series_value {
                Some(points) => wrap(
                    render_time_series(points@, t.time_series_measure_value_column_info->0),
                ),
                None => Err(DecodeError::MissingValue),
            },
            ColumnKind::Array => match d.array_value {
                Some(elems) => wrap(render_array(elems@, t.array_column_info->0)),
                None => Err(DecodeError::MissingValue),
            },
            ColumnKind::Row => match d.row_value {
                Some(row) => wrap(render_row(row.data@, t.row_column_info->0@)),
                None => Err(DecodeError::MissingValue),
            },
            ColumnKind::Unsupported => Err(DecodeError::UnsupportedColumnType),
        },
    }
}

/// The first `n` fields of a row, joined; the first failure wins.
pub open spec fn render_row_prefix(fields: Seq<Datum>, cols: Seq<ColumnInfo>, n: int) -> Result<
    Seq<char>,
    DecodeError,
>
    decreases cols, 1int, n,
{
    if n <= 0 {
        Ok(Seq::empty())
    } else if n > cols.len() {
        Err(DecodeError::ShapeMismatch)
    } else {
        match render_row_prefix(fields, cols, n - 1) {
            Err(e) => Err(e),
            Ok(acc) => match render_row_field(fields[n - 1], cols[n - 1]) {
                Err(e) => Err(e),
                Ok(s) => Ok(join_next(acc, n - 1, s)),
            },
        }
    }
}

/// A row: field `i` rendered by column `i`, joined. The field and column
/// counts must agree.
pub open spec fn render_row(fields: Seq<Datum>, cols: Seq<ColumnInfo>) -> Result<
    Seq<char>,
    DecodeError,
>
    decreases cols, 2int, 0int,
{
    if fields.len() != cols.len() {
        Err(DecodeError::ShapeMismatch)
    } else {
        render_row_prefix(fields, cols, fields.len() as int)
    }
}

proof fn lemma_array_prefix_err(elems: Seq<Datum>, c: ColumnInfo, k: int, m: int)
    requires
        0 <= k <= m,
        render_array_prefix(elems, c, k) is Err,
    ensures
        render_array_prefix(elems, c, m) == render_array_prefix(elems, c, k),
    decreases m - k,
{
    if k < m {
        lemma_array_prefix_err(elems, c, k, m - 1);
    }
}

proof fn lemma_time_series_prefix_err(
    points: Seq<TimeSeriesDataPoint>,
    c: ColumnInfo,
    k: int,
    m: int,
)
    requires
        0 <= k <= m,
        render_time_series_prefix(points, c, k) is Err,
    ensures
        render_time_series_prefix(points, c, m) == render_time_series_prefix(points, c, k),
    decreases m - k,
{
    if k < m {
        lemma_time_series_prefix_err(points, c, k, m - 1);
    }
}

proof fn lemma_row_prefix_err(fields: Seq<Datum>, cols: Seq<ColumnInfo>, k: int, m: int)
    requires
        0 <= k <= m <= cols.len(),
        render_row_prefix(fields, cols, k) is Err,
    ensures
        render_row_prefix(fields, cols, m) == render_row_prefix(fields, cols, k),
    decreases m - k,
{
    if k < m {
        lemma_row_prefix_err(fields, cols, k, m - 1);
    }
}

/// Appends the list separator.
fn push_separator(out: &mut String)
    ensures
        final(out)@ == old(out)@ + sep(),
{
    proof {
        reveal_strlit(", ");
    }
    out.append(", ");
    assert(", "@ =~= sep());
}

/// `s` enclosed in square brackets.
fn bracketed(s: &String) -> (r: String)
    ensures
        r@ == bracket(s@),
{
    proof {
        reveal_strlit("[");
        reveal_strlit("]");
    }
    let mut r = String::from_str("[");
    r.append(s.as_str());
    r.append("]");
    assert("["@ =~= seq!['[']);
    assert("]"@ =~= seq![']']);
    r
}

/// Brackets the text of a successful result.
fn wrapped(r: Result<String, DecodeError>) -> (w: Result<String, DecodeError>)
    ensures
        result_view(w) == wrap(result_view(r)),
{
    match r {
        Ok(s) => Ok(bracketed(&s)),
        Err(e) => Err(e),
    }
}

/// Renders a scalar cell: its text, unchanged.
pub fn process_scalar_type(data: &Datum) -> (r: Result<String, DecodeError>)
    ensures
        result_view(r) == render_scalar(*data),
{
    match &data.scalar_value {
        Some(s) => Ok(s.clone()),
        None => Err(DecodeError::MissingValue),
    }
}

/// Renders one element of an array whose element type is `c`.
fn process_array_element(d: &Datum, c: &ColumnInfo) -> (r: Result<String, DecodeError>)
    ensures
        result_view(r) == render_array_element(*d, *c),
    decreases c, 0int,
{
    let kind = column_kind(c);
    match &c.column_type {
        None => Err(DecodeError::UnsupportedColumnType),
        Some(t) => match kind {
            ColumnKind::Scalar => process_scalar_type(d),
            ColumnKind::TimeSeries => match (&d.time_series_value, &t.time_series_measure_value_column_info) {
                (Some(points), Some(info)) => process_time_series_type(points.as_slice(), info),
                _ => Err(DecodeError::MissingValue),
            },
            ColumnKind::Array => match (&d.array_value, &t.array_column_info) {
                (Some(elems), Some(info)) => wrapped(process_array_type(elems.as_slice(), info)),
                _ => Err(DecodeError::MissingValue),
            },
            ColumnKind::Row => match (&d.row_value, &t.row_column_info) {
                (Some(row), Some(infos)) => wrapped(
                    process_row_type(row.data.as_slice(), infos.as_slice()),
                ),
                _ => Err(DecodeError::MissingValue),
            },
            ColumnKind::Unsupported => Err(DecodeError::UnsupportedColumnType),
        },
    }
}

/// Renders an array whose elements have type `column_info`: each element in
/// turn, joined with `", "`. Nested arrays and rows are bracketed.
pub fn process_array_type(datum_list: &[Datum], column_info: &ColumnInfo) -> (r: Result<
    String,
    DecodeError,
>)
    ensures
        result_view(r) == render_array(datum_list@, *column_info),
    decreases column_info, 1int,
{
    let mut out = String::new();
    let mut i: usize = 0;
    while i < datum_list.len()
        invariant
            i <= datum_list@.len(),
            render_array_prefix(datum_list@, *column_info, i as int) == Ok::<
                Seq<char>,
                DecodeError,
            >(out@),
        decreases datum_list@.len() - i,
    {
        let part = process_array_element(&datum_list[i], column_info);
        match part {
            Ok(s) => {
                if i > 0 {
                    push_separator(&mut out);
                }
                out.append(s.as_str());
            },
            Err(e) => {
                proof {
                    lemma_array_prefix_err(
                        datum_list@,
                        *column_info,
                        i + 1,
                        datum_list@.len() as int,
                    );
                }
                return Err(e);
            },
        }
        i = i + 1;
    }
    Ok(out)
}

/// Renders the value of one time-series point, whose type is `c`.
fn process_point_value(v: &Datum, c: &ColumnInfo) -> (r: Result<String, DecodeError>)
    ensures
        result_view(r) == render_point_value(*v, *c),
    decreases c, 0int,
{
    let kind = column_kind(c);
    match &c.column_type {
        None => Err(DecodeError::UnsupportedColumnType),
        Some(t) => match kind {
            ColumnKind::Scalar => process_scalar_type(v),
            ColumnKind::Array => match (&v.array_value, &t.array_column_info) {
                (Some(elems), Some(info)) => process_array_type(elems.as_slice(), info),
                _ => Err(DecodeError::MissingValue),
            },
            ColumnKind::Row => match (&v.row_value, &t.row_column_info) {
                (Some(row), Some(infos)) => process_row_type(row.data.as_slice(), infos.as_slice()),
                _ => Err(DecodeError::MissingValue),
            },
            _ => Err(DecodeError::UnsupportedColumnType),
        },
    }
}

/// Renders one time-series point as `<timestamp>:<value>`.
fn process_point(p: &TimeSeriesDataPoint, c: &ColumnInfo) -> (r: Result<String, DecodeError>)
    ensures
        result_view(r) == render_point(*p, *c),
    decreases c, 1int,
{
    if c.column_type.is_none() {
        return Err(DecodeError::UnsupportedColumnType);
    }
    match &p.value {
        None => Err(DecodeError::MissingValue),
        Some(v) => match process_point_value(v, c) {
            Ok(s) => {
                proof {
                    reveal_strlit(":");
                }
                let mut out = p.time.clone();
                out.append(":");
                out.append(s.as_str());
                assert(":"@ =~= seq![':']);
                Ok(out)
            },
            Err(e) => Err(e),
        },
    }
}

/// Renders a time series whose point values have type `column_info`: each
/// point as `<timestamp>:<value>`, joined with `", "`.
pub fn process_time_series_type(data: &[TimeSeriesDataPoint], column_info: &ColumnInfo) -> (r:
    Result<String, DecodeError>)
    ensures
        result_view(r) == render_time_series(data@, *column_info),
    decreases column_info, 2int,
{
    let mut out = String::new();
    let mut i: usize = 0;
    while i < data.len()
        invariant
            i <= data@.len(),
            render_time_series_prefix(data@, *column_info, i as int) == Ok::<
                Seq<char>,
                DecodeError,
            >(out@),
        decreases data@.len() - i,
    {
        let part = process_point(&data[i], column_info);
        match part {
            Ok(s) => {
                if i > 0 {
                    push_separator(&mut out);
                }
                out.append(s.as_str());
            },
            Err(e) => {
                proof {
                    lemma_time_series_prefix_err(
                        data@,
                        *column_info,
                        i + 1,
                        data@.len() as int,
                    );
                }
                return Err(e);
            },
        }
        i = i + 1;
    }
    Ok(out)
}

/// Renders one row field, whose type is `c`.
fn process_row_field(d: &Datum, c: &ColumnInfo) -> (r: Result<String, DecodeError>)
    ensures
        result_view(r) == render_row_field(*d, *c),
    decreases c, 0int,
{
    let kind = column_kind(c);
    match &c.column_type {
        None => Err(DecodeError::UnsupportedColumnType),
        Some(t) => match kind {
            ColumnKind::Scalar => process_scalar_type(d),
            ColumnKind::TimeSeries => match (&d.time_series_value, &t.time_series_measure_value_column_info) {
                (Some(points), Some(info)) => wrapped(process_time_series_type(points.as_slice(), info)),
                _ => Err(DecodeError::MissingValue),
            },
            ColumnKind::Array => match (&d.array_value, &t.array_column_info) {
                (Some(elems), Some(info)) => wrapped(process_array_type(elems.as_slice(), info)),
                _ => Err(DecodeError::MissingValue),
            },
            ColumnKind::Row => match (&d.row_value, &t.row_column_info) {
                (Some(row), Some(infos)) => wrapped(
                    process_row_type(row.data.as_slice(), infos.as_slice()),
                ),
                _ => Err(DecodeError::MissingValue),
            },
            ColumnKind::Unsupported => Err(DecodeError::UnsupportedColumnType),
        },
    }
}

/// Renders a row: field `i` by column `i`, joined with `", "`. Time series,
/// arrays and rows among the fields are bracketed. Fails with `ShapeMismatch`
/// when the field and column counts differ.
pub fn process_row_type(data: &[Datum], metadata: &[ColumnInfo]) -> (r: Result<
    String,
    DecodeError,
>)
    ensures
        result_view(r) == render_row(data@, metadata@),
    decreases metadata@, 1int,
{
    if data.len() != metadata.len() {
        return Err(DecodeError::ShapeMismatch);
    }
    let mut out = String::new();
    let mut i: usize = 0;
    while i < data.len()
        invariant
            i <= data@.len(),
            data@.len() == metadata@.len(),
            render_row_prefix(data@, metadata@, i as int) == Ok::<Seq<char>, DecodeError>(out@),
        decreases data@.len() - i,
    {
        let part = process_row_field(&data[i], &metadata[i]);
        match part {
            Ok(s) => {
                if i > 0 {
                    push_separator(&mut out);
                }
                out.append(s.as_str());
            },
            Err(e) => {
                proof {
                    lemma_row_prefix_err(data@, metadata@, i + 1, data@.len() as int);
                }
                return Err(e);
            },
        }
        i = i + 1;
    }
    Ok(out)
}

} // verus!
