use vstd::prelude::*;

verus! {

pub const DEFAULT_DATABASE_NAME: &'static str = "devops_multi_sample_application";

pub const DEFAULT_REGION: &'static str = "us-east-1";

pub const DEFAULT_TABLE_NAME: &'static str = "host_metrics_sample_application";

/// How long records stay in the magnetic store of a new table, in days.
pub const MAGNETIC_STORE_RETENTION_DAYS: i64 = 8000;

/// How long records stay in the memory store of a new table, in hours.
pub const MEMORY_STORE_RETENTION_HOURS: i64 = 12;

/// Settings of a write run: the database and table written, and the region
/// of the service.
pub struct Args {
    pub database_name: String,
    pub region: String,
    pub table_name: String,
}

impl Default for Args {
    fn default() -> (r: Args)
        ensures
            r.database_name@ == DEFAULT_DATABASE_NAME@,
            r.region@ == DEFAULT_REGION@,
            r.table_name@ == DEFAULT_TABLE_NAME@,
    {
        Args {
            database_name: String::from_str(DEFAULT_DATABASE_NAME),
            region: String::from_str(DEFAULT_REGION),
            table_name: String::from_str(DEFAULT_TABLE_NAME),
        }
    }
}

/// What to do after one page of a bucket's object-version listing has been
/// deleted.
pub enum ListingStep {
    /// List the next page, starting after these markers.
    Continue { key_marker: String, version_id_marker: String },
    /// The listing is complete.
    Done,
}

/// A listing page that lacks a field needed to go on.
#[derive(Clone, Copy, Debug, PartialEq, Eq, Structural)]
pub enum ListingError {
    MissingTruncationFlag,
    MissingKeyMarker,
    MissingVersionIdMarker,
}

/// Decides from a listing page's truncation flag and markers whether, and
/// where, the listing goes on.
pub fn next_listing_step(
    is_truncated: Option<bool>,
    next_key_marker: Option<String>,
    next_version_id_marker: Option<String>,
) -> (r: Result<ListingStep, ListingError>)
    ensures
        r == (match is_truncated {
            None => Err(ListingError::MissingTruncationFlag),
            Some(false) => Ok(ListingStep::Done),
            Some(true) => match (next_key_marker, next_version_id_marker) {
                (None, _) => Err(ListingError::MissingKeyMarker),
                (Some(_), None) => Err(ListingError::MissingVersionIdMarker),
                (Some(k), Some(v)) => Ok(ListingStep::Continue { key_marker: k, version_id_marker: v }),
            },
        }),
{
    match is_truncated {
        None => Err(ListingError::MissingTruncationFlag),
        Some(false) => Ok(ListingStep::Done),
        Some(true) => match next_key_marker {
            None => Err(ListingError::MissingKeyMarker),
            Some(k) => match next_version_id_marker {
                None => Err(ListingError::MissingVersionIdMarker),
                Some(v) => Ok(ListingStep::Continue { key_marker: k, version_id_marker: v }),
            },
        },
    }
}

} // verus!
