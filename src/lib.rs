use vstd::prelude::*;

pub mod laws;
pub mod model;
pub mod query_common;
pub mod timestream_helper;

verus! {

// The result decoder lives in `query_common`, over the column and value
// model of `model`; `laws` states what the rendering guarantees across calls.
// `timestream_helper` holds the settings and decisions of the provisioning
// and cleanup runs.

} // verus!
