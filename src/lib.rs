//! Telemetry records for an Application Insights client, and their conversion into the
//! envelopes that the backend ingests.
use vstd::prelude::*;

pub mod container;
pub mod context;
pub mod contracts;
pub mod page_view;
pub mod time;
pub mod uri;
pub mod uuid;

verus! {

} // verus!
