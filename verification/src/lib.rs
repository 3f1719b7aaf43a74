//! A verified scan-planning and response-materialization engine for a
//! cursor-paginated REST API, exposed as a relational scan interface.
//!
//! The library plans which equality predicates may be pushed down to the
//! upstream API, builds the request URLs page by page, decodes JSON response
//! bodies into typed rows, and drives cursor pagination until the row budget
//! is met or the collection is exhausted. The HTTP transport itself lives
//! outside the library; callers fetch each URL the scan asks for and feed the
//! response body back.
//!
//! - [`row`] holds the typed cell and row model, quals and limits;
//! - [`schema`] is the static registry of object types, their column
//!   schemas and pushdown whitelists;
//! - [`quals`] plans which equality predicates go upstream;
//! - [`url`] composes the page request URLs;
//! - [`json`] models what the decoder reads of a parsed response body, over
//!   a thin trusted boundary around the JSON parser;
//! - [`decode`] turns one response body into typed rows, a cursor and a
//!   continuation flag;
//! - [`scan`] and [`fdw`] drive pagination and expose the
//!   begin / next / end lifecycle;
//! - [`laws`] states and proves the library-wide properties.

use vstd::prelude::*;

pub mod decode;
pub mod error;
pub mod fdw;
pub mod json;
pub mod laws;
pub mod quals;
pub mod row;
pub mod schema;
pub mod scan;
pub mod text;
pub mod url;

verus! {

/// The fixed page size requested from the upstream API on every
/// paginated call.
pub const PAGE_SIZE: u64 = 100;

} // verus!
