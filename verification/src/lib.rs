//! Visibility-tagged vector index adapter.
//!
//! A thin, verified layer between a document domain and an external
//! vector-search engine.  The adapter owns the mapping between domain point
//! identities and engine-side points `{id, vector, metadata}`, and exposes
//! three operations: insert a point with visibility metadata, update a
//! point's visibility and author attribution, and post-process the results
//! of a filtered nearest-neighbor search.  All storage and search execution
//! belongs to the engine; this crate holds the decision logic — payload
//! construction, the visibility update rules, and result filtering — with
//! contracts that pin each decision down.

pub mod adapter;
pub mod data;
pub mod ids;
pub mod search;

use vstd::prelude::*;

verus! {

/// Requested or stored visibility of a point.
#[derive(Clone, Copy, Debug, PartialEq, Eq, Structural)]
pub enum Visibility {
    Public,
    Private,
}

/// The four error kinds of the adapter.  Every failure of the underlying
/// engine collapses into one of these; nothing is retried at this layer.
#[derive(Clone, Copy, Debug, PartialEq, Eq, Structural)]
pub enum AdapterError {
    /// A caller-supplied input violates a precondition, detected before any
    /// engine call is made.
    ValidationError,
    /// A fetch from the index failed or returned nothing.
    IndexReadError,
    /// An upsert or metadata write failed.
    IndexWriteError,
    /// A similarity-search query failed.
    SearchError,
}

} // verus!
