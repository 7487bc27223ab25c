//! Client for a public vulnerability database: batches of package queries,
//! the positional join of their answers, and the conversion of that join into
//! the collector's map from package URL to vulnerability identifiers.
pub mod client;
pub mod collector;
pub mod schema;

pub use client::{
    BatchVulnerabilities, CollatedBatchVulnerabilities, CollatedQueryBatchResponse, OsvClient,
    QueryBatchRequest, QueryBatchResponse, QueryPackageRequest,
};
pub use collector::CollectPackagesResponse;
pub use schema::{BatchVulnerability, Package};
