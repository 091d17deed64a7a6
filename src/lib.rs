//! A mergeable t-digest for approximate quantiles, ranks and trimmed means.
//!
//! The numeric core (centroid means, weights and the estimates drawn from
//! them) is the `tdigests` crate. This library holds what is decided around
//! it: the digest handle and its size bounds, the structured state that a
//! digest is exported to and imported from, the errors, and the textual
//! summary.
pub mod digest;
pub mod error;
pub mod state;
pub mod summary;
