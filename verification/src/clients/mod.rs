//! Per-source mapping of remote response records to the common paper shape.
//!
//! Each submodule holds the record types one source's response decodes to
//! and the verified mapping from those records to [`crate::paper::Paper`].

pub mod arxiv;
pub mod doi;
pub mod iacr;
