//! Decisions of the pre-made transactions: fetching the artifact list,
//! downloading an artifact, and checking and laying out its archive.

pub mod archive;
pub mod fetch;
