//! Batched status lookup for tracked change-requests.
//!
//! Given an ordered list of locally tracked changes, each optionally tied to a
//! remote pull-request number, this library plans one remote lookup per
//! published change, collects the responses in input order with fail-fast
//! error handling, classifies each review decision into a display category,
//! and renders one summary line per classifiable response.
//!
//! Network transport and terminal output are left to the caller; the library
//! holds the pure, verified core of the pipeline.

pub mod fetch;
pub mod present;
pub mod record;
pub mod request;
pub mod response;
