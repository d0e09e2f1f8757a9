//! Temporary access windows: applications move through a fixed lifecycle
//! (draft, submitted, approved, active, then expired or revoked; or rejected),
//! an approval opens an access window over the requested time range, and the
//! window may only be activated while the current time lies inside it.
//!
//! Every decision of the service is made here, over plain values; storage and
//! HTTP live around the library.

pub mod auth;
pub mod clock;
pub mod error;
pub mod lifecycle;
pub mod models;
pub mod queries;
pub mod status;
pub mod text;
