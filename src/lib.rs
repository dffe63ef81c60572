//! Typed client library for a search-results API: query construction,
//! retry decisions with exponential backoff, response classification and
//! a forward-only paginator, each stated and proved with Verus.
//!
//! The HTTP transport, timers and JSON decoding live outside this crate; they
//! hand plain values to the functions here and act on what comes back.

pub mod client;
mod natural;
pub mod error;
pub mod query;
pub mod response;
pub mod retry;
pub mod streaming;

pub use client::StatusClass;
pub use error::{RequestFailure, SerpError, SerpResult};
pub use query::{SearchQuery, SearchQueryBuilder};
pub use response::{RelatedSearch, RelatedSearchItem};
pub use retry::{Pause, RetryPolicy, RetryStep};
pub use streaming::{PageRequest, Paginator, StopReason, StreamConfig, StreamState};
