//! Crash-report client library: the record model of a processed crash, its
//! summarization with fallback resolution, and crash-ID normalization.
use vstd::prelude::*;

pub mod crash_id;
pub mod json;
pub mod models;
pub mod output;
pub mod summary;

pub use crash_id::extract_crash_id;
pub use json::JsonValue;
pub use output::OutputFormat;
pub use summary::{CrashSummary, ThreadSummary};
pub use models::{
    CrashHit, CrashInfo, FacetBucket, ProcessedCrash, SearchParams, SearchResponse, StackFrame,
    Thread,
};
