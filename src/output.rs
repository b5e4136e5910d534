//! The output formats a result can be rendered in.
use vstd::prelude::*;

verus! {

/// How a crash or a search result is rendered.
#[derive(Debug, Clone, Copy, PartialEq, Eq, Structural)]
pub enum OutputFormat {
    Compact,
    Json,
    Markdown,
}

} // verus!
