//! How results are printed.
use vstd::prelude::*;

verus! {

/// Output format of a command's result.
#[derive(Debug, Clone, Copy, PartialEq, Eq)]
pub enum OutputFormat {
    /// Human-readable table (default).
    Table,
    /// Machine-readable JSON.
    Json,
}

} // verus!
