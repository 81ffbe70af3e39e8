//! Errors that the analysis reports.

use vstd::prelude::*;

verus! {

/// An error of a HAL 9000 operation.
pub enum AgentError {
    /// Elasticsearch operation failed
    Elasticsearch(String),
    /// Invalid time format or range
    TimeFormat(String),
    /// Configuration validation error
    Config(String),
    /// Generic error for other cases
    Other(String),
}

/// Where the analysis, run as plain Rust, stops with a panic: the inputs on
/// which the library reports one of these have no result to compute.
pub enum Fault {
    /// An instant falls outside the range that `chrono` represents.
    TimeOutOfRange,
}

/// How a tool's computation ends short of a result: with an error it reports,
/// or where the plain reading would panic.
pub enum ToolError {
    Failed(AgentError),
    Aborted(Fault),
}

} // verus!
