//! The bridge to the quantitative analysis runtime.

use vstd::prelude::*;

verus! {

/// A handle on the analysis runtime. No runtime is attached: the handle
/// exists so that callers can be written against it.
#[derive(Debug, Clone, Copy, PartialEq, Eq, Structural)]
pub struct JuliaRuntime;

/// Why the runtime could not be started.
#[derive(Debug, Clone, Copy, PartialEq, Eq, Structural)]
pub enum JuliaError {
    /// The runtime is not available.
    Unavailable,
}

impl JuliaRuntime {
    /// Starts the runtime for the project at `project_path` with
    /// `num_threads` threads. With no runtime attached this always succeeds.
    pub fn new(project_path: &str, num_threads: usize) -> (runtime: Result<JuliaRuntime, JuliaError>)
        ensures
            runtime == Ok::<JuliaRuntime, JuliaError>(JuliaRuntime),
    {
        Ok(JuliaRuntime)
    }
}

} // verus!
