//! How many workers to run.

use vstd::prelude::*;

verus! {

/// The number of workers for a machine that reports `parallelism` as the
/// number of threads it can run at once: that number, or 4 if it reports
/// none.
pub fn get(parallelism: Option<usize>) -> (workers: usize)
    ensures
        workers == match parallelism {
            Some(n) => n,
            None => 4,
        },
{
    match parallelism {
        Some(n) => n,
        None => 4,
    }
}

} // verus!
