use vstd::prelude::*;

verus! {

/// How a run of the external formatting process failed. The process is
/// spawned by the surrounding tooling, which maps what went wrong onto
/// these cases and hands the result back to the harness.
#[derive(Clone, Copy, PartialEq, Eq, Structural, Debug)]
pub enum NormalizeError {
    /// The formatting process could not be spawned.
    SpawnFailed,
    /// Writing the unformatted text to the process, or reading its
    /// output back, failed.
    StreamFailed,
    /// The process's output was not valid text.
    InvalidEncoding,
    /// The process ran but exited with the given non-zero status.
    ExitedNonZero(i32),
}

/// In-memory stand-in for the external formatter: returns its input
/// unchanged, so harness runs can be exercised deterministically
/// without a subordinate process. Trivially idempotent.
pub fn normalize_identity(text: String) -> (r: String)
    ensures
        r@ == text@,
{
    text
}

} // verus!
