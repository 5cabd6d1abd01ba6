//! The fixed settings of a run.

use vstd::prelude::*;

verus! {

/// The concurrency limit of a run that names none.
pub const DEFAULT_CONCURRENCY: usize = 20;

/// The output root of a run that names none.
pub const DEFAULT_OUTPUT_ROOT: &'static str = "fes_out";

/// Seconds that a probe may take from its start to the end of the body.
pub const PROBE_TIMEOUT_SECONDS: u64 = 3;

/// The `User-Agent` header that every probe sends.
pub const USER_AGENT: &'static str =
    "Mozilla/5.0 (compatible, fes/0.1; +https://github.com/JohnWoodman/fes)";

} // verus!
