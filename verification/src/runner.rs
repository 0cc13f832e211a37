//! Configuration for the process runner that drives a command to
//! completion around the library.

use vstd::prelude::*;

verus! {

use core::time::Duration;

/// How long a runner waits for spawned tasks to finish after the command
/// completes, before forcefully terminating them.
#[derive(Clone, Debug)]
pub struct CliRunnerConfig {
    /// Timeout for graceful shutdown of tasks.
    pub graceful_shutdown_timeout: Duration,
}

/// Relies on `Duration`'s `Clone`: the clone of a copyable duration is
/// the same value.
pub assume_specification[ <Duration as Clone>::clone ](v: &Duration) -> (r: Duration)
    ensures
        r == *v,
;

/// Relies on `core::time::Duration::from_secs`: a duration of the given
/// whole seconds. The type is opaque here, so nothing further is stated.
#[verifier::external_body]
fn duration_from_secs(secs: u64) -> Duration {
    Duration::from_secs(secs)
}

impl CliRunnerConfig {
    /// Creates a config with the default five-second shutdown timeout.
    pub fn new() -> Self {
        CliRunnerConfig { graceful_shutdown_timeout: duration_from_secs(5) }
    }

    /// Sets the graceful shutdown timeout.
    pub fn with_graceful_shutdown_timeout(self, timeout: Duration) -> (r: Self)
        ensures
            r.graceful_shutdown_timeout == timeout,
    {
        CliRunnerConfig { graceful_shutdown_timeout: timeout }
    }
}

} // verus!
