//! The tunables of a run: pool size, per-attempt timeout and retry budget.
use core::time::Duration;
use vstd::prelude::*;

verus! {

/// Suggested per-attempt timeout, in seconds.
pub const DEFAULT_TIMEOUT: u64 = 5;

/// Suggested number of attempts per URL.
pub const MAX_RETRIES: u8 = 3;

/// Suggested number of workers.
pub const DEFAULT_WORKERS: usize = 10;

/// Why a configuration cannot be used to run checks.
#[derive(Clone, Copy, Debug, PartialEq, Eq, Structural)]
pub enum ConfigError {
    /// The pool would have no worker.
    NoWorkers,
    /// No URL would ever be attempted.
    NoAttempts,
}

/// The configuration shared, read-only, by every part of the engine.
///
/// The timeout is carried through untouched and handed out with every probe
/// request; the engine never looks inside it.
#[derive(Clone, Copy, Debug)]
pub struct Config {
    pub worker_threads: usize,
    pub timeout: Duration,
    pub max_retries: u8,
}

impl Config {
    /// A configuration is usable when it has at least one worker and allows
    /// at least one attempt per URL.
    pub open spec fn is_valid(&self) -> bool {
        self.worker_threads >= 1 && self.max_retries >= 1
    }

    /// What `validate` says of the configuration.  An empty pool is reported
    /// before an empty retry budget.
    pub open spec fn verdict(&self) -> Result<(), ConfigError> {
        if self.worker_threads == 0 {
            Err(ConfigError::NoWorkers)
        } else if self.max_retries == 0 {
            Err(ConfigError::NoAttempts)
        } else {
            Ok(())
        }
    }

    /// Stores the three settings as given; `validate` judges them.
    pub fn new(worker_threads: usize, timeout: Duration, max_retries: u8) -> (config: Config)
        ensures
            config.worker_threads == worker_threads,
            config.timeout == timeout,
            config.max_retries == max_retries,
    {
        Config { worker_threads, timeout, max_retries }
    }

    /// Accepts exactly the usable configurations.
    pub fn validate(&self) -> (verdict: Result<(), ConfigError>)
        ensures
            verdict == self.verdict(),
            verdict is Ok <==> self.is_valid(),
    {
        if self.worker_threads == 0 {
            Err(ConfigError::NoWorkers)
        } else if self.max_retries == 0 {
            Err(ConfigError::NoAttempts)
        } else {
            Ok(())
        }
    }
}

} // verus!
