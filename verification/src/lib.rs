//! A website health-checking engine, verified with Verus.
//!
//! The engine takes an ordered list of URLs, hands them to a fixed pool of
//! workers through a first-in-first-out task channel, probes every URL with a
//! bounded number of attempts and gathers one status record per URL in the
//! order in which the checks finish.
//!
//! Everything here is pure decision logic: the network, the clock and the
//! threads live with the caller.  A caller performs the actions that the
//! engine asks for (probe this URL, wait, stop) and reports back what
//! happened; the engine decides what comes next.  All contracts are stated
//! over the mathematical views of the types.
//!
//! * [`config`]: the tunables of a run.
//! * [`status`]: requests and status records.
//! * [`retry`]: the retry policy of one check, and its laws.
//! * [`channel`]: the task channel.
//! * [`model`]: the engine as mathematics.
//! * [`laws`]: what holds of every run of the engine.
//! * [`engine`]: the executable engine and the worker step.
//! * [`total`]: weighted sums over sequences, which the bookkeeping uses.
//!
//! Beside the engine stand a few small verified exercises: [`numbers`],
//! [`guess`], [`student`] and [`cache`].
pub mod cache;
pub mod channel;
pub mod config;
pub mod engine;
pub mod guess;
pub mod laws;
pub mod model;
pub mod numbers;
pub mod retry;
pub mod status;
pub mod student;
pub mod total;

pub use cache::ComputeCache;
pub use channel::{Received, TaskChannel};
pub use config::{Config, ConfigError, DEFAULT_TIMEOUT, DEFAULT_WORKERS, MAX_RETRIES};
pub use engine::{monitor_worker, Engine, WorkerAction, WorkerEvent, WorkerState};
pub use guess::{check_guess, play};
pub use model::Phase;
pub use numbers::{fizz_buzz, is_even, largest, sum, FizzBuzz};
pub use retry::{ProbeReport, RetryState, RetryStep};
pub use status::{MonitorMessage, Url, WebsiteStatus};
pub use student::{GradeLevel, Major, Student};
