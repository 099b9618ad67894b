//! The engine as mathematics: its state, the steps it can take, what stays
//! true across every step, and what follows from that.
//!
//! The executable engine is held to this model step by step; the laws at the
//! end of this file are proved of the model and so hold of every run.
use crate::channel::{ReceivedView, TaskChannelView};
use crate::retry::{probe_step, ProbeReportView, RetryStateView, RetryStepView};
use crate::status::{MonitorMessageView, WebsiteStatusView};
use crate::total::total;
use core::time::Duration;
use vstd::prelude::*;

verus! {

/// What one worker is doing.
pub enum WorkerStateView {
    /// Ready to receive a request.
    Waiting,
    /// Probing a URL.
    Checking(RetryStateView),
    /// Stopped: it received a shutdown request or found the channel closed
    /// and empty.
    Stopped,
    /// Stopped, and the dispatcher has waited for it.
    Joined,
}

/// What a worker tells the engine.
pub enum WorkerEventView {
    /// It is ready for its next instruction.
    Ready,
    /// The probe it was asked for has returned.
    Probed(ProbeReportView),
}

/// What the engine tells a worker to do next.
pub enum WorkerActionView {
    /// Probe this URL once, giving up after the timeout, and report back.
    /// `attempt` is the number of probes of this check that have failed
    /// before: zero says that a new check begins.
    Probe { url: Seq<char>, timeout: Duration, attempt: nat },
    /// Nothing waits but more may come: ask again later.
    Wait,
    /// Terminate.
    Stop,
}

/// Where a run stands.
#[derive(Clone, Copy, Debug, PartialEq, Eq, Structural)]
pub enum Phase {
    /// Nothing has been sent yet.
    Idle,
    /// Requests are being sent.
    Dispatching,
    /// The channel is closed; workers finish what is left.
    Draining,
    /// Every worker has stopped; the dispatcher waits for them.
    Joining,
    /// Every worker has been waited for.
    Done,
}

/// The state of the engine.
pub struct EngineView {
    /// Handed out with every probe request.
    pub timeout: Duration,
    /// The attempt budget of every check.
    pub max_retries: nat,
    /// The task channel.
    pub tasks: TaskChannelView,
    /// The pool, one entry per worker.
    pub workers: Seq<WorkerStateView>,
    /// The status records, in the order in which the checks ended.
    pub results: Seq<WebsiteStatusView>,
    /// Every URL that the channel has accepted, in the order of sending.
    pub accepted: Seq<Seq<char>>,
    /// The number of shutdown requests that the channel has accepted.
    pub shutdowns: nat,
}

/// One for a request to check a URL, nothing for a shutdown request.
pub open spec fn check_weight() -> spec_fn(MonitorMessageView) -> nat {
    |message: MonitorMessageView|
        if message is CheckUrl {
            1nat
        } else {
            0nat
        }
}

/// One for a worker that is probing, nothing for any other.
pub open spec fn probing_weight() -> spec_fn(WorkerStateView) -> nat {
    |worker: WorkerStateView|
        if worker is Checking {
            1nat
        } else {
            0nat
        }
}

/// The steps that a worker may still have to take: the attempts left of its
/// check, and one more to find out that it is to stop.
pub open spec fn work_weight() -> spec_fn(WorkerStateView) -> nat {
    |worker: WorkerStateView|
        match worker {
            WorkerStateView::Waiting => 1nat,
            WorkerStateView::Checking(check) => check.attempts_left() + 1,
            WorkerStateView::Stopped => 0nat,
            WorkerStateView::Joined => 0nat,
        }
}

/// One for a request to check `url`, nothing for any other request.
pub open spec fn asks_for(url: Seq<char>) -> spec_fn(MonitorMessageView) -> nat {
    |message: MonitorMessageView|
        if message == MonitorMessageView::CheckUrl(url) {
            1nat
        } else {
            0nat
        }
}

/// One for a worker that is probing `url`, nothing for any other.
pub open spec fn probes(url: Seq<char>) -> spec_fn(WorkerStateView) -> nat {
    |worker: WorkerStateView|
        match worker {
            WorkerStateView::Checking(check) => if check.url == url {
                1nat
            } else {
                0nat
            },
            _ => 0nat,
        }
}

/// One for a record on `url`, nothing for any other.
pub open spec fn reports(url: Seq<char>) -> spec_fn(WebsiteStatusView) -> nat {
    |status: WebsiteStatusView|
        if status.url == url {
            1nat
        } else {
            0nat
        }
}

/// One for `url` itself, nothing for any other URL.
pub open spec fn names(url: Seq<char>) -> spec_fn(Seq<char>) -> nat {
    |other: Seq<char>|
        if other == url {
            1nat
        } else {
            0nat
        }
}

/// Whether a worker has stopped, joined or not.
pub open spec fn has_stopped(worker: WorkerStateView) -> bool {
    worker is Stopped || worker is Joined
}

/// A check that has just been claimed.
pub open spec fn fresh_check(url: Seq<char>, max_retries: nat) -> RetryStateView {
    RetryStateView { url, max_retries, retries: 0 }
}

impl EngineView {
    /// The engine right after the pool has been set up.
    pub open spec fn initial(worker_threads: nat, timeout: Duration, max_retries: nat)
        -> EngineView {
        EngineView {
            timeout,
            max_retries,
            tasks: TaskChannelView { pending: Seq::empty(), closed: false },
            workers: Seq::new(worker_threads, |i: int| WorkerStateView::Waiting),
            results: Seq::empty(),
            accepted: Seq::empty(),
            shutdowns: 0,
        }
    }

    /// The requests to check a URL that wait in the channel.
    pub open spec fn waiting_checks(self) -> nat {
        total(self.tasks.pending, check_weight())
    }

    /// The probes that are under way: one per worker that is checking.
    pub open spec fn active_probes(self) -> nat {
        total(self.workers, probing_weight())
    }

    /// How often `url` has been accepted.
    pub open spec fn sent_times(self, url: Seq<char>) -> nat {
        total(self.accepted, names(url))
    }

    /// How many requests to check `url` wait in the channel.
    pub open spec fn waiting_times(self, url: Seq<char>) -> nat {
        total(self.tasks.pending, asks_for(url))
    }

    /// How many workers are probing `url`.
    pub open spec fn probing_times(self, url: Seq<char>) -> nat {
        total(self.workers, probes(url))
    }

    /// How many records there are on `url`.
    pub open spec fn reported_times(self, url: Seq<char>) -> nat {
        total(self.results, reports(url))
    }

    /// The ledger: each URL is in the channel, with the workers and among
    /// the records, taken together, exactly as often as it has been
    /// accepted.  No request is dropped and none is served twice.
    pub open spec fn ledger(self) -> bool {
        forall|url: Seq<char>| #[trigger]
            self.sent_times(url) == self.waiting_times(url) + self.probing_times(url)
                + self.reported_times(url)
    }

    /// Whether every worker has stopped.
    pub open spec fn all_stopped(self) -> bool {
        forall|i: int| 0 <= i < self.workers.len() ==> has_stopped(#[trigger] self.workers[i])
    }

    /// Whether every worker has been waited for.
    pub open spec fn all_joined(self) -> bool {
        forall|i: int| 0 <= i < self.workers.len() ==> (#[trigger] self.workers[i]) is Joined
    }

    /// Whether any worker has stopped.
    pub open spec fn some_stopped(self) -> bool {
        exists|i: int| 0 <= i < self.workers.len() && has_stopped(#[trigger] self.workers[i])
    }

    /// Where the run stands.
    pub open spec fn phase(self) -> Phase {
        if self.all_joined() {
            Phase::Done
        } else if self.all_stopped() {
            Phase::Joining
        } else if self.tasks.closed {
            Phase::Draining
        } else if self.accepted.len() + self.shutdowns > 0 {
            Phase::Dispatching
        } else {
            Phase::Idle
        }
    }

    /// An upper bound on the worker steps that are still to come once the
    /// channel is closed.
    pub open spec fn work_left(self) -> nat {
        self.tasks.pending.len() * (self.max_retries + 1) + total(self.workers, work_weight())
    }

    /// What is true of the engine at every moment.
    pub open spec fn inv(self) -> bool {
        &&& self.workers.len() >= 1
        &&& self.max_retries >= 1
        // every check under way has an attempt left, under the engine's budget
        &&& forall|i: int|
            0 <= i < self.workers.len() ==> ((
            #[trigger] self.workers[i]) matches WorkerStateView::Checking(check) ==> check.wf()
                && check.max_retries == self.max_retries)
        // every accepted URL waits, is being probed or has its record
        &&& self.accepted.len() == self.waiting_checks() + self.active_probes()
            + self.results.len()
        &&& self.ledger()
        // shutdown requests only come from being sent
        &&& self.shutdowns == 0 ==> forall|i: int|
            0 <= i < self.tasks.pending.len() ==> (#[trigger] self.tasks.pending[i]) is CheckUrl
        // without a shutdown request, a worker stops only at a closed, empty channel
        &&& self.shutdowns == 0 && self.some_stopped() ==> self.tasks.closed
            && self.tasks.pending.len() == 0
        // a failed check reports a response time of zero
        &&& forall|i: int|
            0 <= i < self.results.len() ==> ((#[trigger] self.results[i]).status is Err
                ==> self.results[i].response_time == 0)
    }

    /// The engine after `message` has been sent.
    pub open spec fn send(self, message: MonitorMessageView) -> EngineView {
        if self.tasks.closed {
            self
        } else {
            match message {
                MonitorMessageView::CheckUrl(url) => EngineView {
                    tasks: self.tasks.sent(message),
                    accepted: self.accepted.push(url),
                    ..self
                },
                MonitorMessageView::Shutdown => EngineView {
                    tasks: self.tasks.sent(message),
                    shutdowns: self.shutdowns + 1,
                    ..self
                },
            }
        }
    }

    /// The engine after the channel has been closed.
    pub open spec fn close(self) -> EngineView {
        EngineView {
            tasks: TaskChannelView { pending: self.tasks.pending, closed: true },
            ..self
        }
    }

    /// The engine after `urls` have been sent in order, one request each.
    pub open spec fn send_all(self, urls: Seq<Seq<char>>) -> EngineView
        decreases urls.len(),
    {
        if urls.len() == 0 {
            self
        } else {
            self.send_all(urls.drop_last()).send(MonitorMessageView::CheckUrl(urls.last()))
        }
    }

    /// The engine with worker `worker` in state `state`.
    pub open spec fn with_worker(self, worker: int, state: WorkerStateView) -> EngineView {
        EngineView { workers: self.workers.update(worker, state), ..self }
    }

    /// The request to make the next probe of `check`.
    pub open spec fn probe(self, check: RetryStateView) -> WorkerActionView {
        WorkerActionView::Probe { url: check.url, timeout: self.timeout, attempt: check.retries }
    }

    /// A waiting worker asks the channel for work.
    pub open spec fn receive(self, worker: int) -> (EngineView, WorkerActionView) {
        let after = EngineView { tasks: self.tasks.received(), ..self };
        match self.tasks.front() {
            ReceivedView::Message(MonitorMessageView::CheckUrl(url)) => (
                after.with_worker(
                    worker,
                    WorkerStateView::Checking(fresh_check(url, self.max_retries)),
                ),
                self.probe(fresh_check(url, self.max_retries)),
            ),
            ReceivedView::Message(MonitorMessageView::Shutdown) => (
                after.with_worker(worker, WorkerStateView::Stopped),
                WorkerActionView::Stop,
            ),
            ReceivedView::Closed => (
                self.with_worker(worker, WorkerStateView::Stopped),
                WorkerActionView::Stop,
            ),
            ReceivedView::Empty => (self, WorkerActionView::Wait),
        }
    }

    /// One step of worker `worker`.
    ///
    /// A waiting worker receives.  A worker that reports a probe has its
    /// check advanced: another probe of the same URL, or the record goes to
    /// the results and the worker receives again at once.  A worker that is
    /// checking and reports nothing is asked for the probe again.  A report
    /// from a worker that is not checking is dropped.  A stopped worker, and
    /// a number that names no worker, is told to stop.
    pub open spec fn worker_step(self, worker: int, event: WorkerEventView) -> (
        EngineView,
        WorkerActionView,
    ) {
        if !(0 <= worker < self.workers.len()) {
            (self, WorkerActionView::Stop)
        } else {
            match self.workers[worker] {
                WorkerStateView::Stopped => (self, WorkerActionView::Stop),
                WorkerStateView::Joined => (self, WorkerActionView::Stop),
                WorkerStateView::Waiting => self.receive(worker),
                WorkerStateView::Checking(check) => match event {
                    WorkerEventView::Ready => (self, self.probe(check)),
                    WorkerEventView::Probed(report) => match probe_step(check, report) {
                        RetryStepView::Retry(next) => (
                            self.with_worker(worker, WorkerStateView::Checking(next)),
                            self.probe(next),
                        ),
                        RetryStepView::Done(status) => (EngineView {
                            results: self.results.push(status),
                            ..self
                        }).with_worker(worker, WorkerStateView::Waiting).receive(worker),
                    },
                },
            }
        }
    }

    /// Whether worker `worker` can be waited for: it has stopped and has not
    /// been waited for yet.
    pub open spec fn can_join(self, worker: int) -> bool {
        0 <= worker < self.workers.len() && self.workers[worker] is Stopped
    }

    /// The engine after the dispatcher has tried to wait for `worker`.
    pub open spec fn join(self, worker: int) -> EngineView {
        if self.can_join(worker) {
            self.with_worker(worker, WorkerStateView::Joined)
        } else {
            self
        }
    }
}

/// One thing that happens to the engine.
pub enum EngineInput {
    /// The dispatcher sends a request.
    Send(MonitorMessageView),
    /// The dispatcher closes the channel.
    Close,
    /// A worker takes a step.
    Step(int, WorkerEventView),
    /// The dispatcher tries to wait for a worker.
    Join(int),
}

/// One for a record of failure, nothing for a record of success.
pub open spec fn failure_weight() -> spec_fn(WebsiteStatusView) -> nat {
    |status: WebsiteStatusView|
        if status.status is Err {
            1nat
        } else {
            0nat
        }
}

/// The number of records of failure among `results`.
pub open spec fn failures(results: Seq<WebsiteStatusView>) -> nat {
    total(results, failure_weight())
}

/// Whether no probe reported in `inputs` got a response.
pub open spec fn every_probe_fails(inputs: Seq<EngineInput>) -> bool {
    forall|i: int|
        0 <= i < inputs.len() ==> ((#[trigger] inputs[i]) matches EngineInput::Step(
            _,
            WorkerEventView::Probed(report),
        ) ==> report.outcome is Err)
}

/// Whether `inputs` hold no shutdown request.
pub open spec fn no_shutdown_sent(inputs: Seq<EngineInput>) -> bool {
    forall|i: int|
        0 <= i < inputs.len() ==> !((#[trigger] inputs[i]) matches EngineInput::Send(
            MonitorMessageView::Shutdown,
        ))
}

impl EngineView {
    /// Whether `input` is a step that moves a running worker along: a step
    /// of a worker that has not stopped, which brings the report of its
    /// probe if it is checking.
    pub open spec fn moves_worker(self, input: EngineInput) -> bool {
        input matches EngineInput::Step(worker, event) && 0 <= worker < self.workers.len()
            && !has_stopped(self.workers[worker]) && (self.workers[worker] is Checking
            ==> event is Probed)
    }

    /// Whether each of `inputs`, taken in turn, moves a running worker
    /// along.
    pub open spec fn only_moves_workers(self, inputs: Seq<EngineInput>) -> bool
        decreases inputs.len(),
    {
        inputs.len() == 0 || (self.only_moves_workers(inputs.drop_last()) && self.run(
            inputs.drop_last(),
        ).moves_worker(inputs.last()))
    }

    /// The engine after `input`.
    pub open spec fn apply(self, input: EngineInput) -> EngineView {
        match input {
            EngineInput::Send(message) => self.send(message),
            EngineInput::Close => self.close(),
            EngineInput::Step(worker, event) => self.worker_step(worker, event).0,
            EngineInput::Join(worker) => self.join(worker),
        }
    }

    /// The engine after `inputs`, one after another.
    pub open spec fn run(self, inputs: Seq<EngineInput>) -> EngineView
        decreases inputs.len(),
    {
        if inputs.len() == 0 {
            self
        } else {
            self.run(inputs.drop_last()).apply(inputs.last())
        }
    }
}

} // verus!
