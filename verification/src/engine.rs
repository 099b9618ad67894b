//! The executable engine: the task channel, the pool and the results under
//! one roof, changed only through steps that follow the model.
//!
//! The caller owns the threads.  Each worker thread calls [`monitor_worker`]
//! with its number and what it has to report, does what it is told and calls
//! again; the dispatcher sends, closes and waits.  Kept behind a lock, one
//! engine serves the whole pool: a step is the unit of mutual exclusion, so
//! no request is ever claimed twice.
use crate::channel::{Received, TaskChannel};
use crate::config::{Config, ConfigError};
use crate::laws::{
    lemma_check_ends_inv, lemma_close_inv, lemma_initial_inv, lemma_join_inv, lemma_receive_inv,
    lemma_send_inv,
};
use crate::model::{
    probing_weight, has_stopped, EngineView, Phase, WorkerActionView, WorkerEventView,
    WorkerStateView,
};
use crate::retry::{ProbeReport, RetryState, RetryStep};
use crate::status::{status_views, MonitorMessage, Url, WebsiteStatus};
use crate::total::{lemma_total_push, total};
use core::time::Duration;
use vstd::prelude::*;

verus! {

/// What one worker is doing.
#[derive(Debug, PartialEq, Eq)]
pub enum WorkerState {
    Waiting,
    Checking(RetryState),
    Stopped,
    Joined,
}

impl View for WorkerState {
    type V = WorkerStateView;

    open spec fn view(&self) -> WorkerStateView {
        match self {
            WorkerState::Waiting => WorkerStateView::Waiting,
            WorkerState::Checking(check) => WorkerStateView::Checking(check@),
            WorkerState::Stopped => WorkerStateView::Stopped,
            WorkerState::Joined => WorkerStateView::Joined,
        }
    }
}

/// What a worker tells the engine.
#[derive(Debug, PartialEq, Eq)]
pub enum WorkerEvent {
    /// It is ready for its next instruction.
    Ready,
    /// The probe it was asked for has returned.
    Probed(ProbeReport),
}

impl View for WorkerEvent {
    type V = WorkerEventView;

    open spec fn view(&self) -> WorkerEventView {
        match self {
            WorkerEvent::Ready => WorkerEventView::Ready,
            WorkerEvent::Probed(report) => WorkerEventView::Probed(report@),
        }
    }
}

/// What the engine tells a worker to do next.
#[derive(Debug, PartialEq, Eq)]
pub enum WorkerAction {
    /// Probe this URL once, giving up after the timeout, and report back.
    /// `attempt` is the number of probes of this check that have failed
    /// before: zero says that a new check begins.
    Probe { url: Url, timeout: Duration, attempt: u8 },
    /// Nothing waits but more may come: ask again later.
    Wait,
    /// Terminate.
    Stop,
}

impl View for WorkerAction {
    type V = WorkerActionView;

    open spec fn view(&self) -> WorkerActionView {
        match self {
            WorkerAction::Probe { url, timeout, attempt } => WorkerActionView::Probe {
                url: url@,
                timeout: *timeout,
                attempt: *attempt as nat,
            },
            WorkerAction::Wait => WorkerActionView::Wait,
            WorkerAction::Stop => WorkerActionView::Stop,
        }
    }
}

/// The mathematical value of a pool.
pub open spec fn worker_views(workers: Seq<WorkerState>) -> Seq<WorkerStateView> {
    workers.map_values(|worker: WorkerState| worker@)
}

/// The mathematical value of a list of URLs.
pub open spec fn url_views(urls: Seq<Url>) -> Seq<Seq<char>> {
    urls.map_values(|url: Url| url@)
}

/// The engine.
pub struct Engine {
    config: Config,
    tasks: TaskChannel,
    workers: Vec<WorkerState>,
    results: Vec<WebsiteStatus>,
    started: bool,
    accepted: Ghost<Seq<Seq<char>>>,
    shutdowns: Ghost<nat>,
}

impl View for Engine {
    type V = EngineView;

    closed spec fn view(&self) -> EngineView {
        EngineView {
            timeout: self.config.timeout,
            max_retries: self.config.max_retries as nat,
            tasks: self.tasks@,
            workers: worker_views(self.workers@),
            results: status_views(self.results@),
            accepted: self.accepted@,
            shutdowns: self.shutdowns@,
        }
    }
}

impl Engine {
    /// Holds of every engine that `new` made and that only the functions of
    /// this module have changed.
    pub closed spec fn wf(&self) -> bool {
        &&& self@.inv()
        &&& self.config.is_valid()
        &&& self.workers@.len() == self.config.worker_threads
        &&& self.started == (self.accepted@.len() + self.shutdowns@ > 0)
    }

    /// A well-formed engine satisfies the model's invariant, so the laws of
    /// the model hold of it.
    pub proof fn lemma_wf(&self)
        requires
            self.wf(),
        ensures
            self@.inv(),
    {
    }

    /// Sets up the pool: one waiting worker per configured thread, an open
    /// and empty channel, no results.  A configuration without workers or
    /// without attempts is refused, before anything is dispatched.
    pub fn new(config: Config) -> (made: Result<Engine, ConfigError>)
        ensures
            match made {
                Ok(engine) => config.is_valid() && engine.wf() && engine@ == EngineView::initial(
                    config.worker_threads as nat,
                    config.timeout,
                    config.max_retries as nat,
                ),
                Err(error) => config.verdict() == Err::<(), ConfigError>(error),
            },
    {
        match config.validate() {
            Err(error) => Err(error),
            Ok(()) => {
                let mut workers: Vec<WorkerState> = Vec::new();
                let mut made: usize = 0;
                while made < config.worker_threads
                    invariant
                        made <= config.worker_threads,
                        workers@.len() == made,
                        forall|i: int| 0 <= i < made ==> (#[trigger] workers@[i]) is Waiting,
                    decreases config.worker_threads - made,
                {
                    workers.push(WorkerState::Waiting);
                    made = made + 1;
                }
                let engine = Engine {
                    config,
                    tasks: TaskChannel::new(),
                    workers,
                    results: Vec::new(),
                    started: false,
                    accepted: Ghost(Seq::empty()),
                    shutdowns: Ghost(0),
                };
                proof {
                    let start = EngineView::initial(
                        config.worker_threads as nat,
                        config.timeout,
                        config.max_retries as nat,
                    );
                    lemma_initial_inv(
                        config.worker_threads as nat,
                        config.timeout,
                        config.max_retries as nat,
                    );
                    assert(engine@.workers =~= start.workers);
                    assert(engine@.results =~= start.results);
                    assert(engine@ == start);
                }
                Ok(engine)
            },
        }
    }

    /// Sends one request.  A closed channel takes nothing and hands the
    /// request back.
    pub fn send(&mut self, message: MonitorMessage) -> (refused: Result<(), MonitorMessage>)
        requires
            old(self).wf(),
        ensures
            final(self).wf(),
            final(self)@ == old(self)@.send(message@),
            old(self)@.tasks.closed ==> refused == Err::<(), MonitorMessage>(message),
            !old(self)@.tasks.closed ==> refused is Ok,
    {
        if self.tasks.is_closed() {
            return Err(message);
        }
        proof {
            lemma_send_inv(self@, message@);
        }
        match &message {
            MonitorMessage::CheckUrl(url) => {
                self.accepted = Ghost(self.accepted@.push(url@));
            },
            MonitorMessage::Shutdown => {
                self.shutdowns = Ghost(self.shutdowns@ + 1);
            },
        }
        self.started = true;
        self.tasks.send(message)
    }

    /// Closes the channel: no more work will come.  Workers finish what
    /// waits and stop.
    pub fn close(&mut self)
        requires
            old(self).wf(),
        ensures
            final(self).wf(),
            final(self)@ == old(self)@.close(),
    {
        proof {
            lemma_close_inv(self@);
        }
        self.tasks.close();
    }

    /// The dispatcher: sends one request per URL, in the order given, and
    /// closes the channel.  Says whether the channel was still open; on a
    /// closed channel nothing is sent.
    pub fn dispatch(&mut self, urls: Vec<Url>) -> (open: bool)
        requires
            old(self).wf(),
        ensures
            final(self).wf(),
            final(self)@ == old(self)@.send_all(url_views(urls@)).close(),
            open == !old(self)@.tasks.closed,
    {
        let open = !self.tasks.is_closed();
        let ghost all = url_views(urls@);
        let mut sent: usize = 0;
        while sent < urls.len()
            invariant
                sent <= urls.len(),
                self.wf(),
                all == url_views(urls@),
                self@ == old(self)@.send_all(all.take(sent as int)),
            decreases urls.len() - sent,
        {
            proof {
                assert(all.take(sent + 1).drop_last() =~= all.take(sent as int));
                assert(all.take(sent + 1).last() == urls@[sent as int]@);
            }
            let _ = self.send(MonitorMessage::CheckUrl(urls[sent].clone()));
            sent = sent + 1;
        }
        proof {
            assert(all.take(sent as int) =~= all);
        }
        self.close();
        open
    }

    /// A waiting worker asks the channel for work.
    fn receive(&mut self, worker: usize) -> (action: WorkerAction)
        requires
            old(self).wf(),
            worker < old(self)@.workers.len(),
            old(self)@.workers[worker as int] is Waiting,
        ensures
            final(self).wf(),
            (final(self)@, action@) == old(self)@.receive(worker as int),
    {
        proof {
            lemma_receive_inv(self@, worker as int);
        }
        let ghost before = self@;
        let ghost pool = self.workers@;
        match self.tasks.recv() {
            Received::Message(MonitorMessage::CheckUrl(url)) => {
                match RetryState::new(url.clone(), self.config.max_retries) {
                    Ok(check) => {
                        self.workers.set(worker, WorkerState::Checking(check));
                        proof {
                            assert(worker_views(self.workers@) =~= worker_views(pool).update(
                                worker as int,
                                WorkerStateView::Checking(check@),
                            ));
                            assert(self@ == before.receive(worker as int).0);
                        }
                        WorkerAction::Probe { url, timeout: self.config.timeout, attempt: 0 }
                    },
                    Err(_) => {
                        proof {
                            assert(false);
                        }
                        WorkerAction::Stop
                    },
                }
            },
            Received::Message(MonitorMessage::Shutdown) => {
                self.workers.set(worker, WorkerState::Stopped);
                proof {
                    assert(worker_views(self.workers@) =~= worker_views(pool).update(
                        worker as int,
                        WorkerStateView::Stopped,
                    ));
                    assert(self@ == before.receive(worker as int).0);
                }
                WorkerAction::Stop
            },
            Received::Closed => {
                self.workers.set(worker, WorkerState::Stopped);
                proof {
                    assert(worker_views(self.workers@) =~= worker_views(pool).update(
                        worker as int,
                        WorkerStateView::Stopped,
                    ));
                    assert(self@ == before.receive(worker as int).0);
                }
                WorkerAction::Stop
            },
            Received::Empty => {
                proof {
                    assert(self@ == before);
                }
                WorkerAction::Wait
            },
        }
    }

    /// The dispatcher waits for a worker.  Only a worker that has stopped
    /// can be waited for; says whether this one could.
    pub fn join_worker(&mut self, worker: usize) -> (joined: bool)
        requires
            old(self).wf(),
        ensures
            final(self).wf(),
            joined == old(self)@.can_join(worker as int),
            final(self)@ == old(self)@.join(worker as int),
    {
        if worker >= self.workers.len() {
            return false;
        }
        let ghost before = self@;
        let ghost pool = self.workers@;
        proof {
            lemma_join_inv(self@, worker as int);
        }
        let stopped = match &self.workers[worker] {
            WorkerState::Stopped => true,
            _ => false,
        };
        if stopped {
            self.workers.set(worker, WorkerState::Joined);
            proof {
                assert(worker_views(self.workers@) =~= worker_views(pool).update(
                    worker as int,
                    WorkerStateView::Joined,
                ));
                assert(self@ == before.join(worker as int));
            }
        }
        stopped
    }

    /// Whether every worker has stopped: no further result can arrive.
    pub fn all_stopped(&self) -> (stopped: bool)
        ensures
            stopped == self@.all_stopped(),
    {
        let mut seen: usize = 0;
        while seen < self.workers.len()
            invariant
                seen <= self.workers@.len(),
                forall|i: int|
                    0 <= i < seen ==> has_stopped(#[trigger] worker_views(self.workers@)[i]),
            decreases self.workers@.len() - seen,
        {
            let stopped = match &self.workers[seen] {
                WorkerState::Stopped => true,
                WorkerState::Joined => true,
                _ => false,
            };
            if !stopped {
                proof {
                    assert(!has_stopped(self@.workers[seen as int]));
                }
                return false;
            }
            seen = seen + 1;
        }
        true
    }

    /// Whether every worker has been waited for.
    pub fn all_joined(&self) -> (joined: bool)
        ensures
            joined == self@.all_joined(),
    {
        let mut seen: usize = 0;
        while seen < self.workers.len()
            invariant
                seen <= self.workers@.len(),
                forall|i: int|
                    0 <= i < seen ==> (#[trigger] worker_views(self.workers@)[i]) is Joined,
            decreases self.workers@.len() - seen,
        {
            let joined = match &self.workers[seen] {
                WorkerState::Joined => true,
                _ => false,
            };
            if !joined {
                proof {
                    assert(!(self@.workers[seen as int] is Joined));
                }
                return false;
            }
            seen = seen + 1;
        }
        true
    }

    /// Where the run stands.  It is done only when every worker has been
    /// waited for.
    pub fn phase(&self) -> (phase: Phase)
        requires
            self.wf(),
        ensures
            phase == self@.phase(),
    {
        if self.all_joined() {
            Phase::Done
        } else if self.all_stopped() {
            Phase::Joining
        } else if self.tasks.is_closed() {
            Phase::Draining
        } else if self.started {
            Phase::Dispatching
        } else {
            Phase::Idle
        }
    }

    /// The result collector's rule: collecting is over when no further
    /// result can arrive, or when the number of results that the caller
    /// expects, if it names one, has arrived.
    pub fn collection_complete(&self, expected: Option<usize>) -> (complete: bool)
        ensures
            complete == (self@.all_stopped() || (expected matches Some(count)
                && self@.results.len() >= count)),
    {
        let enough = match expected {
            Some(count) => self.results.len() >= count,
            None => false,
        };
        enough || self.all_stopped()
    }

    /// The status records so far, in the order in which the checks ended.
    pub fn results(&self) -> (records: &Vec<WebsiteStatus>)
        ensures
            status_views(records@) == self@.results,
    {
        &self.results
    }

    /// Ends the run and hands over the status records.
    pub fn into_results(self) -> (records: Vec<WebsiteStatus>)
        ensures
            status_views(records@) == self@.results,
    {
        self.results
    }

    /// The number of probes under way, which never exceeds the pool size.
    pub fn active_probes(&self) -> (active: usize)
        ensures
            active == self@.active_probes(),
            active <= self@.workers.len(),
    {
        let ghost pool = worker_views(self.workers@);
        let mut active: usize = 0;
        let mut seen: usize = 0;
        while seen < self.workers.len()
            invariant
                seen <= self.workers@.len(),
                pool == worker_views(self.workers@),
                active == total(pool.take(seen as int), probing_weight()),
                active <= seen,
            decreases self.workers@.len() - seen,
        {
            proof {
                lemma_total_push(pool.take(seen as int), pool[seen as int], probing_weight());
                assert(pool.take(seen + 1) =~= pool.take(seen as int).push(pool[seen as int]));
            }
            match &self.workers[seen] {
                WorkerState::Checking(_) => {
                    active = active + 1;
                },
                _ => {},
            }
            seen = seen + 1;
        }
        proof {
            assert(pool.take(seen as int) =~= pool);
        }
        active
    }

    /// The size of the pool.
    pub fn worker_count(&self) -> (count: usize)
        ensures
            count == self@.workers.len(),
    {
        self.workers.len()
    }

    /// The number of requests that wait in the channel.
    pub fn pending(&self) -> (waiting: usize)
        ensures
            waiting == self@.tasks.pending.len(),
    {
        self.tasks.len()
    }

    /// Whether the channel has been closed.
    pub fn is_closed(&self) -> (closed: bool)
        ensures
            closed == self@.tasks.closed,
    {
        self.tasks.is_closed()
    }
}

/// One step of worker number `worker`.
///
/// A waiting worker receives: a request to check a URL makes it start the
/// check and probe, a shutdown request or a closed and empty channel makes
/// it stop, an open and empty channel makes it wait.  A worker that reports
/// a probe has its check advanced by the retry policy: another probe of the
/// same URL, or the record goes to the results and the worker receives again
/// at once.  A worker that is checking and has nothing to report is asked
/// for its probe again; a report from a worker that is not checking is
/// dropped.  A stopped worker, and a number that names no worker, is told to
/// stop and changes nothing.
pub fn monitor_worker(engine: &mut Engine, worker: usize, event: WorkerEvent) -> (action:
    WorkerAction)
    requires
        old(engine).wf(),
    ensures
        final(engine).wf(),
        (final(engine)@, action@) == old(engine)@.worker_step(worker as int, event@),
{
    if worker >= engine.workers.len() {
        return WorkerAction::Stop;
    }
    let ghost before = engine@;
    let ghost pool = engine.workers@;
    let ghost records = engine.results@;
    match &engine.workers[worker] {
        WorkerState::Stopped => WorkerAction::Stop,
        WorkerState::Joined => WorkerAction::Stop,
        WorkerState::Waiting => engine.receive(worker),
        WorkerState::Checking(check) => match event {
            WorkerEvent::Ready => WorkerAction::Probe {
                url: check.url().clone(),
                timeout: engine.config.timeout,
                attempt: check.retries(),
            },
            WorkerEvent::Probed(report) => {
                let url = check.url().clone();
                match check.on_probe(report) {
                    RetryStep::Retry(next) => {
                        let attempt = next.retries();
                        proof {
                            crate::laws::lemma_worker_step_inv(before, worker as int, event@);
                        }
                        engine.workers.set(worker, WorkerState::Checking(next));
                        proof {
                            assert(worker_views(engine.workers@) =~= worker_views(pool).update(
                                worker as int,
                                WorkerStateView::Checking(next@),
                            ));
                            assert(engine@ == before.worker_step(worker as int, event@).0);
                        }
                        WorkerAction::Probe { url, timeout: engine.config.timeout, attempt }
                    },
                    RetryStep::Done(status) => {
                        proof {
                            lemma_check_ends_inv(before, worker as int, status@);
                        }
                        engine.results.push(status);
                        engine.workers.set(worker, WorkerState::Waiting);
                        proof {
                            assert(worker_views(engine.workers@) =~= worker_views(pool).update(
                                worker as int,
                                WorkerStateView::Waiting,
                            ));
                            assert(status_views(engine.results@) =~= status_views(records).push(
                                status@,
                            ));
                            assert(engine@ == (EngineView {
                                results: before.results.push(status@),
                                ..before
                            }).with_worker(worker as int, WorkerStateView::Waiting));
                        }
                        engine.receive(worker)
                    },
                }
            },
        },
    }
}

} // verus!
