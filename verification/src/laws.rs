//! What holds of every run of the engine, proved of the model.
//!
//! First, that each step keeps the engine's invariant.  From that: every
//! accepted URL gets exactly one record, the probes under way never outnumber
//! the workers, a closed channel brings every worker to a stop in a bounded
//! number of steps, and runs in which every probe fails agree on the number
//! of failures.
use crate::channel::ReceivedView;
use crate::model::{
    asks_for, check_weight, every_probe_fails, failures, fresh_check, has_stopped, names,
    no_shutdown_sent, probes, probing_weight, reports, work_weight, EngineInput, EngineView,
    Phase, WorkerEventView, WorkerStateView,
};
use crate::retry::{probe_step, RetryStepView};
use crate::status::{MonitorMessageView, WebsiteStatusView};
use crate::total::{
    lemma_total_at_most_len, lemma_total_pop_front, lemma_total_push, lemma_total_update,
    lemma_total_zero,
};
use core::time::Duration;
use vstd::prelude::*;

verus! {

/// Where every worker that has stopped in `after` had stopped in `before`,
/// a stopped worker in `after` means a stopped worker in `before`.
proof fn lemma_no_new_stop(before: EngineView, after: EngineView)
    requires
        after.workers.len() == before.workers.len(),
        forall|i: int|
            0 <= i < after.workers.len() && has_stopped(#[trigger] after.workers[i])
                ==> has_stopped(before.workers[i]),
    ensures
        after.some_stopped() ==> before.some_stopped(),
{
    if after.some_stopped() {
        let i = choose|i: int|
            0 <= i < after.workers.len() && has_stopped(#[trigger] after.workers[i]);
        assert(has_stopped(before.workers[i]));
    }
}

/// A freshly set up engine is sound and idle.
pub proof fn lemma_initial_inv(worker_threads: nat, timeout: Duration, max_retries: nat)
    requires
        worker_threads >= 1,
        max_retries >= 1,
    ensures
        EngineView::initial(worker_threads, timeout, max_retries).inv(),
        EngineView::initial(worker_threads, timeout, max_retries).phase() == Phase::Idle,
        EngineView::initial(worker_threads, timeout, max_retries).workers.len() == worker_threads,
{
    let start = EngineView::initial(worker_threads, timeout, max_retries);
    assert(start.workers[0] is Waiting);
    lemma_total_zero(start.workers, probing_weight());
    assert(start.tasks.pending.len() == 0);
    assert(!start.some_stopped());
    assert forall|url: Seq<char>| #[trigger]
        start.sent_times(url) == start.waiting_times(url) + start.probing_times(url)
            + start.reported_times(url) by {
        lemma_total_zero(start.workers, probes(url));
    }
}

/// Sending keeps the engine sound.
pub proof fn lemma_send_inv(engine: EngineView, message: MonitorMessageView)
    requires
        engine.inv(),
    ensures
        engine.send(message).inv(),
        engine.send(message).workers == engine.workers,
        engine.send(message).results == engine.results,
{
    if !engine.tasks.closed {
        lemma_total_push(engine.tasks.pending, message, check_weight());
        let after = engine.send(message);
        assert forall|url: Seq<char>| #[trigger]
            after.sent_times(url) == after.waiting_times(url) + after.probing_times(url)
                + after.reported_times(url) by {
            assert(engine.sent_times(url) == engine.waiting_times(url) + engine.probing_times(url)
                + engine.reported_times(url));
            lemma_total_push(engine.tasks.pending, message, asks_for(url));
            if let MonitorMessageView::CheckUrl(sent) = message {
                lemma_total_push(engine.accepted, sent, names(url));
            }
        }
        lemma_no_new_stop(engine, after);
    }
}

/// Closing keeps the engine sound.
pub proof fn lemma_close_inv(engine: EngineView)
    requires
        engine.inv(),
    ensures
        engine.close().inv(),
{
    let after = engine.close();
    assert forall|url: Seq<char>| #[trigger]
        after.sent_times(url) == after.waiting_times(url) + after.probing_times(url)
            + after.reported_times(url) by {
        assert(engine.sent_times(url) == engine.waiting_times(url) + engine.probing_times(url)
            + engine.reported_times(url));
    }
    lemma_no_new_stop(engine, after);
}

/// Sending a list of URLs keeps the engine sound.  On an open channel all
/// of them are accepted, in order, and wait behind what waited before.
pub proof fn lemma_send_all_inv(engine: EngineView, urls: Seq<Seq<char>>)
    requires
        engine.inv(),
    ensures
        engine.send_all(urls).inv(),
        engine.send_all(urls).workers == engine.workers,
        engine.send_all(urls).results == engine.results,
        engine.send_all(urls).tasks.closed == engine.tasks.closed,
        engine.send_all(urls).shutdowns == engine.shutdowns,
        engine.send_all(urls).timeout == engine.timeout,
        engine.send_all(urls).max_retries == engine.max_retries,
        engine.tasks.closed ==> engine.send_all(urls) == engine,
        !engine.tasks.closed ==> engine.send_all(urls).accepted == engine.accepted + urls
            && engine.send_all(urls).tasks.pending == engine.tasks.pending + urls.map_values(
            |url: Seq<char>| MonitorMessageView::CheckUrl(url),
        ),
    decreases urls.len(),
{
    if urls.len() > 0 {
        let before = engine.send_all(urls.drop_last());
        lemma_send_all_inv(engine, urls.drop_last());
        lemma_send_inv(before, MonitorMessageView::CheckUrl(urls.last()));
        if !engine.tasks.closed {
            let wrap = |url: Seq<char>| MonitorMessageView::CheckUrl(url);
            assert(engine.send_all(urls).accepted =~= engine.accepted + urls);
            assert(engine.send_all(urls).tasks.pending =~= engine.tasks.pending + urls.map_values(
                wrap,
            ));
        }
    } else {
        assert(engine.accepted + urls =~= engine.accepted);
        assert(engine.tasks.pending + urls.map_values(
            |url: Seq<char>| MonitorMessageView::CheckUrl(url),
        ) =~= engine.tasks.pending);
    }
}

/// Changing a worker that has not stopped into one that has not stopped
/// leaves the question "has any worker stopped" as it was.
proof fn lemma_with_live_worker(engine: EngineView, worker: int, state: WorkerStateView)
    requires
        0 <= worker < engine.workers.len(),
        !has_stopped(state),
    ensures
        engine.with_worker(worker, state).some_stopped() ==> engine.some_stopped(),
{
    lemma_no_new_stop(engine, engine.with_worker(worker, state));
}

/// A waiting worker's receive keeps the engine sound.
pub proof fn lemma_receive_inv(engine: EngineView, worker: int)
    requires
        engine.inv(),
        0 <= worker < engine.workers.len(),
        engine.workers[worker] is Waiting,
    ensures
        engine.receive(worker).0.inv(),
{
    let after = engine.receive(worker).0;
    let pending = engine.tasks.pending;
    assert forall|url: Seq<char>| #[trigger]
        after.sent_times(url) == after.waiting_times(url) + after.probing_times(url)
            + after.reported_times(url) by {
        assert(engine.sent_times(url) == engine.waiting_times(url) + engine.probing_times(url)
            + engine.reported_times(url));
        if pending.len() > 0 {
            lemma_total_pop_front(pending, asks_for(url));
        }
        lemma_total_update(engine.workers, worker, after.workers[worker], probes(url));
        assert(after.workers =~= engine.workers.update(worker, after.workers[worker]));
    }
    match engine.tasks.front() {
        ReceivedView::Message(message) => {
            lemma_total_pop_front(pending, check_weight());
            let rest = pending.subrange(1, pending.len() as int);
            assert forall|i: int| 0 <= i < rest.len() && engine.shutdowns == 0 implies (
            #[trigger] rest[i]) is CheckUrl by {
                assert(rest[i] == pending[i + 1]);
            }
            match message {
                MonitorMessageView::CheckUrl(url) => {
                    let state = WorkerStateView::Checking(
                        fresh_check(url, engine.max_retries),
                    );
                    lemma_total_update(engine.workers, worker, state, probing_weight());
                    let middle = EngineView { tasks: engine.tasks.received(), ..engine };
                    lemma_with_live_worker(middle, worker, state);
                    lemma_no_new_stop(engine, middle);
                },
                MonitorMessageView::Shutdown => {
                    assert(pending[0] is Shutdown);
                    assert(engine.shutdowns != 0);
                    lemma_total_update(
                        engine.workers,
                        worker,
                        WorkerStateView::Stopped,
                        probing_weight(),
                    );
                },
            }
        },
        ReceivedView::Closed => {
            lemma_total_update(engine.workers, worker, WorkerStateView::Stopped, probing_weight());
        },
        ReceivedView::Empty => {},
    }
}

/// Every step of a worker keeps the engine sound.
pub proof fn lemma_worker_step_inv(engine: EngineView, worker: int, event: WorkerEventView)
    requires
        engine.inv(),
    ensures
        engine.worker_step(worker, event).0.inv(),
        engine.worker_step(worker, event).0.workers.len() == engine.workers.len(),
{
    if 0 <= worker < engine.workers.len() {
        match engine.workers[worker] {
            WorkerStateView::Stopped => {},
            WorkerStateView::Joined => {},
            WorkerStateView::Waiting => {
                lemma_receive_inv(engine, worker);
            },
            WorkerStateView::Checking(check) => match event {
                WorkerEventView::Ready => {},
                WorkerEventView::Probed(report) => match probe_step(check, report) {
                    RetryStepView::Retry(next) => {
                        let state = WorkerStateView::Checking(next);
                        let after = engine.with_worker(worker, state);
                        lemma_total_update(engine.workers, worker, state, probing_weight());
                        lemma_with_live_worker(engine, worker, state);
                        assert forall|url: Seq<char>| #[trigger]
                            after.sent_times(url) == after.waiting_times(url)
                                + after.probing_times(url) + after.reported_times(url) by {
                            assert(engine.sent_times(url) == engine.waiting_times(url)
                                + engine.probing_times(url) + engine.reported_times(url));
                            lemma_total_update(engine.workers, worker, state, probes(url));
                        }
                    },
                    RetryStepView::Done(status) => {
                        let middle = (EngineView {
                            results: engine.results.push(status),
                            ..engine
                        }).with_worker(worker, WorkerStateView::Waiting);
                        lemma_check_ends_inv(engine, worker, status);
                        lemma_receive_inv(middle, worker);
                    },
                },
            },
        }
    }
}

/// Waiting for a worker keeps the engine sound.
pub proof fn lemma_join_inv(engine: EngineView, worker: int)
    requires
        engine.inv(),
    ensures
        engine.join(worker).inv(),
{
    if engine.can_join(worker) {
        lemma_total_update(engine.workers, worker, WorkerStateView::Joined, probing_weight());
        let after = engine.join(worker);
        assert(has_stopped(engine.workers[worker]));
        assert(engine.some_stopped());
        assert forall|url: Seq<char>| #[trigger]
            after.sent_times(url) == after.waiting_times(url) + after.probing_times(url)
                + after.reported_times(url) by {
            assert(engine.sent_times(url) == engine.waiting_times(url) + engine.probing_times(url)
                + engine.reported_times(url));
            lemma_total_update(engine.workers, worker, WorkerStateView::Joined, probes(url));
        }
    }
}

/// Every input keeps the engine sound, and the pool keeps its size.
pub proof fn lemma_apply_inv(engine: EngineView, input: EngineInput)
    requires
        engine.inv(),
    ensures
        engine.apply(input).inv(),
        engine.apply(input).workers.len() == engine.workers.len(),
{
    match input {
        EngineInput::Send(message) => lemma_send_inv(engine, message),
        EngineInput::Close => lemma_close_inv(engine),
        EngineInput::Step(worker, event) => lemma_worker_step_inv(engine, worker, event),
        EngineInput::Join(worker) => lemma_join_inv(engine, worker),
    }
}

/// Every run keeps the engine sound, and the pool keeps its size.
pub proof fn lemma_run_inv(engine: EngineView, inputs: Seq<EngineInput>)
    requires
        engine.inv(),
    ensures
        engine.run(inputs).inv(),
        engine.run(inputs).workers.len() == engine.workers.len(),
    decreases inputs.len(),
{
    if inputs.len() > 0 {
        lemma_run_inv(engine, inputs.drop_last());
        lemma_apply_inv(engine.run(inputs.drop_last()), inputs.last());
    }
}

/// The probes under way never outnumber the workers.
pub proof fn lemma_active_probes_bounded(engine: EngineView)
    ensures
        engine.active_probes() <= engine.workers.len(),
{
    lemma_total_at_most_len(engine.workers, probing_weight());
}

/// Once every worker has stopped in a run without shutdown requests, every
/// accepted URL has its record: as many records as URLs, nothing waiting,
/// nothing under way.
pub proof fn lemma_all_reported(engine: EngineView)
    requires
        engine.inv(),
        engine.shutdowns == 0,
        engine.all_stopped(),
    ensures
        engine.results.len() == engine.accepted.len(),
        engine.tasks.pending.len() == 0,
        engine.tasks.closed,
        engine.active_probes() == 0,
{
    assert(has_stopped(engine.workers[0]));
    assert(engine.some_stopped());
    assert forall|i: int| 0 <= i < engine.workers.len() implies probing_weight()(
        #[trigger] engine.workers[i],
    ) == 0 by {
        assert(has_stopped(engine.workers[i]));
    }
    lemma_total_zero(engine.workers, probing_weight());
    lemma_total_zero(engine.tasks.pending, check_weight());
}

/// Exactly one record per request: once every worker has stopped in a run
/// without shutdown requests, each URL has as many records as the number of
/// times it was accepted.  No request was dropped and none was served twice.
pub proof fn lemma_every_url_reported(engine: EngineView, url: Seq<char>)
    requires
        engine.inv(),
        engine.shutdowns == 0,
        engine.all_stopped(),
    ensures
        engine.reported_times(url) == engine.sent_times(url),
{
    lemma_all_reported(engine);
    assert(engine.sent_times(url) == engine.waiting_times(url) + engine.probing_times(url)
        + engine.reported_times(url));
    assert forall|i: int| 0 <= i < engine.workers.len() implies probes(url)(
        #[trigger] engine.workers[i],
    ) == 0 by {
        assert(has_stopped(engine.workers[i]));
    }
    lemma_total_zero(engine.workers, probes(url));
    lemma_total_zero(engine.tasks.pending, asks_for(url));
}

/// A run is done only when no worker is left running, and not before every
/// worker has stopped.
pub proof fn lemma_done_means_all_stopped(engine: EngineView)
    requires
        engine.phase() == Phase::Done,
    ensures
        engine.all_joined(),
        engine.all_stopped(),
        engine.active_probes() == 0,
{
    assert forall|i: int| 0 <= i < engine.workers.len() implies has_stopped(
        #[trigger] engine.workers[i],
    ) by {
        assert(engine.workers[i] is Joined);
    }
    assert forall|i: int| 0 <= i < engine.workers.len() implies probing_weight()(
        #[trigger] engine.workers[i],
    ) == 0 by {
        assert(engine.workers[i] is Joined);
    }
    lemma_total_zero(engine.workers, probing_weight());
}

/// Done is final: whatever happens to an engine whose workers have all been
/// waited for, it stays done, and no record is added.
pub proof fn lemma_done_is_final(engine: EngineView, input: EngineInput)
    requires
        engine.phase() == Phase::Done,
    ensures
        engine.apply(input).phase() == Phase::Done,
        engine.apply(input).results == engine.results,
        engine.apply(input).workers == engine.workers,
{
    match input {
        EngineInput::Step(worker, event) => {
            if 0 <= worker < engine.workers.len() {
                assert(engine.workers[worker] is Joined);
            }
        },
        EngineInput::Join(worker) => {
            if 0 <= worker < engine.workers.len() {
                assert(engine.workers[worker] is Joined);
            }
        },
        _ => {},
    }
    let after = engine.apply(input);
    assert forall|i: int| 0 <= i < after.workers.len() implies (
    #[trigger] after.workers[i]) is Joined by {
        assert(engine.workers[i] is Joined);
    }
}

/// With no work left, every worker has stopped.
pub proof fn lemma_no_work_left(engine: EngineView)
    requires
        engine.work_left() == 0,
    ensures
        engine.all_stopped(),
{
    lemma_total_zero(engine.workers, work_weight());
    assert forall|i: int| 0 <= i < engine.workers.len() implies has_stopped(
        #[trigger] engine.workers[i],
    ) by {
        assert(work_weight()(engine.workers[i]) == 0);
    }
}

/// The bound on the work left when a request leaves the channel.
proof fn lemma_pending_work(waiting: nat, budget: nat)
    requires
        waiting > 0,
    ensures
        (waiting - 1) * (budget + 1) + budget + 1 == waiting * (budget + 1),
{
    assert((waiting - 1) * (budget + 1) + budget + 1 == waiting * (budget + 1))
        by (nonlinear_arith);
}

/// On a closed channel a waiting worker never has to wait, and its receive
/// uses up work.
proof fn lemma_receive_progress(engine: EngineView, worker: int)
    requires
        engine.inv(),
        engine.tasks.closed,
        0 <= worker < engine.workers.len(),
        engine.workers[worker] is Waiting,
    ensures
        engine.receive(worker).0.work_left() < engine.work_left(),
        !(engine.receive(worker).1 is Wait),
        engine.receive(worker).0.tasks.closed,
{
    let pending = engine.tasks.pending;
    match engine.tasks.front() {
        ReceivedView::Message(message) => {
            lemma_pending_work(pending.len(), engine.max_retries);
            match message {
                MonitorMessageView::CheckUrl(url) => {
                    lemma_total_update(
                        engine.workers,
                        worker,
                        WorkerStateView::Checking(
                            fresh_check(url, engine.max_retries),
                        ),
                        work_weight(),
                    );
                },
                MonitorMessageView::Shutdown => {
                    lemma_total_update(
                        engine.workers,
                        worker,
                        WorkerStateView::Stopped,
                        work_weight(),
                    );
                },
            }
        },
        ReceivedView::Closed => {
            lemma_total_update(engine.workers, worker, WorkerStateView::Stopped, work_weight());
        },
        ReceivedView::Empty => {},
    }
}

/// No deadlock, and a bounded end: once the channel is closed, a worker that
/// has not stopped is never told to wait, and each of its steps (a receive
/// when it waits, a probe report when it checks) uses up some of the work
/// left, which is finite.  So after at most `work_left` such steps every
/// worker has stopped, whatever the probes return.
pub proof fn lemma_closed_channel_drains(engine: EngineView, worker: int, event: WorkerEventView)
    requires
        engine.inv(),
        engine.tasks.closed,
        0 <= worker < engine.workers.len(),
        !has_stopped(engine.workers[worker]),
        engine.workers[worker] is Checking ==> event is Probed,
    ensures
        engine.worker_step(worker, event).0.work_left() < engine.work_left(),
        !(engine.worker_step(worker, event).1 is Wait),
        engine.worker_step(worker, event).0.tasks.closed,
{
    match engine.workers[worker] {
        WorkerStateView::Stopped => {},
        WorkerStateView::Joined => {},
        WorkerStateView::Waiting => {
            lemma_receive_progress(engine, worker);
        },
        WorkerStateView::Checking(check) => match event {
            WorkerEventView::Ready => {},
            WorkerEventView::Probed(report) => match probe_step(check, report) {
                RetryStepView::Retry(next) => {
                    lemma_total_update(
                        engine.workers,
                        worker,
                        WorkerStateView::Checking(next),
                        work_weight(),
                    );
                },
                RetryStepView::Done(status) => {
                    let middle = (EngineView {
                        results: engine.results.push(status),
                        ..engine
                    }).with_worker(worker, WorkerStateView::Waiting);
                    lemma_total_update(
                        engine.workers,
                        worker,
                        WorkerStateView::Waiting,
                        work_weight(),
                    );
                    lemma_worker_step_inv(engine, worker, WorkerEventView::Ready);
                    lemma_check_ends_inv(engine, worker, status);
                    lemma_receive_progress(middle, worker);
                },
            },
        },
    }
}

/// The pool winds down in bounded time: from a closed channel on, the
/// workers cannot take more steps than there is work left, whatever the
/// probes return and in whatever order the workers move.  Each step uses up
/// at least one unit of the work left.
pub proof fn lemma_drain_is_bounded(engine: EngineView, inputs: Seq<EngineInput>)
    requires
        engine.inv(),
        engine.tasks.closed,
        engine.only_moves_workers(inputs),
    ensures
        inputs.len() + engine.run(inputs).work_left() <= engine.work_left(),
        engine.run(inputs).tasks.closed,
    decreases inputs.len(),
{
    if inputs.len() > 0 {
        let earlier = inputs.drop_last();
        lemma_drain_is_bounded(engine, earlier);
        lemma_run_inv(engine, earlier);
        match inputs.last() {
            EngineInput::Step(worker, event) => {
                lemma_closed_channel_drains(engine.run(earlier), worker, event);
            },
            _ => {},
        }
    }
}

/// The engine stays sound when a check under way ends and its worker goes
/// back to waiting.
pub proof fn lemma_check_ends_inv(engine: EngineView, worker: int, status: WebsiteStatusView)
    requires
        engine.inv(),
        0 <= worker < engine.workers.len(),
        engine.workers[worker] matches WorkerStateView::Checking(check) && check.url == status.url,
        status.status is Err ==> status.response_time == 0,
    ensures
        (EngineView { results: engine.results.push(status), ..engine }).with_worker(
            worker,
            WorkerStateView::Waiting,
        ).inv(),
{
    let recorded = EngineView { results: engine.results.push(status), ..engine };
    let after = recorded.with_worker(worker, WorkerStateView::Waiting);
    lemma_total_update(engine.workers, worker, WorkerStateView::Waiting, probing_weight());
    lemma_with_live_worker(recorded, worker, WorkerStateView::Waiting);
    assert forall|url: Seq<char>| #[trigger]
        after.sent_times(url) == after.waiting_times(url) + after.probing_times(url)
            + after.reported_times(url) by {
        assert(engine.sent_times(url) == engine.waiting_times(url) + engine.probing_times(url)
            + engine.reported_times(url));
        lemma_total_update(engine.workers, worker, WorkerStateView::Waiting, probes(url));
        lemma_total_push(engine.results, status, reports(url));
    }
    lemma_no_new_stop(engine, recorded);
}

/// A run in which no shutdown request is sent accepts none.
pub proof fn lemma_no_shutdown_run(engine: EngineView, inputs: Seq<EngineInput>)
    requires
        engine.shutdowns == 0,
        no_shutdown_sent(inputs),
    ensures
        engine.run(inputs).shutdowns == 0,
    decreases inputs.len(),
{
    if inputs.len() > 0 {
        let earlier = inputs.drop_last();
        assert forall|i: int| 0 <= i < earlier.len() implies !((
        #[trigger] earlier[i]) matches EngineInput::Send(MonitorMessageView::Shutdown)) by {
            assert(earlier[i] == inputs[i]);
        }
        lemma_no_shutdown_run(engine, earlier);
        assert(inputs[inputs.len() - 1] == inputs.last());
    }
}

/// Every run that ends with all workers stopped, and in which no shutdown
/// request was sent, has reported everything: as many records as accepted
/// URLs, and for each URL as many records as the number of times it was
/// accepted.  This holds for every pool size and every order of events.
pub proof fn lemma_run_reports_everything(
    worker_threads: nat,
    timeout: Duration,
    max_retries: nat,
    inputs: Seq<EngineInput>,
    url: Seq<char>,
)
    requires
        worker_threads >= 1,
        max_retries >= 1,
        no_shutdown_sent(inputs),
        EngineView::initial(worker_threads, timeout, max_retries).run(inputs).all_stopped(),
    ensures
        ({
            let end = EngineView::initial(worker_threads, timeout, max_retries).run(inputs);
            &&& end.results.len() == end.accepted.len()
            &&& end.reported_times(url) == end.sent_times(url)
            &&& end.workers.len() == worker_threads
            &&& end.active_probes() == 0
        }),
{
    let start = EngineView::initial(worker_threads, timeout, max_retries);
    lemma_initial_inv(worker_threads, timeout, max_retries);
    lemma_run_inv(start, inputs);
    lemma_no_shutdown_run(start, inputs);
    lemma_all_reported(start.run(inputs));
    lemma_every_url_reported(start.run(inputs), url);
}

/// Whether every record is one of failure.
pub open spec fn all_failed(results: Seq<WebsiteStatusView>) -> bool {
    forall|i: int| 0 <= i < results.len() ==> (#[trigger] results[i]).status is Err
}

/// Where every record is one of failure, there are as many failures as
/// records.
pub proof fn lemma_all_failed_count(results: Seq<WebsiteStatusView>)
    requires
        all_failed(results),
    ensures
        failures(results) == results.len(),
    decreases results.len(),
{
    if results.len() > 0 {
        assert forall|i: int| 0 <= i < results.drop_last().len() implies (
        #[trigger] results.drop_last()[i]).status is Err by {
            assert(results.drop_last()[i] == results[i]);
        }
        lemma_all_failed_count(results.drop_last());
        assert(results[results.len() - 1].status is Err);
    }
}

/// While every probe fails and no shutdown request is sent, every record is
/// one of failure and no shutdown request has been accepted.
pub proof fn lemma_failing_run(engine: EngineView, inputs: Seq<EngineInput>)
    requires
        engine.inv(),
        all_failed(engine.results),
        engine.shutdowns == 0,
        every_probe_fails(inputs),
        no_shutdown_sent(inputs),
    ensures
        all_failed(engine.run(inputs).results),
        engine.run(inputs).shutdowns == 0,
        engine.run(inputs).inv(),
    decreases inputs.len(),
{
    if inputs.len() > 0 {
        let earlier = inputs.drop_last();
        assert forall|i: int| 0 <= i < earlier.len() implies ((
        #[trigger] earlier[i]) matches EngineInput::Step(_, WorkerEventView::Probed(report))
            ==> report.outcome is Err) by {
            assert(earlier[i] == inputs[i]);
        }
        assert forall|i: int| 0 <= i < earlier.len() implies !((
        #[trigger] earlier[i]) matches EngineInput::Send(MonitorMessageView::Shutdown)) by {
            assert(earlier[i] == inputs[i]);
        }
        lemma_failing_run(engine, earlier);
        let before = engine.run(earlier);
        let input = inputs[inputs.len() - 1];
        assert(input == inputs.last());
        lemma_apply_inv(before, input);
        match input {
            EngineInput::Send(message) => {},
            EngineInput::Close => {},
            EngineInput::Join(worker) => {},
            EngineInput::Step(worker, event) => {
                if 0 <= worker < before.workers.len() {
                    match before.workers[worker] {
                        WorkerStateView::Checking(check) => match event {
                            WorkerEventView::Ready => {},
                            WorkerEventView::Probed(report) => {
                                assert(report.outcome is Err);
                            },
                        },
                        _ => {},
                    }
                }
            },
        }
    }
}

/// Runs in which no probe ever gets a response agree on their failures.
///
/// Take two runs from one freshly set up engine, each without shutdown
/// requests, in each of which every probe fails and every worker has stopped
/// at the end.  Each run ends with exactly one record of failure per URL it
/// accepted; so if the two accepted equally many URLs, they report equally
/// many failures.
pub proof fn lemma_failing_runs_agree(
    start: EngineView,
    first: Seq<EngineInput>,
    second: Seq<EngineInput>,
)
    requires
        start.inv(),
        start.results.len() == 0,
        start.shutdowns == 0,
        every_probe_fails(first),
        every_probe_fails(second),
        no_shutdown_sent(first),
        no_shutdown_sent(second),
        start.run(first).all_stopped(),
        start.run(second).all_stopped(),
    ensures
        failures(start.run(first).results) == start.run(first).accepted.len(),
        failures(start.run(second).results) == start.run(second).accepted.len(),
        start.run(first).accepted.len() == start.run(second).accepted.len() ==> failures(
            start.run(first).results,
        ) == failures(start.run(second).results),
{
    lemma_failing_run(start, first);
    lemma_failing_run(start, second);
    lemma_all_reported(start.run(first));
    lemma_all_reported(start.run(second));
    lemma_all_failed_count(start.run(first).results);
    lemma_all_failed_count(start.run(second).results);
}

} // verus!
