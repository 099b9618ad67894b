//! The retry policy: how many times a URL is probed and what is reported.
//!
//! A check is a small state machine.  It starts with a budget of attempts.
//! Each probe is reported to it; the first response ends the check with
//! success, a failed probe uses up one attempt, and the failure that uses up
//! the last attempt ends the check with that probe's error.  There is no
//! back-off between attempts.
use crate::config::ConfigError;
use crate::status::{outcome_view, WebsiteStatus, WebsiteStatusView};
use vstd::prelude::*;

verus! {

/// What the caller observed of one probe.
///
/// `elapsed` is the time since the first attempt of this check began, in
/// nanoseconds, read when the probe returned; `finished_at` is the wall
/// clock at that moment, in nanoseconds since the Unix epoch.
#[derive(Debug, PartialEq, Eq)]
pub struct ProbeReport {
    pub outcome: Result<u16, String>,
    pub elapsed: u128,
    pub finished_at: u128,
}

/// The mathematical value of a [`ProbeReport`].
pub struct ProbeReportView {
    pub outcome: Result<u16, Seq<char>>,
    pub elapsed: nat,
    pub finished_at: nat,
}

impl View for ProbeReport {
    type V = ProbeReportView;

    open spec fn view(&self) -> ProbeReportView {
        ProbeReportView {
            outcome: outcome_view(self.outcome),
            elapsed: self.elapsed as nat,
            finished_at: self.finished_at as nat,
        }
    }
}

/// A check in progress: the URL, the attempt budget and the number of
/// attempts that have failed so far.
#[derive(Debug, PartialEq, Eq)]
pub struct RetryState {
    url: String,
    max_retries: u8,
    retries: u8,
}

/// The mathematical value of a [`RetryState`].
pub struct RetryStateView {
    pub url: Seq<char>,
    pub max_retries: nat,
    pub retries: nat,
}

impl RetryStateView {
    /// A check in progress always has an attempt left.
    pub open spec fn wf(self) -> bool {
        self.retries < self.max_retries
    }

    /// The attempts that the check may still make.
    pub open spec fn attempts_left(self) -> nat {
        (self.max_retries - self.retries) as nat
    }
}

/// Where a check stands after a probe.
#[derive(Debug, PartialEq, Eq)]
pub enum RetryStep {
    /// The probe failed and the budget allows another attempt.
    Retry(RetryState),
    /// The check is over.
    Done(WebsiteStatus),
}

/// The mathematical value of a [`RetryStep`].
pub enum RetryStepView {
    Retry(RetryStateView),
    Done(WebsiteStatusView),
}

impl View for RetryStep {
    type V = RetryStepView;

    open spec fn view(&self) -> RetryStepView {
        match self {
            RetryStep::Retry(state) => RetryStepView::Retry(state@),
            RetryStep::Done(status) => RetryStepView::Done(status@),
        }
    }
}

/// The record of a check that ended with a response: the time to that
/// response is reported.
pub open spec fn success_status(url: Seq<char>, code: u16, report: ProbeReportView)
    -> WebsiteStatusView {
    WebsiteStatusView {
        url,
        status: Ok(code),
        response_time: report.elapsed,
        timestamp: report.finished_at,
    }
}

/// The record of a check that used up its attempts: it carries the error of
/// the last probe, and its response time is zero, since no response ever
/// came.
pub open spec fn failure_status(url: Seq<char>, description: Seq<char>, report: ProbeReportView)
    -> WebsiteStatusView {
    WebsiteStatusView {
        url,
        status: Err(description),
        response_time: 0,
        timestamp: report.finished_at,
    }
}

/// The policy itself: the effect of one probe on a check.
pub open spec fn probe_step(state: RetryStateView, report: ProbeReportView) -> RetryStepView {
    match report.outcome {
        Ok(code) => RetryStepView::Done(success_status(state.url, code, report)),
        Err(description) => if state.retries + 1 < state.max_retries {
            RetryStepView::Retry(
                RetryStateView {
                    url: state.url,
                    max_retries: state.max_retries,
                    retries: state.retries + 1,
                },
            )
        } else {
            RetryStepView::Done(failure_status(state.url, description, report))
        },
    }
}

/// A check followed over a sequence of probes.
pub struct CheckTrace {
    /// The probes that were made.
    pub probes: nat,
    /// Where the check stood after the last of them.
    pub end: RetryStepView,
}

/// Feeds `reports` to a check one after another and stops at the report that
/// ends it: reports behind that one stand for probes that are never made.
pub open spec fn run_check(state: RetryStateView, reports: Seq<ProbeReportView>) -> CheckTrace
    decreases reports.len(),
{
    if reports.len() == 0 {
        CheckTrace { probes: 0, end: RetryStepView::Retry(state) }
    } else {
        match probe_step(state, reports[0]) {
            RetryStepView::Done(status) => CheckTrace {
                probes: 1,
                end: RetryStepView::Done(status),
            },
            RetryStepView::Retry(next) => {
                let rest = run_check(next, reports.subrange(1, reports.len() as int));
                CheckTrace { probes: rest.probes + 1, end: rest.end }
            },
        }
    }
}

/// A check never makes more probes than it has attempts left, nor more than
/// there are reports; and while it is not over it has made one probe per
/// report and still has an attempt left.
pub proof fn lemma_probes_within_budget(state: RetryStateView, reports: Seq<ProbeReportView>)
    requires
        state.wf(),
    ensures
        run_check(state, reports).probes <= state.attempts_left(),
        run_check(state, reports).probes <= reports.len(),
        run_check(state, reports).end matches RetryStepView::Retry(later) ==> later.wf()
            && later.url == state.url && later.max_retries == state.max_retries && later.retries
            == state.retries + reports.len() && run_check(state, reports).probes == reports.len(),
    decreases reports.len(),
{
    if reports.len() > 0 {
        match probe_step(state, reports[0]) {
            RetryStepView::Done(_) => {},
            RetryStepView::Retry(next) => {
                lemma_probes_within_budget(next, reports.subrange(1, reports.len() as int));
            },
        }
    }
}

/// When every probe fails, the check makes exactly as many probes as it had
/// attempts left and ends in failure with the error of the last of them and
/// a response time of zero.
pub proof fn lemma_failures_exhaust_budget(state: RetryStateView, reports: Seq<ProbeReportView>)
    requires
        state.wf(),
        reports.len() >= state.attempts_left(),
        forall|i: int| 0 <= i < state.attempts_left() ==> (#[trigger] reports[i]).outcome is Err,
    ensures
        run_check(state, reports).probes == state.attempts_left(),
        run_check(state, reports).end == RetryStepView::Done(
            failure_status(
                state.url,
                reports[state.attempts_left() - 1].outcome->Err_0,
                reports[state.attempts_left() - 1],
            ),
        ),
    decreases reports.len(),
{
    let rest = reports.subrange(1, reports.len() as int);
    assert(reports[0].outcome is Err);
    match probe_step(state, reports[0]) {
        RetryStepView::Done(_) => {},
        RetryStepView::Retry(next) => {
            assert forall|i: int| 0 <= i < next.attempts_left() implies (
            #[trigger] rest[i]).outcome is Err by {
                assert(rest[i] == reports[i + 1]);
            }
            lemma_failures_exhaust_budget(next, rest);
            assert(rest[next.attempts_left() - 1] == reports[state.attempts_left() - 1]);
        },
    }
}

/// When the probes before the `first`-th fail and that one gets a response
/// while the budget still allows it, the check ends in success with that
/// status code and the time to that response, after `first + 1` probes, which
/// is within the budget; no later probe is made.
pub proof fn lemma_first_response_ends_check(
    state: RetryStateView,
    reports: Seq<ProbeReportView>,
    first: int,
)
    requires
        state.wf(),
        0 <= first < reports.len(),
        first < state.attempts_left(),
        forall|i: int| 0 <= i < first ==> (#[trigger] reports[i]).outcome is Err,
        reports[first].outcome is Ok,
    ensures
        run_check(state, reports).probes == first + 1,
        run_check(state, reports).probes <= state.attempts_left(),
        run_check(state, reports).end == RetryStepView::Done(
            success_status(state.url, reports[first].outcome->Ok_0, reports[first]),
        ),
    decreases reports.len(),
{
    if first > 0 {
        let rest = reports.subrange(1, reports.len() as int);
        assert(reports[0].outcome is Err);
        match probe_step(state, reports[0]) {
            RetryStepView::Done(_) => {},
            RetryStepView::Retry(next) => {
                assert forall|i: int| 0 <= i < first - 1 implies (
                #[trigger] rest[i]).outcome is Err by {
                    assert(rest[i] == reports[i + 1]);
                }
                assert(rest[first - 1] == reports[first]);
                lemma_first_response_ends_check(next, rest, first - 1);
            },
        }
    }
}

impl View for RetryState {
    type V = RetryStateView;

    closed spec fn view(&self) -> RetryStateView {
        RetryStateView {
            url: self.url@,
            max_retries: self.max_retries as nat,
            retries: self.retries as nat,
        }
    }
}

impl RetryState {
    #[verifier::type_invariant]
    pub closed spec fn inv(self) -> bool {
        self.retries < self.max_retries
    }

    /// Begins a check of `url` with a budget of `max_retries` attempts.  A
    /// budget of zero is refused: every URL is attempted at least once.
    pub fn new(url: String, max_retries: u8) -> (begun: Result<RetryState, ConfigError>)
        ensures
            max_retries == 0 ==> begun == Err::<RetryState, ConfigError>(ConfigError::NoAttempts),
            max_retries >= 1 ==> begun is Ok && begun->Ok_0@ == (RetryStateView {
                url: url@,
                max_retries: max_retries as nat,
                retries: 0,
            }),
    {
        if max_retries == 0 {
            Err(ConfigError::NoAttempts)
        } else {
            Ok(RetryState { url, max_retries, retries: 0 })
        }
    }

    /// Takes the report of one probe and says where the check stands.
    pub fn on_probe(&self, report: ProbeReport) -> (step: RetryStep)
        ensures
            self@.wf(),
            step@ == probe_step(self@, report@),
    {
        proof {
            use_type_invariant(self);
        }
        match report.outcome {
            Ok(code) => RetryStep::Done(
                WebsiteStatus {
                    url: self.url.clone(),
                    status: Ok(code),
                    response_time: report.elapsed,
                    timestamp: report.finished_at,
                },
            ),
            Err(description) => {
                if self.retries + 1 < self.max_retries {
                    RetryStep::Retry(
                        RetryState {
                            url: self.url.clone(),
                            max_retries: self.max_retries,
                            retries: self.retries + 1,
                        },
                    )
                } else {
                    RetryStep::Done(
                        WebsiteStatus {
                            url: self.url.clone(),
                            status: Err(description),
                            response_time: 0,
                            timestamp: report.finished_at,
                        },
                    )
                }
            },
        }
    }

    /// The URL under check.
    pub fn url(&self) -> (url: &String)
        ensures
            url@ == self@.url,
            self@.wf(),
    {
        proof {
            use_type_invariant(self);
        }
        &self.url
    }

    /// The attempt budget that the check began with.
    pub fn max_retries(&self) -> (budget: u8)
        ensures
            budget == self@.max_retries,
            self@.wf(),
    {
        proof {
            use_type_invariant(self);
        }
        self.max_retries
    }

    /// The attempts that have failed so far.
    pub fn retries(&self) -> (failed: u8)
        ensures
            failed == self@.retries,
            self@.wf(),
    {
        proof {
            use_type_invariant(self);
        }
        self.retries
    }
}

} // verus!
