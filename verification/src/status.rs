//! The records that travel through the engine: requests going in, status
//! reports coming out.
use vstd::prelude::*;

verus! {

/// A target to probe.  The engine never looks inside it: a malformed URL
/// simply shows up as a failed probe.
pub type Url = String;

/// One item on the task channel: a URL to check, or a signal for the worker
/// that receives it to stop.
#[derive(Debug, PartialEq, Eq)]
pub enum MonitorMessage {
    CheckUrl(Url),
    Shutdown,
}

/// The mathematical value of a [`MonitorMessage`].
pub enum MonitorMessageView {
    CheckUrl(Seq<char>),
    Shutdown,
}

impl View for MonitorMessage {
    type V = MonitorMessageView;

    open spec fn view(&self) -> MonitorMessageView {
        match self {
            MonitorMessage::CheckUrl(url) => MonitorMessageView::CheckUrl(url@),
            MonitorMessage::Shutdown => MonitorMessageView::Shutdown,
        }
    }
}

impl Clone for MonitorMessage {
    fn clone(&self) -> (copy: MonitorMessage)
        ensures
            copy == *self,
    {
        match self {
            MonitorMessage::CheckUrl(url) => MonitorMessage::CheckUrl(url.clone()),
            MonitorMessage::Shutdown => MonitorMessage::Shutdown,
        }
    }
}

/// The mathematical value of what one probe returned: a status code, or the
/// text of the error.
pub open spec fn outcome_view(outcome: Result<u16, String>) -> Result<u16, Seq<char>> {
    match outcome {
        Ok(code) => Ok(code),
        Err(description) => Err(description@),
    }
}

/// The final word on one URL.
///
/// `response_time` is in nanoseconds; `timestamp` is the wall-clock moment at
/// which the check ended, in nanoseconds since the Unix epoch.
#[derive(Debug, PartialEq, Eq)]
pub struct WebsiteStatus {
    pub url: String,
    pub status: Result<u16, String>,
    pub response_time: u128,
    pub timestamp: u128,
}

/// The mathematical value of a [`WebsiteStatus`].
pub struct WebsiteStatusView {
    pub url: Seq<char>,
    pub status: Result<u16, Seq<char>>,
    pub response_time: nat,
    pub timestamp: nat,
}

impl View for WebsiteStatus {
    type V = WebsiteStatusView;

    open spec fn view(&self) -> WebsiteStatusView {
        WebsiteStatusView {
            url: self.url@,
            status: outcome_view(self.status),
            response_time: self.response_time as nat,
            timestamp: self.timestamp as nat,
        }
    }
}

/// The mathematical value of a list of records.
pub open spec fn status_views(records: Seq<WebsiteStatus>) -> Seq<WebsiteStatusView> {
    records.map_values(|record: WebsiteStatus| record@)
}

/// Copies what one probe returned.
pub fn clone_outcome(outcome: &Result<u16, String>) -> (copy: Result<u16, String>)
    ensures
        copy == *outcome,
{
    match outcome {
        Ok(code) => Ok(*code),
        Err(description) => Err(description.clone()),
    }
}

impl Clone for WebsiteStatus {
    fn clone(&self) -> (copy: WebsiteStatus)
        ensures
            copy == *self,
    {
        WebsiteStatus {
            url: self.url.clone(),
            status: clone_outcome(&self.status),
            response_time: self.response_time,
            timestamp: self.timestamp,
        }
    }
}

impl WebsiteStatus {
    /// Whether the check ended with a response from the site.
    pub fn success(&self) -> (yes: bool)
        ensures
            yes == (self@.status is Ok),
    {
        match &self.status {
            Ok(_) => true,
            Err(_) => false,
        }
    }

    /// The status code of a successful check.
    pub fn status_code(&self) -> (code: Option<u16>)
        ensures
            code == match self@.status {
                Ok(c) => Some(c),
                Err(_) => None::<u16>,
            },
    {
        match &self.status {
            Ok(c) => Some(*c),
            Err(_) => None,
        }
    }
}

} // verus!
