//! The task channel: a first-in-first-out queue of requests that can be
//! closed.  Closing says "no more work"; what was sent before stays to be
//! received.
use crate::status::{MonitorMessage, MonitorMessageView};
use std::collections::VecDeque;
use vstd::prelude::*;

verus! {

/// The queue of requests between the dispatcher and the workers.
#[derive(Debug)]
pub struct TaskChannel {
    queue: VecDeque<MonitorMessage>,
    closed: bool,
}

/// The mathematical value of a [`TaskChannel`]: the requests that wait, the
/// oldest first, and whether the sending side has been closed.
pub struct TaskChannelView {
    pub pending: Seq<MonitorMessageView>,
    pub closed: bool,
}

/// What a worker gets when it asks the channel for work.
#[derive(Debug, PartialEq, Eq)]
pub enum Received {
    /// The oldest waiting request.
    Message(MonitorMessage),
    /// Nothing waits, but more may come.
    Empty,
    /// Nothing waits and nothing will come.
    Closed,
}

/// The mathematical value of a [`Received`].
pub enum ReceivedView {
    Message(MonitorMessageView),
    Empty,
    Closed,
}

impl View for Received {
    type V = ReceivedView;

    open spec fn view(&self) -> ReceivedView {
        match self {
            Received::Message(message) => ReceivedView::Message(message@),
            Received::Empty => ReceivedView::Empty,
            Received::Closed => ReceivedView::Closed,
        }
    }
}

impl TaskChannelView {
    /// The channel after a request has been sent.
    pub open spec fn sent(self, message: MonitorMessageView) -> TaskChannelView {
        if self.closed {
            self
        } else {
            TaskChannelView { pending: self.pending.push(message), closed: false }
        }
    }

    /// What a receive returns.
    pub open spec fn front(self) -> ReceivedView {
        if self.pending.len() > 0 {
            ReceivedView::Message(self.pending[0])
        } else if self.closed {
            ReceivedView::Closed
        } else {
            ReceivedView::Empty
        }
    }

    /// The channel after a receive.
    pub open spec fn received(self) -> TaskChannelView {
        if self.pending.len() > 0 {
            TaskChannelView {
                pending: self.pending.subrange(1, self.pending.len() as int),
                closed: self.closed,
            }
        } else {
            self
        }
    }
}

impl View for TaskChannel {
    type V = TaskChannelView;

    closed spec fn view(&self) -> TaskChannelView {
        TaskChannelView {
            pending: self.queue@.map_values(|message: MonitorMessage| message@),
            closed: self.closed,
        }
    }
}

impl TaskChannel {
    /// An open channel with nothing in it.
    pub fn new() -> (channel: TaskChannel)
        ensures
            channel@ == (TaskChannelView { pending: Seq::empty(), closed: false }),
    {
        let channel = TaskChannel { queue: VecDeque::new(), closed: false };
        assert(channel@.pending =~= Seq::empty());
        channel
    }

    /// Puts `message` behind everything that waits.  A closed channel takes
    /// nothing and hands the message back.
    pub fn send(&mut self, message: MonitorMessage) -> (refused: Result<(), MonitorMessage>)
        ensures
            final(self)@ == old(self)@.sent(message@),
            old(self)@.closed ==> refused == Err::<(), MonitorMessage>(message),
            !old(self)@.closed ==> refused is Ok,
    {
        if self.closed {
            Err(message)
        } else {
            let ghost before = self.queue@;
            self.queue.push_back(message);
            assert(self.queue@.map_values(|m: MonitorMessage| m@) =~= before.map_values(
                |m: MonitorMessage| m@,
            ).push(message@));
            Ok(())
        }
    }

    /// Closes the sending side.  What waits can still be received.
    pub fn close(&mut self)
        ensures
            final(self)@ == (TaskChannelView { pending: old(self)@.pending, closed: true }),
    {
        self.closed = true;
    }

    /// Takes the oldest waiting request, if there is one; otherwise tells an
    /// open channel from a closed one.
    pub fn recv(&mut self) -> (got: Received)
        ensures
            got@ == old(self)@.front(),
            final(self)@ == old(self)@.received(),
    {
        let ghost before = self.queue@;
        match self.queue.pop_front() {
            Some(message) => {
                assert(self.queue@.map_values(|m: MonitorMessage| m@) =~= before.map_values(
                    |m: MonitorMessage| m@,
                ).subrange(1, before.len() as int));
                Received::Message(message)
            },
            None => {
                if self.closed {
                    Received::Closed
                } else {
                    Received::Empty
                }
            },
        }
    }

    /// The number of waiting requests.
    pub fn len(&self) -> (waiting: usize)
        ensures
            waiting == self@.pending.len(),
    {
        self.queue.len()
    }

    /// Whether the sending side has been closed.
    pub fn is_closed(&self) -> (closed: bool)
        ensures
            closed == self@.closed,
    {
        self.closed
    }
}

} // verus!
