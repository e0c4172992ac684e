use vstd::prelude::*;

use crate::error::MailSendError;
use crate::request::MailRequest;
use crate::smtp_wrapper::{MailResponse, MailSendResult};

verus! {

/// The bounded ingress queue between the submitting handles and the service:
/// first in, first out, with a fixed capacity. A full queue makes a producer
/// wait rather than drop its request; a closed queue takes nothing more, and
/// once it is also empty the service knows the work has drained.
pub struct MailQueue<T> {
    pub cap: usize,
    pub items: Vec<T>,
    pub closed: bool,
}

/// What submitting a request to the queue produced.
#[derive(Debug, PartialEq, Eq)]
pub enum EnqueueOutcome {
    /// The request was queued.
    Accepted,
    /// The queue is at capacity; the producer suspends and tries again.
    Full,
    /// The queue was closed: the service is gone, nothing can be queued.
    Disconnected,
}

/// What consuming from the queue produced.
#[derive(Debug, PartialEq, Eq)]
pub enum DequeueOutcome<T> {
    /// The oldest queued element.
    Item(T),
    /// Nothing queued right now; more may still come.
    Empty,
    /// The queue is closed and empty: no element will ever come again.
    Drained,
}

impl<T> MailQueue<T> {
    /// The queue never holds more than its capacity.
    pub open spec fn wf(&self) -> bool {
        self.items@.len() <= self.cap
    }

    /// An open, empty queue of the given capacity.
    pub fn new(cap: usize) -> (r: Self)
        ensures
            r.wf(),
            r.cap == cap,
            r.items@.len() == 0,
            !r.closed,
    {
        MailQueue { cap, items: Vec::new(), closed: false }
    }

    /// Submits one element: appended at the back when the queue is open and
    /// has room; refused without effect when it is full (the producer waits)
    /// or closed (the consumer is gone).
    pub fn enqueue(&mut self, item: T) -> (r: EnqueueOutcome)
        requires
            old(self).wf(),
        ensures
            final(self).wf(),
            final(self).cap == old(self).cap,
            final(self).closed == old(self).closed,
            old(self).closed ==> r == EnqueueOutcome::Disconnected && *final(self) == *old(self),
            !old(self).closed && old(self).items@.len() >= old(self).cap ==> r
                == EnqueueOutcome::Full && *final(self) == *old(self),
            !old(self).closed && old(self).items@.len() < old(self).cap ==> r
                == EnqueueOutcome::Accepted && final(self).items@ == old(self).items@.push(item),
    {
        if self.closed {
            EnqueueOutcome::Disconnected
        } else if self.items.len() >= self.cap {
            EnqueueOutcome::Full
        } else {
            self.items.push(item);
            EnqueueOutcome::Accepted
        }
    }

    /// Consumes the oldest element. An open empty queue asks the consumer to
    /// wait; a closed empty queue reports the work drained for good.
    pub fn dequeue(&mut self) -> (r: DequeueOutcome<T>)
        requires
            old(self).wf(),
        ensures
            final(self).wf(),
            final(self).cap == old(self).cap,
            final(self).closed == old(self).closed,
            old(self).items@.len() > 0 ==> match r {
                DequeueOutcome::Item(item) => item == old(self).items@[0] && final(self).items@
                    == old(self).items@.drop_first(),
                _ => false,
            },
            old(self).items@.len() == 0 ==> *final(self) == *old(self) && r == (if old(
                self,
            ).closed {
                DequeueOutcome::<T>::Drained
            } else {
                DequeueOutcome::<T>::Empty
            }),
    {
        if self.items.len() > 0 {
            let item = self.items.remove(0);
            DequeueOutcome::Item(item)
        } else if self.closed {
            DequeueOutcome::Drained
        } else {
            DequeueOutcome::Empty
        }
    }

    /// Closes the ingress: nothing more can be queued; what is queued can
    /// still be consumed.
    pub fn close(&mut self)
        requires
            old(self).wf(),
        ensures
            final(self).wf(),
            final(self).closed,
            final(self).cap == old(self).cap,
            final(self).items == old(self).items,
    {
        self.closed = true;
    }

    /// A non-consuming check for pending work.
    pub fn has_pending(&self) -> (r: bool)
        ensures
            r == (self.items@.len() > 0),
    {
        self.items.len() > 0
    }

}

/// How a submission attempt resolves for its caller.
#[derive(Debug, PartialEq, Eq)]
pub enum EnqueuePollResult {
    /// The queue is at capacity: the caller suspends and tries again.
    NotReady,
    /// The request is queued; the caller now holds the reply reader.
    Enqueued,
    /// Submission failed for good.
    Failed(MailSendError),
}

/// A capability to submit mails to a service: the producing end of the
/// ingress queue. Here the handle owns the queue while requests are being
/// submitted; `into_inner` then hands the queue over to whatever drives the
/// service, as the consuming end.
pub struct MailServiceHandle {
    pub queue: MailQueue<MailRequest>,
}

impl MailServiceHandle {
    /// Wraps the producing end of a service's ingress queue.
    pub fn new(queue: MailQueue<MailRequest>) -> (r: Self)
        ensures
            r.queue == queue,
    {
        MailServiceHandle { queue }
    }

    /// Submits one mail. A full queue suspends the caller rather than drop
    /// the request; a closed queue means the service is gone, and the
    /// submission fails with `DriverDropped` — the one and only outcome such
    /// a caller observes.
    pub fn send_mail(&mut self, mail_request: MailRequest) -> (r: EnqueuePollResult)
        requires
            old(self).queue.wf(),
        ensures
            final(self).queue.wf(),
            final(self).queue.cap == old(self).queue.cap,
            final(self).queue.closed == old(self).queue.closed,
            old(self).queue.closed ==> r == EnqueuePollResult::Failed(MailSendError::DriverDropped)
                && *final(self) == *old(self),
            !old(self).queue.closed && old(self).queue.items@.len() >= old(self).queue.cap ==> r
                == EnqueuePollResult::NotReady && *final(self) == *old(self),
            !old(self).queue.closed && old(self).queue.items@.len() < old(self).queue.cap ==> r
                == EnqueuePollResult::Enqueued && final(self).queue.items@ == old(
                self,
            ).queue.items@.push(mail_request),
    {
        match self.queue.enqueue(mail_request) {
            EnqueueOutcome::Accepted => EnqueuePollResult::Enqueued,
            EnqueueOutcome::Full => EnqueuePollResult::NotReady,
            EnqueueOutcome::Disconnected => EnqueuePollResult::Failed(
                MailSendError::DriverDropped,
            ),
        }
    }

    /// Gives the queue up, for the consuming side to drain.
    pub fn into_inner(self) -> (r: MailQueue<MailRequest>)
        ensures
            r == self.queue,
    {
        self.queue
    }
}

/// What one poll of a reply slot produced: nothing yet, the outcome the
/// service wrote, or the discovery that the service dropped the slot without
/// writing.
#[derive(Debug, PartialEq, Eq)]
pub enum ResponsePollEvent {
    NotReady,
    Delivered(MailSendResult),
    SenderDropped,
}

/// How an awaited reply resolves for its caller.
#[derive(Debug, PartialEq, Eq)]
pub enum ResponsePollResult {
    /// Still waiting for the outcome.
    NotReady,
    /// The mail was delivered.
    Done(MailResponse),
    /// The mail was not delivered; this error says why.
    Failed(MailSendError),
}

/// How an awaited reply resolves: the written outcome is handed through
/// verbatim, and a slot dropped unwritten resolves to `CanceledByDriver` — so
/// a caller always observes exactly one outcome per request.
pub fn poll_response_step(event: ResponsePollEvent) -> (r: ResponsePollResult)
    ensures
        event == ResponsePollEvent::NotReady ==> r == ResponsePollResult::NotReady,
        event == ResponsePollEvent::SenderDropped ==> r == ResponsePollResult::Failed(
            MailSendError::CanceledByDriver,
        ),
        match event {
            ResponsePollEvent::Delivered(res) => r == match res {
                Ok(ack) => ResponsePollResult::Done(ack),
                Err(e) => ResponsePollResult::Failed(e),
            },
            _ => true,
        },
{
    match event {
        ResponsePollEvent::NotReady => ResponsePollResult::NotReady,
        ResponsePollEvent::Delivered(res) => match res {
            Ok(ack) => ResponsePollResult::Done(ack),
            Err(e) => ResponsePollResult::Failed(e),
        },
        ResponsePollEvent::SenderDropped => ResponsePollResult::Failed(
            MailSendError::CanceledByDriver,
        ),
    }
}

} // verus!
