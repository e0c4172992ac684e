use vstd::prelude::*;
use vstd::pervasive::arbitrary;

use crate::encode::{MailEnvelop, SendOutcome};
use crate::error::{ConnectError, MailSendError};
use crate::handle::{DequeueOutcome, MailQueue};
use crate::smtp_wrapper::{
    close_spec, event_fits, poll_state_spec, CompletionState, ConnEvent, ConnectionState,
    MailResponse, MailSendResult, PollStateResult,
};
use crate::stop_handle::StopServiceHandle;

verus! {

/// The configuration a service is set up with. The connect operation and the
/// encoding context live with the surrounding program; what the driver's
/// logic consumes are the two tunables.
#[derive(Clone, Copy, Debug, PartialEq, Eq)]
pub struct SmtpSetup {
    /// How many mails are encoded at the same time.
    pub encoding_concurrency: usize,
    /// The capacity of the queue between the handles and the service.
    pub enqueue_buffer_size: usize,
}

impl SmtpSetup {
    /// The default setup: sixteen concurrent encodings, a queue of sixteen.
    pub fn new() -> (r: Self)
        ensures
            r.encoding_concurrency == 16,
            r.enqueue_buffer_size == 16,
    {
        SmtpSetup { encoding_concurrency: 16, enqueue_buffer_size: 16 }
    }

    /// How many mails may be encoded at the same time.
    pub fn mail_encoding_buffer_size(&self) -> (r: usize)
        ensures
            r == self.encoding_concurrency,
    {
        self.encoding_concurrency
    }

    /// The capacity of the queue between the handles and the service.
    pub fn mail_enqueuing_buffer_size(&self) -> (r: usize)
        ensures
            r == self.enqueue_buffer_size,
    {
        self.enqueue_buffer_size
    }
}

/// The per-request outcome of the encoding pipeline, as the driver receives
/// it: a wire-ready mail, or the failure that is owed to that request alone.
pub type MailEncodingResult = Result<MailEnvelop, MailSendError>;

/// What polling the encoding pipeline's output produced.
#[derive(Debug, PartialEq, Eq)]
pub enum QueueEvent {
    /// Nothing ready yet.
    NotReady,
    /// All handles are gone and everything queued has been handed out.
    Closed,
    /// The next finished request, with its encoding outcome.
    Item(MailEncodingResult),
}

/// What one driving step tells the surrounding program to do.
#[derive(Debug, PartialEq, Eq)]
pub struct ServiceActions {
    /// Deliver this outcome to the reply slot of the request whose send was
    /// in flight.
    pub deliver_pending: Option<MailSendResult>,
    /// Answer the reply slot of the item just taken off the queue with this
    /// error; its mail never reaches the session.
    pub reject_item: Option<MailSendError>,
}

/// How one driving step leaves the loop.
#[derive(Debug, PartialEq, Eq)]
pub enum ServicePollResult {
    /// Loop again at once.
    Continue,
    /// Nothing to do until an outside operation completes.
    NotReady,
    /// The loop is over; it stops exactly once.
    Finished,
    /// Establishing a session failed: fatal for the whole service.
    FatalConnect(ConnectError),
}

/// The state the driver loop owns: the single connection, whether a reply is
/// pending on an in-flight send, and the shutdown flag.
#[derive(Debug)]
pub struct MailService {
    pub setup: SmtpSetup,
    pub connection: ConnectionState,
    pub pending_reply: bool,
    pub stop_handle: StopServiceHandle,
}

/// No step produces any action.
pub open spec fn no_actions() -> ServiceActions {
    ServiceActions { deliver_pending: None, reject_item: None }
}

/// The driver's reaction to one queue item or queue condition, from a state
/// whose session is established and free.
pub open spec fn next_request_spec(s: MailService, event: QueueEvent) -> (
    MailService,
    bool,
    Option<MailSendError>,
) {
    match event {
        QueueEvent::NotReady => (s, false, None),
        QueueEvent::Closed => (
            MailService {
                connection: close_spec(s.connection, true).0,
                stop_handle: (StopServiceHandle { stopped: true }),
                ..s
            },
            true,
            None,
        ),
        QueueEvent::Item(enc) => match enc {
            Ok(me) => (
                MailService {
                    connection: ConnectionState::ConnectionInUse {
                        body_bytes: me.mail.body_bytes,
                        envelop: me.envelop,
                    },
                    pending_reply: true,
                    ..s
                },
                true,
                None,
            ),
            Err(e) => (s, true, Some(e)),
        },
    }
}

/// The transition relation of one whole driving step: the next service state,
/// how the loop goes on, and the actions owed to callers.
pub open spec fn service_step_spec(
    s: MailService,
    conn_event: ConnEvent,
    queue_event: Option<QueueEvent>,
    queue_has_more: Option<bool>,
) -> (MailService, ServicePollResult, ServiceActions) {
    let stepped = poll_state_spec(s.connection, conn_event);
    let conn1 = stepped.0;
    match stepped.1 {
        PollStateResult::NotReady => (
            MailService { connection: conn1, ..s },
            ServicePollResult::NotReady,
            no_actions(),
        ),
        PollStateResult::ConnectFailed(e) => (
            MailService {
                connection: conn1,
                stop_handle: (StopServiceHandle { stopped: true }),
                ..s
            },
            ServicePollResult::FatalConnect(e),
            no_actions(),
        ),
        PollStateResult::IoError => (
            MailService { connection: conn1, pending_reply: false, ..s },
            ServicePollResult::Continue,
            ServiceActions {
                deliver_pending: Some(Err(MailSendError::Io)),
                reject_item: None,
            },
        ),
        PollStateResult::Ready(comp) => match comp {
            CompletionState::Terminated => (
                MailService {
                    connection: conn1,
                    stop_handle: (StopServiceHandle { stopped: true }),
                    ..s
                },
                ServicePollResult::Finished,
                no_actions(),
            ),
            CompletionState::Idle => match queue_has_more {
                Some(true) => (
                    MailService { connection: ConnectionState::Connecting, ..s },
                    ServicePollResult::Continue,
                    no_actions(),
                ),
                Some(false) => (
                    MailService {
                        connection: close_spec(conn1, s.stop_handle.is_stopped()).0,
                        ..s
                    },
                    ServicePollResult::Finished,
                    no_actions(),
                ),
                None => arbitrary(),
            },
            CompletionState::Usable(opt) => match queue_event {
                Some(qe) => {
                    let delivered = MailService {
                        connection: conn1,
                        pending_reply: false,
                        ..s
                    };
                    let next = next_request_spec(delivered, qe);
                    (
                        next.0,
                        if next.1 {
                            ServicePollResult::Continue
                        } else {
                            ServicePollResult::NotReady
                        },
                        ServiceActions { deliver_pending: opt, reject_item: next.2 },
                    )
                },
                None => arbitrary(),
            },
        },
    }
}

impl MailService {
    /// The driver's bookkeeping invariant: a reply is pending exactly while a
    /// send is in flight, and the sentinel state is never at rest.
    pub open spec fn wf(&self) -> bool {
        &&& (self.pending_reply <==> self.connection is ConnectionInUse)
        &&& !(self.connection is Poison)
    }

    /// A fresh service: no session, nothing pending, no stop requested.
    pub fn new(setup: SmtpSetup) -> (r: Self)
        ensures
            r.wf(),
            r.setup == setup,
            r.connection is Idle,
            !r.pending_reply,
            !r.stop_handle.is_stopped(),
    {
        MailService {
            setup,
            connection: ConnectionState::Idle,
            pending_reply: false,
            stop_handle: StopServiceHandle::new(),
        }
    }

    /// The shutdown flag as the service holds it.
    pub fn stop_handle(&self) -> (r: StopServiceHandle)
        ensures
            r == self.stop_handle,
    {
        self.stop_handle
    }

    /// Sets the stop flag and asks the connection to terminate. Rejected only
    /// while a send is in flight.
    pub fn start_stopping_now(&mut self) -> (r: Result<(), ()>)
        requires
            old(self).wf(),
        ensures
            final(self).wf(),
            final(self).stop_handle.is_stopped(),
            final(self).setup == old(self).setup,
            final(self).pending_reply == old(self).pending_reply,
            (final(self).connection, r) == close_spec(old(self).connection, true),
    {
        self.stop_handle.stop();
        self.connection.terminate()
    }

    /// Takes one queue condition while the session is established and free:
    /// a closed queue begins the terminating shutdown; a failed encoding is
    /// answered at once, without the session ever seeing it; an encoded mail
    /// is handed to the session and its reply becomes pending.
    pub fn poll_next_request(&mut self, event: QueueEvent) -> (r: (bool, Option<MailSendError>))
        requires
            old(self).wf(),
            old(self).connection is Connected,
        ensures
            final(self).wf(),
            (*final(self), r.0, r.1) == next_request_spec(*old(self), event),
    {
        match event {
            QueueEvent::NotReady => (false, None),
            QueueEvent::Closed => {
                let stopping = self.start_stopping_now();
                proof {
                    assert(stopping is Ok);
                }
                (true, None)
            },
            QueueEvent::Item(enc) => match enc {
                Ok(me) => {
                    let MailEnvelop { mail, envelop } = me;
                    let sent = self.connection.send_mail(mail.body_bytes, envelop);
                    proof {
                        assert(sent is Ok);
                    }
                    self.pending_reply = true;
                    (true, None)
                },
                Err(e) => (true, Some(e)),
            },
        }
    }

    /// One iteration of the driver loop. `conn_event` reports on the outside
    /// operation the connection state carries; `queue_event` must be supplied
    /// when the session turns out usable (the driver then consumes the
    /// queue), and `queue_has_more` when the service turns out idle (the
    /// driver then peeks without consuming).
    pub fn poll_step(
        &mut self,
        conn_event: ConnEvent,
        queue_event: Option<QueueEvent>,
        queue_has_more: Option<bool>,
    ) -> (r: (ServicePollResult, ServiceActions))
        requires
            old(self).wf(),
            event_fits(old(self).connection, conn_event),
            match poll_state_spec(old(self).connection, conn_event).1 {
                PollStateResult::Ready(CompletionState::Usable(_)) => queue_event is Some,
                PollStateResult::Ready(CompletionState::Idle) => queue_has_more is Some,
                _ => true,
            },
        ensures
            final(self).wf(),
            (*final(self), r.0, r.1) == service_step_spec(
                *old(self),
                conn_event,
                queue_event,
                queue_has_more,
            ),
    {
        let pres = self.connection.poll_state_completion(conn_event);
        match pres {
            PollStateResult::NotReady => (
                ServicePollResult::NotReady,
                ServiceActions { deliver_pending: None, reject_item: None },
            ),
            PollStateResult::ConnectFailed(e) => {
                self.stop_handle.stop();
                (
                    ServicePollResult::FatalConnect(e),
                    ServiceActions { deliver_pending: None, reject_item: None },
                )
            },
            PollStateResult::IoError => {
                self.pending_reply = false;
                (
                    ServicePollResult::Continue,
                    ServiceActions {
                        deliver_pending: Some(Err(MailSendError::Io)),
                        reject_item: None,
                    },
                )
            },
            PollStateResult::Ready(comp) => match comp {
                CompletionState::Terminated => {
                    self.stop_handle.stop();
                    (
                        ServicePollResult::Finished,
                        ServiceActions { deliver_pending: None, reject_item: None },
                    )
                },
                CompletionState::Idle => match queue_has_more {
                    Some(true) => {
                        self.connection.change_into_connecting();
                        (
                            ServicePollResult::Continue,
                            ServiceActions { deliver_pending: None, reject_item: None },
                        )
                    },
                    Some(false) => {
                        let closed = if self.stop_handle.should_stop() {
                            self.connection.terminate()
                        } else {
                            self.connection.close_current()
                        };
                        proof {
                            assert(closed is Ok);
                        }
                        (
                            ServicePollResult::Finished,
                            ServiceActions { deliver_pending: None, reject_item: None },
                        )
                    },
                    None => {
                        proof {
                            assert(false);
                        }
                        (
                            ServicePollResult::Finished,
                            ServiceActions { deliver_pending: None, reject_item: None },
                        )
                    },
                },
                CompletionState::Usable(opt) => {
                    self.pending_reply = false;
                    match queue_event {
                        Some(qe) => {
                            let next = self.poll_next_request(qe);
                            (
                                if next.0 {
                                    ServicePollResult::Continue
                                } else {
                                    ServicePollResult::NotReady
                                },
                                ServiceActions { deliver_pending: opt, reject_item: next.1 },
                            )
                        },
                        None => {
                            proof {
                                assert(false);
                            }
                            (
                                ServicePollResult::Finished,
                                ServiceActions { deliver_pending: opt, reject_item: None },
                            )
                        },
                    }
                },
            },
        }
    }
}

/// How a recorded outcome may relate to the request it answers: a request
/// that failed before the send stage is answered with its own error, one
/// whose mail encoded is answered by the session — and any request a dying
/// service leaves behind is canceled.
pub open spec fn outcome_matches(item: MailEncodingResult, out: MailSendResult) -> bool {
    match item {
        Err(e) => out == Err::<MailResponse, MailSendError>(e) || out == Err::<
            MailResponse,
            MailSendError,
        >(MailSendError::CanceledByDriver),
        Ok(_) => out is Ok || (match out {
            Err(MailSendError::Smtp(_)) => true,
            Err(MailSendError::Io) => true,
            Err(MailSendError::CanceledByDriver) => true,
            _ => false,
        }),
    }
}

/// How an outcome relates to its request when the service never dies under
/// it: a request that failed before the send stage observes exactly its own
/// error, and a sent mail observes what the server answered — delivery or a
/// protocol-level rejection, never a cancellation.
pub open spec fn completed_outcome(item: MailEncodingResult, out: MailSendResult) -> bool {
    match item {
        Err(e) => out == Err::<MailResponse, MailSendError>(e),
        Ok(_) => out is Ok || (match out {
            Err(MailSendError::Smtp(_)) => true,
            _ => false,
        }),
    }
}

/// A measure that shrinks with every turn of the driver loop over a sealed
/// queue: consuming a request pays for everything, and between consumptions
/// the connection only walks down its life cycle.
pub open spec fn state_weight(c: ConnectionState) -> int {
    match c {
        ConnectionState::Idle => 4,
        ConnectionState::Connecting => 3,
        ConnectionState::Connected => 2,
        ConnectionState::ConnectionInUse { .. } => 2,
        ConnectionState::Closing { .. } => 1,
        ConnectionState::Terminated => 0,
        ConnectionState::Poison => 0,
    }
}

impl MailService {
    /// Runs the driver loop to completion over a sealed batch: a closed queue
    /// of encoding outcomes, with the session's behaviour supplied as data —
    /// whether the connect succeeds, and what each send produces.
    ///
    /// Exactly one outcome comes back per submitted request, paired with it
    /// by position: a request that failed to encode observes its own error, a
    /// sent mail observes what the session answered, and every request the
    /// service leaves behind when it dies observes the cancellation. The loop
    /// always terminates, and stops exactly once.
    pub fn drive_sealed_queue(
        &mut self,
        queue: &mut MailQueue<MailEncodingResult>,
        connect_ok: bool,
        sends: Vec<SendOutcome>,
    ) -> (r: Vec<MailSendResult>)
        requires
            old(self).wf(),
            old(self).connection is Idle,
            !old(self).pending_reply,
            old(queue).wf(),
            old(queue).closed,
            sends@.len() >= old(queue).items@.len(),
        ensures
            final(self).wf(),
            !final(self).pending_reply,
            final(queue).items@.len() == 0,
            final(queue).closed,
            r@.len() == old(queue).items@.len(),
            forall|i: int|
                0 <= i < r@.len() ==> outcome_matches(old(queue).items@[i], #[trigger] r@[i]),
            (connect_ok && (forall|i: int|
                0 <= i < sends@.len() ==> (#[trigger] sends@[i]) is Completed)) ==> forall|i: int|
                0 <= i < r@.len() ==> completed_outcome(old(queue).items@[i], #[trigger] r@[i]),
    {
        let ghost orig = queue.items@;
        let ghost happy = connect_ok && (forall|i: int|
            0 <= i < sends@.len() ==> (#[trigger] sends@[i]) is Completed);
        let mut sends = sends;
        let mut outcomes: Vec<MailSendResult> = Vec::new();

        loop
            invariant
                self.wf(),
                queue.wf(),
                queue.closed,
                queue.items@.len() <= orig.len(),
                queue.items@ == orig.subrange(orig.len() - queue.items@.len(), orig.len() as int),
                outcomes@.len() + queue.items@.len() + (if self.pending_reply {
                    1int
                } else {
                    0int
                }) == orig.len(),
                forall|i: int|
                    0 <= i < outcomes@.len() ==> outcome_matches(orig[i], #[trigger] outcomes@[i]),
                self.pending_reply ==> orig[outcomes@.len() as int] is Ok,
                sends@.len() >= queue.items@.len() + (if self.pending_reply {
                    1int
                } else {
                    0int
                }),
                match self.connection {
                    ConnectionState::Closing { is_termination } => is_termination,
                    _ => true,
                },
                happy ==> connect_ok,
                happy ==> forall|i: int|
                    0 <= i < sends@.len() ==> (#[trigger] sends@[i]) is Completed,
                happy ==> forall|j: int|
                    0 <= j < outcomes@.len() ==> completed_outcome(
                        orig[j],
                        #[trigger] outcomes@[j],
                    ),
                happy && (self.connection is Closing || self.connection is Terminated)
                    ==> queue.items@.len() == 0,
            ensures
                self.wf(),
                queue.wf(),
                queue.closed,
                !self.pending_reply,
                queue.items@.len() <= orig.len(),
                queue.items@ == orig.subrange(orig.len() - queue.items@.len(), orig.len() as int),
                outcomes@.len() + queue.items@.len() == orig.len(),
                forall|i: int|
                    0 <= i < outcomes@.len() ==> outcome_matches(orig[i], #[trigger] outcomes@[i]),
                happy ==> queue.items@.len() == 0,
                happy ==> forall|j: int|
                    0 <= j < outcomes@.len() ==> completed_outcome(
                        orig[j],
                        #[trigger] outcomes@[j],
                    ),
            decreases 5 * queue.items@.len() + state_weight(self.connection),
        {
            // Drive the outside operation the current state carries; the
            // session's answers come from the supplied script.
            let conn_event = match &self.connection {
                ConnectionState::Idle => ConnEvent::Pending,
                ConnectionState::Connected => ConnEvent::Pending,
                ConnectionState::Terminated => ConnEvent::Pending,
                ConnectionState::Connecting => if connect_ok {
                    ConnEvent::ConnectDone
                } else {
                    ConnEvent::ConnectFailed(ConnectError::Io)
                },
                ConnectionState::ConnectionInUse { .. } => {
                    let ghost pre_sends = sends@;
                    let next_send = sends.remove(0);
                    proof {
                        if happy {
                            assert forall|i: int|
                                0 <= i < sends@.len() implies (#[trigger] sends@[i])
                                is Completed by {
                                assert(sends@[i] == pre_sends[i + 1]);
                            };
                        }
                    }
                    match next_send {
                        SendOutcome::Completed(res) => ConnEvent::SendDone(res),
                        SendOutcome::IoFailed => ConnEvent::SendFailedIo,
                    }
                },
                ConnectionState::Closing { .. } => ConnEvent::CloseDone,
                ConnectionState::Poison => {
                    proof {
                        assert(false);
                    }
                    ConnEvent::Pending
                },
            };

            // The driver consumes the queue exactly when this step finds the
            // session usable, and peeks exactly when it finds itself idle.
            let session_usable = match (&self.connection, &conn_event) {
                (ConnectionState::Connected, _) => true,
                (ConnectionState::Connecting, ConnEvent::ConnectDone) => true,
                (ConnectionState::ConnectionInUse { .. }, ConnEvent::SendDone(_)) => true,
                _ => false,
            };
            let service_idle = match &self.connection {
                ConnectionState::Idle => true,
                _ => false,
            };

            let queue_event = if session_usable {
                Some(
                    match queue.dequeue() {
                        DequeueOutcome::Item(item) => QueueEvent::Item(item),
                        DequeueOutcome::Empty => {
                            proof {
                                assert(false);
                            }
                            QueueEvent::NotReady
                        },
                        DequeueOutcome::Drained => QueueEvent::Closed,
                    },
                )
            } else {
                None
            };
            let queue_has_more = if service_idle {
                Some(queue.has_pending())
            } else {
                None
            };

            let step = self.poll_step(conn_event, queue_event, queue_has_more);

            match step.1.deliver_pending {
                Some(out) => outcomes.push(out),
                None => {},
            }
            match step.1.reject_item {
                Some(err) => outcomes.push(Err(err)),
                None => {},
            }

            match step.0 {
                ServicePollResult::Continue => {},
                ServicePollResult::Finished => {
                    break;
                },
                ServicePollResult::FatalConnect(_) => {
                    proof {
                        // Only a failed connect ends here, so not on a run
                        // whose connect succeeds.
                        assert(!happy);
                    }
                    break;
                },
                ServicePollResult::NotReady => {
                    // A sealed queue never starves the driver: every dequeue
                    // yields a request or the drained mark.
                    proof {
                        assert(false);
                    }
                    break;
                },
            }
        }

        // The loop has stopped; whatever is still queued will never be sent,
        // and its callers observe the cancellation.
        while queue.has_pending()
            invariant
                queue.wf(),
                queue.closed,
                queue.items@.len() <= orig.len(),
                queue.items@ == orig.subrange(orig.len() - queue.items@.len(), orig.len() as int),
                outcomes@.len() + queue.items@.len() == orig.len(),
                forall|i: int|
                    0 <= i < outcomes@.len() ==> outcome_matches(orig[i], #[trigger] outcomes@[i]),
                happy ==> queue.items@.len() == 0,
                happy ==> forall|j: int|
                    0 <= j < outcomes@.len() ==> completed_outcome(
                        orig[j],
                        #[trigger] outcomes@[j],
                    ),
            decreases queue.items@.len(),
        {
            match queue.dequeue() {
                DequeueOutcome::Item(_) => outcomes.push(Err(MailSendError::CanceledByDriver)),
                DequeueOutcome::Empty => {
                    proof {
                        assert(false);
                    }
                },
                DequeueOutcome::Drained => {
                    proof {
                        assert(false);
                    }
                },
            }
        }

        outcomes
    }
}

/// Every item the driver takes off the queue gets exactly one disposition: a
/// failed encoding is answered with its own error while the session is left
/// untouched, and an encoded mail is handed to the session with its reply
/// pending — never both, never neither.
pub proof fn lemma_single_disposition_per_item(s: MailService, enc: MailEncodingResult)
    requires
        s.wf(),
        s.connection is Connected,
    ensures
        ({
            let next = next_request_spec(s, QueueEvent::Item(enc));
            &&& next.1
            &&& (enc is Err <==> next.2 is Some)
            &&& (enc is Ok <==> (next.0.pending_reply && next.0.connection is ConnectionInUse))
            &&& !(next.2 is Some && next.0.pending_reply)
            &&& (enc matches Err(e) ==> next.2 == Some(e) && next.0 == s)
        }),
{
}

/// A transport failure of an in-flight send terminates the service: the
/// failed request's reply is exactly the I/O error, the machine reaches
/// `Terminated`, and the following step stops the loop with the stop flag
/// set. No later step ever hands the session another mail.
pub proof fn lemma_io_failure_terminates(
    s: MailService,
    queue_event: Option<QueueEvent>,
    queue_has_more: Option<bool>,
)
    requires
        s.wf(),
        s.connection is ConnectionInUse,
    ensures
        ({
            let step = service_step_spec(s, ConnEvent::SendFailedIo, queue_event, queue_has_more);
            &&& step.0.connection is Terminated
            &&& !step.0.pending_reply
            &&& step.1 == ServicePollResult::Continue
            &&& step.2.deliver_pending == Some(Err::<MailResponse, MailSendError>(
                MailSendError::Io,
            ))
            &&& step.2.reject_item is None
            &&& ({
                let after = service_step_spec(step.0, ConnEvent::Pending, None, None);
                &&& after.0.connection is Terminated
                &&& after.1 == ServicePollResult::Finished
                &&& after.0.stop_handle.is_stopped()
                &&& after.2 == no_actions()
            })
        }),
{
}

/// A terminated service stays terminated: every further step keeps the
/// state, reports `Finished` with the stop flag set, and owes nothing to
/// anyone — in particular, no mail is ever handed to the session again.
pub proof fn lemma_terminated_service_stays_terminated(
    s: MailService,
    queue_event: Option<QueueEvent>,
    queue_has_more: Option<bool>,
)
    requires
        s.wf(),
        s.connection is Terminated,
    ensures
        ({
            let step = service_step_spec(s, ConnEvent::Pending, queue_event, queue_has_more);
            &&& step.0.connection is Terminated
            &&& step.1 == ServicePollResult::Finished
            &&& step.0.stop_handle.is_stopped()
            &&& step.2 == no_actions()
        }),
{
}

/// Graceful drain after the handles are gone: when the queue reports closed
/// while the session is free, the driver sets the stop flag and begins a
/// terminating close; when the close completes, the very next step reaches
/// `Terminated` and stops the loop — exactly once over the two steps.
pub proof fn lemma_drain_on_queue_closed(s: MailService)
    requires
        s.wf(),
        s.connection is Connected,
    ensures
        ({
            let step = service_step_spec(s, ConnEvent::Pending, Some(QueueEvent::Closed), None);
            &&& step.0.connection == (ConnectionState::Closing { is_termination: true })
            &&& step.0.stop_handle.is_stopped()
            &&& step.1 == ServicePollResult::Continue
            &&& ({
                let after = service_step_spec(step.0, ConnEvent::CloseDone, None, None);
                &&& after.0.connection is Terminated
                &&& after.1 == ServicePollResult::Finished
                &&& after.0.stop_handle.is_stopped()
            })
        }),
{
}

/// Graceful stop of an idle service with no pending work: the loop stops at
/// once, non-terminating — the state stays `Idle` — unless a stop was
/// explicitly requested, in which case the machine terminates.
pub proof fn lemma_idle_stop(s: MailService)
    requires
        s.wf(),
        s.connection is Idle,
    ensures
        ({
            let step = service_step_spec(s, ConnEvent::Pending, None, Some(false));
            &&& step.1 == ServicePollResult::Finished
            &&& step.2 == no_actions()
            &&& (!s.stop_handle.is_stopped() ==> step.0.connection is Idle
                && !step.0.stop_handle.is_stopped())
            &&& (s.stop_handle.is_stopped() ==> step.0.connection is Terminated)
        }),
{
}

/// The reply pending on an in-flight send is delivered exactly once: on the
/// step in which the send completes or the transport fails, and on no other
/// step; what is delivered is the send's own outcome.
pub proof fn lemma_pending_delivered_exactly_once(
    s: MailService,
    conn_event: ConnEvent,
    queue_event: Option<QueueEvent>,
    queue_has_more: Option<bool>,
)
    requires
        s.wf(),
        event_fits(s.connection, conn_event),
        match poll_state_spec(s.connection, conn_event).1 {
            PollStateResult::Ready(CompletionState::Usable(_)) => queue_event is Some,
            PollStateResult::Ready(CompletionState::Idle) => queue_has_more is Some,
            _ => true,
        },
    ensures
        ({
            let step = service_step_spec(s, conn_event, queue_event, queue_has_more);
            &&& (step.2.deliver_pending is Some ==> s.pending_reply)
            &&& (step.2.deliver_pending is Some <==> (s.connection is ConnectionInUse && (
            conn_event is SendDone || conn_event is SendFailedIo)))
            &&& (match conn_event {
                ConnEvent::SendDone(res) => s.connection is ConnectionInUse
                    ==> step.2.deliver_pending == Some(
                    match res {
                        Ok(ack) => Ok::<MailResponse, MailSendError>(ack),
                        Err(logic) => Err::<MailResponse, MailSendError>(
                            MailSendError::Smtp(logic),
                        ),
                    },
                ),
                _ => true,
            })
            &&& (conn_event == ConnEvent::SendFailedIo && s.connection is ConnectionInUse
                ==> step.2.deliver_pending == Some(Err::<MailResponse, MailSendError>(
                MailSendError::Io,
            )))
        }),
{
}

} // verus!
