use vstd::prelude::*;
use vstd::pervasive::arbitrary;

use crate::address::MailAddress;
use crate::error::{ConnectError, LogicError, MailSendError};
use crate::request::EnvelopData;

verus! {

/// The opaque success marker a delivered mail resolves to.
#[derive(Clone, Copy, Debug, PartialEq, Eq, Structural)]
pub struct MailResponse;

/// The outcome of one submitted mail, as delivered to its reply slot.
pub type MailSendResult = Result<MailResponse, MailSendError>;

/// The life cycle of the single network session a service owns. Exactly one
/// instance exists per service; the driver loop is its only user.
///
/// `Poison` is the sentinel left behind while a transition is in progress; a
/// completed transition never leaves it in place, and every operation here
/// excludes it, so observing it is a programming fault and not a recoverable
/// state.
#[derive(Debug, PartialEq, Eq)]
pub enum ConnectionState {
    /// No session exists and none is being set up.
    Idle,
    /// A connect operation is running outside.
    Connecting,
    /// A session is established and free for the next mail.
    Connected,
    /// A send is in flight; the session carries exactly these bytes under
    /// exactly this envelope until the send completes.
    ConnectionInUse { body_bytes: Vec<u8>, envelop: EnvelopData },
    /// A quit operation is running outside; `is_termination` says whether the
    /// state machine ends at `Terminated` or returns to `Idle` afterwards.
    Closing { is_termination: bool },
    /// The session is gone for good; this state is never left again.
    Terminated,
    /// Transient sentinel; never observed after a completed transition.
    Poison,
}

/// What the outside operation belonging to the current state produced when it
/// was last driven: nothing yet, or its completion.
#[derive(Debug, PartialEq, Eq)]
pub enum ConnEvent {
    /// The pending operation (if any) has not completed.
    Pending,
    /// The connect operation yielded a session.
    ConnectDone,
    /// The connect operation failed for good.
    ConnectFailed(ConnectError),
    /// The in-flight send finished: delivered, or rejected by the server at
    /// the protocol level. Either way the session stays usable.
    SendDone(Result<MailResponse, LogicError>),
    /// The in-flight send failed at the transport level; the session is
    /// assumed broken.
    SendFailedIo,
    /// The quit operation finished.
    CloseDone,
}

/// What one driving step reports to the service loop.
#[derive(Debug, PartialEq, Eq)]
pub enum CompletionState {
    /// The session can take a mail; carries the outcome of a send that just
    /// completed, if one did.
    Usable(Option<MailSendResult>),
    /// No session exists.
    Idle,
    /// The state machine has ended.
    Terminated,
}

/// The result of driving the connection one step.
#[derive(Debug, PartialEq, Eq)]
pub enum PollStateResult {
    /// The pending operation needs to be driven again later.
    NotReady,
    /// A completion to act on.
    Ready(CompletionState),
    /// The connect operation failed; fatal for the whole service.
    ConnectFailed(ConnectError),
    /// The in-flight send failed at the transport level; fatal for the
    /// session.
    IoError,
}

/// Which events can belong to which states: an event reports on the outside
/// operation the state carries, so states without one take only `Pending`.
pub open spec fn event_fits(state: ConnectionState, event: ConnEvent) -> bool {
    match state {
        ConnectionState::Idle => event is Pending,
        ConnectionState::Connected => event is Pending,
        ConnectionState::Terminated => event is Pending,
        ConnectionState::Connecting => event is Pending || event is ConnectDone || event
            is ConnectFailed,
        ConnectionState::ConnectionInUse { .. } => event is Pending || event is SendDone || event
            is SendFailedIo,
        ConnectionState::Closing { .. } => event is Pending || event is CloseDone,
        ConnectionState::Poison => false,
    }
}

/// The transition relation of one driving step: the next state and what the
/// step reports.
pub open spec fn poll_state_spec(state: ConnectionState, event: ConnEvent) -> (
    ConnectionState,
    PollStateResult,
) {
    match state {
        ConnectionState::Idle => (
            ConnectionState::Idle,
            PollStateResult::Ready(CompletionState::Idle),
        ),
        ConnectionState::Connected => (
            ConnectionState::Connected,
            PollStateResult::Ready(CompletionState::Usable(None)),
        ),
        ConnectionState::Connecting => match event {
            ConnEvent::ConnectDone => (
                ConnectionState::Connected,
                PollStateResult::Ready(CompletionState::Usable(None)),
            ),
            ConnEvent::ConnectFailed(e) => (
                ConnectionState::Terminated,
                PollStateResult::ConnectFailed(e),
            ),
            _ => (ConnectionState::Connecting, PollStateResult::NotReady),
        },
        ConnectionState::ConnectionInUse { body_bytes, envelop } => match event {
            ConnEvent::SendDone(res) => (
                ConnectionState::Connected,
                PollStateResult::Ready(
                    CompletionState::Usable(
                        Some(
                            match res {
                                Ok(ack) => Ok(ack),
                                Err(logic) => Err(MailSendError::Smtp(logic)),
                            },
                        ),
                    ),
                ),
            ),
            ConnEvent::SendFailedIo => (ConnectionState::Terminated, PollStateResult::IoError),
            _ => (
                ConnectionState::ConnectionInUse { body_bytes, envelop },
                PollStateResult::NotReady,
            ),
        },
        ConnectionState::Closing { is_termination } => match event {
            ConnEvent::CloseDone => if is_termination {
                (ConnectionState::Terminated, PollStateResult::Ready(CompletionState::Terminated))
            } else {
                (ConnectionState::Idle, PollStateResult::Ready(CompletionState::Idle))
            },
            _ => (ConnectionState::Closing { is_termination }, PollStateResult::NotReady),
        },
        ConnectionState::Terminated => (
            ConnectionState::Terminated,
            PollStateResult::Ready(CompletionState::Terminated),
        ),
        ConnectionState::Poison => arbitrary(),
    }
}

/// The transition relation of a close or terminate request: the next state
/// and whether the request was accepted. A busy session (send in flight)
/// rejects the request; terminating strengthens a close already under way but
/// never the other way around.
pub open spec fn close_spec(state: ConnectionState, is_termination: bool) -> (
    ConnectionState,
    Result<(), ()>,
) {
    match state {
        ConnectionState::Idle => (
            if is_termination {
                ConnectionState::Terminated
            } else {
                ConnectionState::Idle
            },
            Ok(()),
        ),
        ConnectionState::Connecting => (ConnectionState::Closing { is_termination }, Ok(())),
        ConnectionState::Connected => (ConnectionState::Closing { is_termination }, Ok(())),
        ConnectionState::ConnectionInUse { body_bytes, envelop } => (
            ConnectionState::ConnectionInUse { body_bytes, envelop },
            Err(()),
        ),
        ConnectionState::Closing { is_termination: was } => (
            ConnectionState::Closing { is_termination: was || is_termination },
            Ok(()),
        ),
        ConnectionState::Terminated => (ConnectionState::Terminated, Ok(())),
        ConnectionState::Poison => arbitrary(),
    }
}

impl ConnectionState {
    /// Starts setting up a session. The connect operation itself runs
    /// outside; this records that the machine is waiting for it. Never called
    /// once the machine has terminated.
    pub fn change_into_connecting(&mut self)
        requires
            !(*old(self) is Poison),
            !(*old(self) is Terminated),
        ensures
            *final(self) == ConnectionState::Connecting,
    {
        *self = ConnectionState::Connecting;
    }

    /// Drives the state one step, given what the outside operation belonging
    /// to the current state produced.
    pub fn poll_state_completion(&mut self, event: ConnEvent) -> (r: PollStateResult)
        requires
            event_fits(*old(self), event),
        ensures
            (*final(self), r) == poll_state_spec(*old(self), event),
    {
        let mut state = ConnectionState::Poison;
        std::mem::swap(&mut state, self);
        let (new_state, result) = match state {
            ConnectionState::Idle => (
                ConnectionState::Idle,
                PollStateResult::Ready(CompletionState::Idle),
            ),
            ConnectionState::Connected => (
                ConnectionState::Connected,
                PollStateResult::Ready(CompletionState::Usable(None)),
            ),
            ConnectionState::Connecting => match event {
                ConnEvent::ConnectDone => (
                    ConnectionState::Connected,
                    PollStateResult::Ready(CompletionState::Usable(None)),
                ),
                ConnEvent::ConnectFailed(e) => (
                    ConnectionState::Terminated,
                    PollStateResult::ConnectFailed(e),
                ),
                _ => (ConnectionState::Connecting, PollStateResult::NotReady),
            },
            ConnectionState::ConnectionInUse { body_bytes, envelop } => match event {
                ConnEvent::SendDone(res) => (
                    ConnectionState::Connected,
                    PollStateResult::Ready(
                        CompletionState::Usable(
                            Some(
                                match res {
                                    Ok(ack) => Ok(ack),
                                    Err(logic) => Err(MailSendError::Smtp(logic)),
                                },
                            ),
                        ),
                    ),
                ),
                ConnEvent::SendFailedIo => (
                    ConnectionState::Terminated,
                    PollStateResult::IoError,
                ),
                _ => (
                    ConnectionState::ConnectionInUse { body_bytes, envelop },
                    PollStateResult::NotReady,
                ),
            },
            ConnectionState::Closing { is_termination } => match event {
                ConnEvent::CloseDone => if is_termination {
                    (
                        ConnectionState::Terminated,
                        PollStateResult::Ready(CompletionState::Terminated),
                    )
                } else {
                    (ConnectionState::Idle, PollStateResult::Ready(CompletionState::Idle))
                },
                _ => (
                    ConnectionState::Closing { is_termination },
                    PollStateResult::NotReady,
                ),
            },
            ConnectionState::Terminated => (
                ConnectionState::Terminated,
                PollStateResult::Ready(CompletionState::Terminated),
            ),
            ConnectionState::Poison => {
                proof {
                    assert(false);
                }
                (ConnectionState::Poison, PollStateResult::NotReady)
            },
        };
        *self = new_state;
        result
    }

    /// Hands the session a mail to send. Accepted only while the session is
    /// established and free; otherwise the payload is handed back untouched
    /// and the state is left as it was.
    pub fn send_mail(&mut self, body_bytes: Vec<u8>, envelop: EnvelopData) -> (r: Result<
        (),
        (Vec<u8>, EnvelopData),
    >)
        requires
            !(*old(self) is Poison),
        ensures
            *old(self) is Connected ==> *final(self) == (ConnectionState::ConnectionInUse {
                body_bytes,
                envelop,
            }) && r is Ok,
            !(*old(self) is Connected) ==> *final(self) == *old(self) && r == Err::<
                (),
                (Vec<u8>, EnvelopData),
            >((body_bytes, envelop)),
    {
        let mut state = ConnectionState::Poison;
        std::mem::swap(&mut state, self);
        let (new_state, result) = match state {
            ConnectionState::Connected => (
                ConnectionState::ConnectionInUse { body_bytes, envelop },
                Ok(()),
            ),
            other => (other, Err((body_bytes, envelop))),
        };
        *self = new_state;
        result
    }

    /// Requests that the session be closed and the machine return to `Idle`.
    /// Rejected while a send is in flight.
    pub fn close_current(&mut self) -> (r: Result<(), ()>)
        requires
            !(*old(self) is Poison),
        ensures
            (*final(self), r) == close_spec(*old(self), false),
    {
        self.close_con(false)
    }

    /// Requests that the session be closed and the machine end for good.
    /// Rejected while a send is in flight.
    pub fn terminate(&mut self) -> (r: Result<(), ()>)
        requires
            !(*old(self) is Poison),
        ensures
            (*final(self), r) == close_spec(*old(self), true),
    {
        self.close_con(true)
    }

    fn close_con(&mut self, is_termination: bool) -> (r: Result<(), ()>)
        requires
            !(*old(self) is Poison),
        ensures
            (*final(self), r) == close_spec(*old(self), is_termination),
    {
        let mut state = ConnectionState::Poison;
        std::mem::swap(&mut state, self);
        let mut result: Result<(), ()> = Ok(());
        let new_state = match state {
            ConnectionState::Idle => if is_termination {
                ConnectionState::Terminated
            } else {
                ConnectionState::Idle
            },
            ConnectionState::Connecting => ConnectionState::Closing { is_termination },
            ConnectionState::Connected => ConnectionState::Closing { is_termination },
            ConnectionState::ConnectionInUse { body_bytes, envelop } => {
                result = Err(());
                ConnectionState::ConnectionInUse { body_bytes, envelop }
            },
            ConnectionState::Closing { is_termination: was } => ConnectionState::Closing {
                is_termination: was || is_termination,
            },
            ConnectionState::Terminated => ConnectionState::Terminated,
            ConnectionState::Poison => {
                proof {
                    assert(false);
                }
                ConnectionState::Poison
            },
        };
        *self = new_state;
        result
    }
}

/// One command of the submission transaction, as handed to the session.
#[derive(Debug, PartialEq, Eq)]
pub enum SmtpCommand {
    /// The MAIL command, carrying the reverse path.
    Mail(Option<MailAddress>),
    /// One RCPT command, carrying one recipient.
    Recipient(MailAddress),
}

/// The command block one envelope produces: the MAIL command first, then one
/// RCPT command per recipient, in envelope order. The commands of one mail
/// form one contiguous block, so two mails never interleave on the session.
pub fn mail_commands(envelop: EnvelopData) -> (r: Vec<SmtpCommand>)
    ensures
        r@.len() == 1 + envelop.to@.len(),
        r@[0] == SmtpCommand::Mail(envelop.from),
        forall|i: int|
            0 <= i < envelop.to@.len() ==> r@[i + 1] == SmtpCommand::Recipient(
                #[trigger] envelop.to@[i],
            ),
{
    let EnvelopData { from, to } = envelop;
    let mut to = to;
    let ghost to_snapshot = to@;
    let mut cmds: Vec<SmtpCommand> = Vec::new();
    cmds.push(SmtpCommand::Mail(from));
    while to.len() > 0
        invariant
            cmds@.len() >= 1,
            cmds@.len() <= 1 + to_snapshot.len(),
            to@.len() == to_snapshot.len() - (cmds@.len() - 1),
            forall|j: int|
                0 <= j < to@.len() ==> #[trigger] to@[j] == to_snapshot[cmds@.len() - 1 + j],
            cmds@[0] == SmtpCommand::Mail(envelop.from),
            forall|j: int|
                0 <= j < cmds@.len() - 1 ==> cmds@[j + 1] == SmtpCommand::Recipient(
                    #[trigger] to_snapshot[j],
                ),
            to_snapshot == envelop.to@,
        decreases to@.len(),
    {
        let ghost pre_to = to@;
        let ghost pre_cmds = cmds@;
        let next = to.remove(0);
        cmds.push(SmtpCommand::Recipient(next));
        proof {
            assert(next == pre_to[0]);
            assert(forall|j: int| 0 <= j < to@.len() ==> #[trigger] to@[j] == pre_to[j + 1]);
            assert(forall|j: int|
                0 <= j < pre_cmds.len() ==> #[trigger] cmds@[j] == pre_cmds[j]);
            assert(cmds@[pre_cmds.len() as int] == SmtpCommand::Recipient(next));
        }
    }
    cmds
}

/// Once terminated, the machine never leaves that state: neither a driving
/// step nor a close or terminate request moves it, and a driving step reports
/// the termination.
pub proof fn lemma_terminated_is_final(event: ConnEvent, is_termination: bool)
    requires
        event_fits(ConnectionState::Terminated, event),
    ensures
        poll_state_spec(ConnectionState::Terminated, event).0 == ConnectionState::Terminated,
        poll_state_spec(ConnectionState::Terminated, event).1 == PollStateResult::Ready(
            CompletionState::Terminated,
        ),
        close_spec(ConnectionState::Terminated, is_termination).0 == ConnectionState::Terminated,
{
}

/// A completed transition never leaves the sentinel state behind.
pub proof fn lemma_no_poison(state: ConnectionState, event: ConnEvent, is_termination: bool)
    requires
        !(state is Poison),
        event_fits(state, event),
    ensures
        !(poll_state_spec(state, event).0 is Poison),
        !(close_spec(state, is_termination).0 is Poison),
{
}

} // verus!
