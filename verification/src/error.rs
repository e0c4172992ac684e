use vstd::prelude::*;

verus! {

/// Validation failures beyond the built-in header checks.
#[derive(Clone, Copy, Debug, PartialEq, Eq, Structural)]
pub enum OtherValidationError {
    /// No recipient (`To`) header was present.
    NoTo,
}

/// Failures of envelope derivation from a mail's address headers.
#[derive(Clone, Copy, Debug, PartialEq, Eq, Structural)]
pub enum HeaderValidationError {
    /// No originator (`From`) header was present.
    NoFrom,
    /// Several `From` mailboxes but no `Sender` header to disambiguate.
    MultiMailboxFromWithoutSender,
    /// A validation failure outside the built-in set.
    Custom(OtherValidationError),
}

/// Why a mail could not be turned into wire-ready bytes.
#[derive(Clone, Copy, Debug, PartialEq, Eq, Structural)]
pub enum MailError {
    /// The address headers do not determine a valid envelope.
    Validation(HeaderValidationError),
    /// An address or header field could not be encoded.
    Encoding,
    /// The mail body could not be composed (for example, a resource
    /// belonging to the mail failed to load).
    Composition,
}

/// A protocol-level rejection by the submission server: the server answered
/// the transaction with a failure code, but the session itself stays usable.
#[derive(Clone, Copy, Debug, PartialEq, Eq, Structural)]
pub struct LogicError {
    /// The SMTP reply code the server rejected the transaction with.
    pub code: u16,
}

/// Why establishing a session with the submission server failed.
#[derive(Clone, Copy, Debug, PartialEq, Eq, Structural)]
pub enum ConnectError {
    /// The transport could not be set up (TCP or TLS failure).
    Io,
    /// The server rejected session setup (for example, the greeting).
    Setup(LogicError),
    /// The server rejected authentication.
    Auth(LogicError),
}

/// Any failure a whole connect-send-quit interaction can end in.
#[derive(Clone, Copy, Debug, PartialEq, Eq, Structural)]
pub enum GeneralError {
    /// Establishing the session failed.
    Connecting(ConnectError),
    /// The server rejected a command.
    Cmd(LogicError),
    /// The transport failed mid-session.
    Io,
}

/// The outcome a single submitted mail can fail with, as observed by the
/// caller who submitted it.
#[derive(Clone, Copy, Debug, PartialEq, Eq, Structural)]
pub enum MailSendError {
    /// The mail itself was at fault: its envelope could not be derived or
    /// its content could not be encoded.
    Mail(MailError),
    /// The server rejected the transaction at the command level.
    Smtp(LogicError),
    /// Establishing the session failed.
    Connecting(ConnectError),
    /// The transport failed while the mail was being sent.
    Io,
    /// The service ended before this request's outcome was produced.
    CanceledByDriver,
    /// The request could not even be queued because the service is gone.
    DriverDropped,
}

/// A transport-layer failure, global to the service rather than to one mail.
#[derive(Clone, Copy, Debug, PartialEq, Eq, Structural)]
pub enum TransportError {
    /// Setting up the connection failed.
    Connecting(ConnectError),
    /// An I/O error happened while using the connection.
    Io,
}

impl From<MailError> for MailSendError {
    fn from(err: MailError) -> (r: Self) {
        MailSendError::Mail(err)
    }
}

impl vstd::std_specs::convert::FromSpecImpl<MailError> for MailSendError {
    open spec fn obeys_from_spec() -> bool {
        true
    }

    open spec fn from_spec(err: MailError) -> Self {
        MailSendError::Mail(err)
    }
}

impl From<LogicError> for MailSendError {
    fn from(err: LogicError) -> (r: Self) {
        MailSendError::Smtp(err)
    }
}

impl vstd::std_specs::convert::FromSpecImpl<LogicError> for MailSendError {
    open spec fn obeys_from_spec() -> bool {
        true
    }

    open spec fn from_spec(err: LogicError) -> Self {
        MailSendError::Smtp(err)
    }
}

impl From<ConnectError> for MailSendError {
    fn from(err: ConnectError) -> (r: Self) {
        MailSendError::Connecting(err)
    }
}

impl vstd::std_specs::convert::FromSpecImpl<ConnectError> for MailSendError {
    open spec fn obeys_from_spec() -> bool {
        true
    }

    open spec fn from_spec(err: ConnectError) -> Self {
        MailSendError::Connecting(err)
    }
}

impl From<GeneralError> for MailSendError {
    fn from(err: GeneralError) -> (r: Self) {
        match err {
            GeneralError::Connecting(e) => MailSendError::Connecting(e),
            GeneralError::Cmd(e) => MailSendError::Smtp(e),
            GeneralError::Io => MailSendError::Io,
        }
    }
}

impl vstd::std_specs::convert::FromSpecImpl<GeneralError> for MailSendError {
    open spec fn obeys_from_spec() -> bool {
        true
    }

    open spec fn from_spec(err: GeneralError) -> Self {
        match err {
            GeneralError::Connecting(e) => MailSendError::Connecting(e),
            GeneralError::Cmd(e) => MailSendError::Smtp(e),
            GeneralError::Io => MailSendError::Io,
        }
    }
}

impl From<OtherValidationError> for HeaderValidationError {
    fn from(err: OtherValidationError) -> (r: Self) {
        HeaderValidationError::Custom(err)
    }
}

impl vstd::std_specs::convert::FromSpecImpl<OtherValidationError> for HeaderValidationError {
    open spec fn obeys_from_spec() -> bool {
        true
    }

    open spec fn from_spec(err: OtherValidationError) -> Self {
        HeaderValidationError::Custom(err)
    }
}

impl From<OtherValidationError> for MailError {
    fn from(err: OtherValidationError) -> (r: Self) {
        MailError::Validation(HeaderValidationError::Custom(err))
    }
}

impl vstd::std_specs::convert::FromSpecImpl<OtherValidationError> for MailError {
    open spec fn obeys_from_spec() -> bool {
        true
    }

    open spec fn from_spec(err: OtherValidationError) -> Self {
        MailError::Validation(HeaderValidationError::Custom(err))
    }
}

impl From<HeaderValidationError> for MailError {
    fn from(err: HeaderValidationError) -> (r: Self) {
        MailError::Validation(err)
    }
}

impl vstd::std_specs::convert::FromSpecImpl<HeaderValidationError> for MailError {
    open spec fn obeys_from_spec() -> bool {
        true
    }

    open spec fn from_spec(err: HeaderValidationError) -> Self {
        MailError::Validation(err)
    }
}

impl From<ConnectError> for TransportError {
    fn from(err: ConnectError) -> (r: Self) {
        TransportError::Connecting(err)
    }
}

impl vstd::std_specs::convert::FromSpecImpl<ConnectError> for TransportError {
    open spec fn obeys_from_spec() -> bool {
        true
    }

    open spec fn from_spec(err: ConnectError) -> Self {
        TransportError::Connecting(err)
    }
}

} // verus!
