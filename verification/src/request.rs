use vstd::prelude::*;
use vstd::pervasive::arbitrary;

use crate::address::{
    address_derived_from, is_internationalized, mailaddress_from_mailbox, MailAddress, Mailbox,
};
use crate::error::{HeaderValidationError, MailError, OtherValidationError};

verus! {

/// The address headers of a mail, as far as envelope derivation reads them:
/// the optional `Sender`, the `From` mailbox list and the `To` mailbox list,
/// each absent when the mail carries no such header.
#[derive(Clone, Debug, PartialEq, Eq)]
pub struct MailHeaders {
    pub sender: Option<Mailbox>,
    pub from: Option<Vec<Mailbox>>,
    pub to: Option<Vec<Mailbox>>,
}

/// A mail: its address headers and its content. The content is opaque to the
/// envelope logic; an outside collaborator renders it to wire bytes.
#[derive(Clone, Debug, PartialEq, Eq)]
pub struct Mail {
    pub headers: MailHeaders,
    pub body: Vec<u8>,
}

/// The envelope of a submission: the reverse-path address and the recipient
/// addresses. A derived envelope always has at least one recipient.
#[derive(Clone, Debug, PartialEq, Eq)]
pub struct EnvelopData {
    pub from: Option<MailAddress>,
    pub to: Vec<MailAddress>,
}

impl EnvelopData {
    /// A usable envelope names at least one recipient.
    pub open spec fn wf(&self) -> bool {
        self.to@.len() >= 1
    }

    /// The envelope forces the internationalized-address extension when any
    /// of its addresses does.
    pub open spec fn spec_needs_smtputf8(&self) -> bool {
        ||| (match self.from {
            Some(a) => a.needs_smtputf8,
            None => false,
        })
        ||| exists|i: int| 0 <= i < self.to@.len() && (#[trigger] self.to@[i]).needs_smtputf8
    }

    /// Whether sending this envelope needs the internationalized-address
    /// extension.
    pub fn needs_smtputf8(&self) -> (r: bool)
        ensures
            r == self.spec_needs_smtputf8(),
    {
        let from_needs = match &self.from {
            Some(a) => a.needs_smtputf8,
            None => false,
        };
        if from_needs {
            return true;
        }
        let mut i: usize = 0;
        while i < self.to.len()
            invariant
                i <= self.to@.len(),
                forall|j: int| 0 <= j < i ==> !(#[trigger] self.to@[j]).needs_smtputf8,
            decreases self.to@.len() - i,
        {
            if self.to[i].needs_smtputf8 {
                return true;
            }
            i += 1;
        }
        false
    }
}

/// A mail queued for submission, together with an optional envelope fixed by
/// the caller. When no envelope was given, one is derived from the headers at
/// encode time.
#[derive(Clone, Debug)]
pub struct MailRequest {
    pub mail: Mail,
    pub envelop_data: Option<EnvelopData>,
}

/// The error with which envelope derivation rejects the originator headers,
/// if it rejects them: no `From` at all (and no `Sender`), or several `From`
/// mailboxes with no `Sender` to single one out.
pub open spec fn sender_shape_error(h: MailHeaders) -> Option<MailError> {
    if h.sender is Some {
        None
    } else {
        match h.from {
            None => Some(MailError::Validation(HeaderValidationError::NoFrom)),
            Some(f) => if f@.len() == 0 {
                Some(MailError::Validation(HeaderValidationError::NoFrom))
            } else if f@.len() > 1 {
                Some(MailError::Validation(HeaderValidationError::MultiMailboxFromWithoutSender))
            } else {
                None
            },
        }
    }
}

/// The mailbox the envelope sender is derived from: the `Sender` header when
/// present, else the single `From` mailbox. Meaningful only when
/// `sender_shape_error` is `None`.
pub open spec fn sender_mailbox(h: MailHeaders) -> Mailbox {
    match h.sender {
        Some(s) => s,
        None => match h.from {
            Some(f) => f@[0],
            None => arbitrary(),
        },
    }
}

/// True when the headers name no recipient at all.
pub open spec fn to_missing(h: MailHeaders) -> bool {
    match h.to {
        None => true,
        Some(t) => t@.len() == 0,
    }
}

/// The error for headers that name no recipient.
pub open spec fn no_to_error() -> MailError {
    MailError::Validation(HeaderValidationError::Custom(OtherValidationError::NoTo))
}

/// True when every address the derivation would rewrite is internationalized,
/// so that the outside domain-to-ASCII algorithm is never consulted and the
/// derivation cannot fail with an encoding error.
pub open spec fn avoids_domain_rewriting(h: MailHeaders) -> bool {
    &&& is_internationalized(sender_mailbox(h).email)
    &&& match h.to {
        Some(tos) => forall|i: int|
            0 <= i < tos@.len() ==> is_internationalized((#[trigger] tos@[i]).email),
        None => true,
    }
}

/// What a successfully derived envelope looks like: its sender is the wire
/// form of the sender mailbox, and its recipients are the wire forms of the
/// `To` mailboxes, one each, in header order.
pub open spec fn derive_ok(h: MailHeaders, env: EnvelopData) -> bool {
    &&& sender_shape_error(h) is None
    &&& match env.from {
        Some(a) => address_derived_from(a, sender_mailbox(h).email),
        None => false,
    }
    &&& !to_missing(h)
    &&& match h.to {
        Some(tos) => {
            &&& env.to@.len() == tos@.len()
            &&& forall|i: int|
                0 <= i < tos@.len() ==> address_derived_from(
                    #[trigger] env.to@[i],
                    tos@[i].email,
                )
        },
        None => false,
    }
}

/// The full contract of envelope derivation on headers `h` with result `r`.
pub open spec fn derive_post(h: MailHeaders, r: Result<EnvelopData, MailError>) -> bool {
    &&& match sender_shape_error(h) {
        Some(e) => r == Err::<EnvelopData, MailError>(e),
        None => true,
    }
    &&& (r matches Ok(env) ==> derive_ok(h, env) && env.wf())
    &&& (sender_shape_error(h) is None && to_missing(h) ==> r is Err && (r
        == Err::<EnvelopData, MailError>(no_to_error()) || r == Err::<EnvelopData, MailError>(
        MailError::Encoding,
    )))
    &&& (sender_shape_error(h) is None && is_internationalized(sender_mailbox(h).email)
        && to_missing(h) ==> r == Err::<EnvelopData, MailError>(no_to_error()))
    &&& (r == Err::<EnvelopData, MailError>(no_to_error()) ==> to_missing(h))
    &&& (r == Err::<EnvelopData, MailError>(MailError::Encoding) ==> sender_shape_error(h) is None
        && !avoids_domain_rewriting(h))
    &&& (sender_shape_error(h) is None && !to_missing(h) && avoids_domain_rewriting(h) ==> r is Ok)
}

/// Derives the envelope from a mail's address headers.
///
/// The envelope sender is the `Sender` header when present, else the single
/// `From` mailbox; several `From` mailboxes without a `Sender`, or none at
/// all, are rejected. The recipients are the `To` mailboxes; a mail without
/// recipients is rejected.
pub fn derive_envelop_data_from_mail(mail: &Mail) -> (r: Result<EnvelopData, MailError>)
    ensures
        derive_post(mail.headers, r),
{
    let headers = &mail.headers;
    let smtp_from = match &headers.sender {
        Some(sender) => match mailaddress_from_mailbox(sender) {
            Ok(a) => a,
            Err(e) => {
                return Err(e);
            },
        },
        None => match &headers.from {
            None => {
                return Err(MailError::Validation(HeaderValidationError::NoFrom));
            },
            Some(from) => {
                if from.len() == 0 {
                    return Err(MailError::Validation(HeaderValidationError::NoFrom));
                }
                if from.len() > 1 {
                    return Err(
                        MailError::Validation(HeaderValidationError::MultiMailboxFromWithoutSender),
                    );
                }
                match mailaddress_from_mailbox(&from[0]) {
                    Ok(a) => a,
                    Err(e) => {
                        return Err(e);
                    },
                }
            },
        },
    };

    let smtp_to = match &headers.to {
        None => {
            return Err(MailError::Validation(HeaderValidationError::Custom(
                OtherValidationError::NoTo,
            )));
        },
        Some(to) => {
            if to.len() == 0 {
                return Err(MailError::Validation(HeaderValidationError::Custom(
                    OtherValidationError::NoTo,
                )));
            }
            let mut out: Vec<MailAddress> = Vec::new();
            let mut i: usize = 0;
            while i < to.len()
                invariant
                    i <= to@.len(),
                    to@.len() >= 1,
                    mail.headers.to == Some(*to),
                    sender_shape_error(mail.headers) is None,
                    out@.len() == i as int,
                    forall|j: int|
                        0 <= j < i ==> address_derived_from(#[trigger] out@[j], to@[j].email),
                decreases to@.len() - i,
            {
                match mailaddress_from_mailbox(&to[i]) {
                    Ok(a) => out.push(a),
                    Err(e) => {
                        proof {
                            assert(!is_internationalized(to@[i as int].email));
                        }
                        return Err(e);
                    },
                }
                i += 1;
            }
            out
        },
    };

    Ok(EnvelopData { from: Some(smtp_from), to: smtp_to })
}

impl MailRequest {
    /// Queues a mail whose envelope will be derived from its headers.
    pub fn new(mail: Mail) -> (r: Self)
        ensures
            r == (MailRequest { mail, envelop_data: None::<EnvelopData> }),
    {
        MailRequest { mail, envelop_data: None }
    }

    /// Queues a mail under a caller-fixed envelope.
    pub fn new_with_envelop(mail: Mail, envelop: EnvelopData) -> (r: Self)
        ensures
            r == (MailRequest { mail, envelop_data: Some(envelop) }),
    {
        MailRequest { mail, envelop_data: Some(envelop) }
    }

    /// Replaces the envelope, returning the one previously set, if any.
    pub fn override_envelop(&mut self, envelop: EnvelopData) -> (r: Option<EnvelopData>)
        ensures
            final(self).mail == old(self).mail,
            final(self).envelop_data == Some(envelop),
            r == old(self).envelop_data,
    {
        let prev = self.envelop_data.take();
        self.envelop_data = Some(envelop);
        prev
    }

    /// Splits the request into its mail and its envelope, deriving the
    /// envelope from the headers when the caller fixed none.
    pub fn into_mail_with_envelop(self) -> (r: Result<(Mail, EnvelopData), MailError>)
        ensures
            match self.envelop_data {
                Some(env) => r == Ok::<(Mail, EnvelopData), MailError>((self.mail, env)),
                None => match r {
                    Ok(pair) => pair.0 == self.mail && derive_post(
                        self.mail.headers,
                        Ok(pair.1),
                    ),
                    Err(e) => derive_post(self.mail.headers, Err(e)),
                },
            },
    {
        let MailRequest { mail, envelop_data } = self;
        let envelop = match envelop_data {
            Some(envelop) => envelop,
            None => match derive_envelop_data_from_mail(&mail) {
                Ok(env) => env,
                Err(e) => {
                    return Err(e);
                },
            },
        };
        Ok((mail, envelop))
    }
}

impl From<Mail> for MailRequest {
    fn from(mail: Mail) -> (r: Self) {
        MailRequest::new(mail)
    }
}

impl vstd::std_specs::convert::FromSpecImpl<Mail> for MailRequest {
    open spec fn obeys_from_spec() -> bool {
        true
    }

    open spec fn from_spec(mail: Mail) -> Self {
        MailRequest { mail, envelop_data: None }
    }
}

/// The rules of envelope derivation, spelled out: a `Sender` header always
/// wins over `From`; a single `From` stands in when no `Sender` is given;
/// several `From` mailboxes without a `Sender` are rejected; headers without
/// recipients are rejected.
pub proof fn lemma_envelope_derivation_rules(h: MailHeaders, r: Result<EnvelopData, MailError>)
    requires
        derive_post(h, r),
    ensures
        match (h.sender, r) {
            (Some(s), Ok(env)) => match env.from {
                Some(a) => address_derived_from(a, s.email),
                None => false,
            },
            _ => true,
        },
        match (h.sender, h.from, r) {
            (None, Some(f), Ok(env)) => f@.len() == 1 ==> match env.from {
                Some(a) => address_derived_from(a, f@[0].email),
                None => false,
            },
            _ => true,
        },
        match (h.sender, h.from) {
            (None, Some(f)) => f@.len() > 1 ==> r == Err::<EnvelopData, MailError>(
                MailError::Validation(HeaderValidationError::MultiMailboxFromWithoutSender),
            ),
            _ => true,
        },
        (h.sender is None && h.from is None) ==> r == Err::<EnvelopData, MailError>(
            MailError::Validation(HeaderValidationError::NoFrom),
        ),
        (h.to is None && sender_shape_error(h) is None && is_internationalized(
            sender_mailbox(h).email,
        )) ==> r == Err::<EnvelopData, MailError>(no_to_error()),
        r matches Ok(env) ==> env.wf(),
{
}

} // verus!
