use vstd::prelude::*;

use crate::error::{MailError, MailSendError, TransportError, LogicError};
use crate::request::{
    avoids_domain_rewriting, derive_post, sender_shape_error, to_missing, EnvelopData, MailRequest,
};
use crate::smtp_wrapper::MailResponse;

verus! {

/// How a mail's bytes are allowed to look on the wire.
#[derive(Clone, Copy, Debug, PartialEq, Eq, Structural)]
pub enum MailType {
    /// Seven-bit ASCII throughout; domains rewritten where needed.
    Ascii,
    /// The internationalized form; requires the extension for it.
    Internationalized,
}

/// Which protocol extension the encoded mail demands of the session.
#[derive(Clone, Copy, Debug, PartialEq, Eq, Structural)]
pub enum EncodingRequirement {
    /// No extension needed.
    Plain,
    /// The internationalized-address extension is required.
    Smtputf8,
}

/// A mail rendered to wire bytes, together with the extension it demands.
#[derive(Debug, PartialEq, Eq)]
pub struct SmtpMail {
    pub requirement: EncodingRequirement,
    pub body_bytes: Vec<u8>,
}

/// A wire-ready mail joined with the envelope that addresses it: the unit the
/// send stage consumes, produced exactly once per request.
#[derive(Debug, PartialEq, Eq)]
pub struct MailEnvelop {
    pub mail: SmtpMail,
    pub envelop: EnvelopData,
}

/// The per-request outcome of the encoding stage.
pub type EncodeMailResult = Result<MailEnvelop, MailError>;

/// The per-request outcome of a batch submission.
pub type SendMailResult = Result<(), MailSendError>;

/// The extension an envelope demands of the session that carries it.
pub open spec fn requirement_for(env: EnvelopData) -> EncodingRequirement {
    if env.spec_needs_smtputf8() {
        EncodingRequirement::Smtputf8
    } else {
        EncodingRequirement::Plain
    }
}

/// The transport classification of an envelope: the internationalized wire
/// form exactly when some of its addresses needs the extension.
pub fn classify_transport(envelop: &EnvelopData) -> (r: (MailType, EncodingRequirement))
    ensures
        envelop.spec_needs_smtputf8() ==> r == (
            MailType::Internationalized,
            EncodingRequirement::Smtputf8,
        ),
        !envelop.spec_needs_smtputf8() ==> r == (MailType::Ascii, EncodingRequirement::Plain),
{
    if envelop.needs_smtputf8() {
        (MailType::Internationalized, EncodingRequirement::Smtputf8)
    } else {
        (MailType::Ascii, EncodingRequirement::Plain)
    }
}

/// The contract of encoding one request, given what the outside renderer made
/// of the mail's content: a fixed envelope is used as given, a missing one is
/// derived from the headers; the rendered bytes are wrapped together with the
/// extension the envelope demands; each failure is the request's own.
pub open spec fn encode_item_post(
    request: MailRequest,
    rendered: Result<Vec<u8>, MailError>,
    r: Result<MailEnvelop, MailError>,
) -> bool {
    match request.envelop_data {
        Some(env) => r == match rendered {
            Ok(bytes) => Ok::<MailEnvelop, MailError>(
                MailEnvelop {
                    mail: SmtpMail { requirement: requirement_for(env), body_bytes: bytes },
                    envelop: env,
                },
            ),
            Err(e) => Err::<MailEnvelop, MailError>(e),
        },
        None => {
            &&& (r matches Ok(me) ==> {
                &&& derive_post(request.mail.headers, Ok(me.envelop))
                &&& rendered == Ok::<Vec<u8>, MailError>(me.mail.body_bytes)
                &&& me.mail.requirement == requirement_for(me.envelop)
            })
            &&& (r matches Err(x) ==> derive_post(request.mail.headers, Err(x)) || rendered
                == Err::<Vec<u8>, MailError>(x))
            &&& (sender_shape_error(request.mail.headers) is None && !to_missing(
                request.mail.headers,
            ) && avoids_domain_rewriting(request.mail.headers) && rendered is Ok ==> r is Ok)
        },
    }
}

/// Encodes one request of a batch: resolves or derives its envelope and wraps
/// the rendered bytes. `rendered` is what the outside renderer produced for
/// this mail's content; it is consulted only after the envelope resolves.
pub fn encode_item(request: MailRequest, rendered: Result<Vec<u8>, MailError>) -> (r: Result<
    MailEnvelop,
    MailError,
>)
    ensures
        encode_item_post(request, rendered, r),
{
    let (_, envelop) = match request.into_mail_with_envelop() {
        Ok(pair) => pair,
        Err(e) => {
            return Err(e);
        },
    };
    let bytes = match rendered {
        Ok(b) => b,
        Err(e) => {
            return Err(e);
        },
    };
    let requirement = if envelop.needs_smtputf8() {
        EncodingRequirement::Smtputf8
    } else {
        EncodingRequirement::Plain
    };
    Ok(MailEnvelop { mail: SmtpMail { requirement, body_bytes: bytes }, envelop })
}

/// Encodes one request for the single-mail entry point, folding the failure
/// into the submission error type.
pub fn encode(request: MailRequest, rendered: Result<Vec<u8>, MailError>) -> (r: Result<
    MailEnvelop,
    MailSendError,
>)
    ensures
        match r {
            Ok(me) => encode_item_post(request, rendered, Ok(me)),
            Err(e) => match e {
                MailSendError::Mail(x) => encode_item_post(request, rendered, Err(x)),
                _ => false,
            },
        },
{
    match encode_item(request, rendered) {
        Ok(me) => Ok(me),
        Err(e) => Err(MailSendError::Mail(e)),
    }
}

/// Encodes a whole batch, one outcome per request, in request order. A
/// failure encodes into that request's own error and touches no other
/// request.
pub fn encode_mails(requests: Vec<MailRequest>, rendered: Vec<Result<Vec<u8>, MailError>>) -> (r:
    Vec<EncodeMailResult>)
    requires
        rendered@.len() == requests@.len(),
    ensures
        r@.len() == requests@.len(),
        forall|i: int|
            0 <= i < requests@.len() ==> encode_item_post(
                requests@[i],
                rendered@[i],
                #[trigger] r@[i],
            ),
{
    let ghost req_snapshot = requests@;
    let ghost ren_snapshot = rendered@;
    let mut requests = requests;
    let mut rendered = rendered;
    let mut out: Vec<EncodeMailResult> = Vec::new();
    while requests.len() > 0
        invariant
            requests@.len() == rendered@.len(),
            out@.len() + requests@.len() == req_snapshot.len(),
            requests@ == req_snapshot.subrange(out@.len() as int, req_snapshot.len() as int),
            rendered@ == ren_snapshot.subrange(out@.len() as int, ren_snapshot.len() as int),
            ren_snapshot.len() == req_snapshot.len(),
            forall|j: int|
                0 <= j < out@.len() ==> encode_item_post(
                    req_snapshot[j],
                    ren_snapshot[j],
                    #[trigger] out@[j],
                ),
        decreases requests@.len(),
    {
        let request = requests.remove(0);
        let item_rendered = rendered.remove(0);
        let item = encode_item(request, item_rendered);
        out.push(item);
    }
    out
}

/// What one outside send of an envelope produced.
#[derive(Debug, PartialEq, Eq)]
pub enum SendOutcome {
    /// The transaction finished: accepted, or rejected by the server at the
    /// protocol level. The session stays usable either way.
    Completed(Result<MailResponse, LogicError>),
    /// The transport failed; the session is gone and the batch aborts.
    IoFailed,
}

/// How a disposed batch item's outcome relates to its encoding: an encoding
/// failure becomes exactly that request's error; an encoded mail's outcome is
/// whatever the session answered.
pub open spec fn item_result_matches(item: EncodeMailResult, res: SendMailResult) -> bool {
    match item {
        Err(e) => res == Err::<(), MailSendError>(MailSendError::Mail(e)),
        Ok(_) => res is Ok || res matches Err(MailSendError::Smtp(_)),
    }
}

/// The send stage of a batch: consumes encoding outcomes in order, hands each
/// successfully encoded mail out to be sent on the single session, and
/// collects one outcome per disposed request. Encoding failures are disposed
/// of without the session ever seeing them; a transport failure aborts the
/// whole batch.
pub struct BatchSendState {
    /// The encoding outcomes not yet disposed of, in request order.
    pub remaining: Vec<EncodeMailResult>,
    /// One outcome per disposed request, in request order.
    pub results: Vec<SendMailResult>,
    /// An envelope has been handed out and its send has not been recorded.
    pub in_flight: bool,
    /// A transport failure ended the batch.
    pub aborted: bool,
    /// The whole input of the batch, for specification only.
    pub input: Ghost<Seq<EncodeMailResult>>,
}

impl BatchSendState {
    /// How many input items have been taken off `remaining`.
    pub open spec fn disposed(&self) -> int {
        self.results@.len() + (if self.in_flight {
            1int
        } else {
            0int
        }) + (if self.aborted {
            1int
        } else {
            0int
        })
    }

    /// The batch's bookkeeping invariant: `remaining` is the input suffix not
    /// yet disposed of; every recorded outcome matches its request; only a
    /// successfully encoded mail can be in flight or aborted on.
    pub open spec fn wf(&self) -> bool {
        &&& 0 <= self.disposed() <= self.input@.len()
        &&& self.remaining@ == self.input@.subrange(self.disposed(), self.input@.len() as int)
        &&& !(self.in_flight && self.aborted)
        &&& forall|j: int|
            0 <= j < self.results@.len() ==> item_result_matches(
                self.input@[j],
                #[trigger] self.results@[j],
            )
        &&& (self.in_flight ==> self.input@[self.results@.len() as int] is Ok)
        &&& (self.aborted ==> self.input@[self.results@.len() as int] is Ok)
    }

    /// A fresh batch over the given encoding outcomes.
    pub fn new(mails: Vec<EncodeMailResult>) -> (r: Self)
        ensures
            r.wf(),
            r.input@ == mails@,
            r.remaining@ == mails@,
            r.results@.len() == 0,
            !r.in_flight,
            !r.aborted,
    {
        let ghost input_seq = mails@;
        let r = BatchSendState {
            remaining: mails,
            results: Vec::new(),
            in_flight: false,
            aborted: false,
            input: Ghost(input_seq),
        };
        proof {
            assert(r.remaining@ =~= r.input@.subrange(0, r.input@.len() as int));
        }
        r
    }

    /// Disposes of encoding failures in order (each becomes its request's own
    /// error outcome) until the next successfully encoded mail, which is
    /// handed out to be sent, or until the batch is exhausted.
    pub fn advance(&mut self) -> (r: Option<MailEnvelop>)
        requires
            old(self).wf(),
            !old(self).in_flight,
            !old(self).aborted,
        ensures
            final(self).wf(),
            final(self).input == old(self).input,
            !final(self).aborted,
            final(self).results@.len() >= old(self).results@.len(),
            final(self).results@.subrange(0, old(self).results@.len() as int)
                == old(self).results@,
            forall|j: int|
                old(self).results@.len() <= j < final(self).results@.len()
                    ==> final(self).input@[j] is Err && #[trigger] final(self).results@[j] == Err::<
                    (),
                    MailSendError,
                >(MailSendError::Mail(final(self).input@[j]->Err_0)),
            match r {
                Some(env) => final(self).in_flight
                    && final(self).input@[final(self).results@.len() as int]
                    == Ok::<MailEnvelop, MailError>(env),
                None => !final(self).in_flight
                    && final(self).results@.len() == final(self).input@.len(),
            },
    {
        let ghost base = self.results@.len() as int;
        let mut handed: Option<MailEnvelop> = None;
        while handed.is_none() && self.remaining.len() > 0
            invariant
                self.wf(),
                !self.aborted,
                self.input == old(self).input,
                base == old(self).results@.len(),
                self.results@.len() >= base,
                self.results@.subrange(0, base) == old(self).results@,
                forall|j: int|
                    base <= j < self.results@.len() ==> self.input@[j] is Err
                        && #[trigger] self.results@[j] == Err::<(), MailSendError>(
                        MailSendError::Mail(self.input@[j]->Err_0),
                    ),
                match handed {
                    None => !self.in_flight,
                    Some(env) => self.in_flight && self.input@[self.results@.len() as int] == Ok::<
                        MailEnvelop,
                        MailError,
                    >(env),
                },
            decreases self.remaining@.len(),
        {
            let ghost pre = *self;
            let item = self.remaining.remove(0);
            proof {
                assert(item == self.input@[self.results@.len() as int]);
            }
            match item {
                Err(e) => {
                    self.results.push(Err(MailSendError::Mail(e)));
                },
                Ok(env) => {
                    self.in_flight = true;
                    handed = Some(env);
                },
            }
            proof {
                assert(self.remaining@ =~= self.input@.subrange(
                    self.disposed(),
                    self.input@.len() as int,
                ));
                assert(self.results@.subrange(0, base) =~= old(self).results@);
            }
        }
        if handed.is_none() {
            proof {
                assert(self.remaining@.len() == 0);
                assert(self.results@.len() == self.input@.len());
            }
        }
        handed
    }

    /// Records what the outside send of the pending envelope produced. A
    /// completed transaction becomes the pending request's outcome and the
    /// batch goes on; a transport failure aborts the batch, and the session
    /// must not be used again.
    pub fn record_send(&mut self, outcome: SendOutcome) -> (r: Result<(), TransportError>)
        requires
            old(self).wf(),
            old(self).in_flight,
        ensures
            final(self).wf(),
            final(self).input == old(self).input,
            final(self).remaining == old(self).remaining,
            !final(self).in_flight,
            match outcome {
                SendOutcome::Completed(res) => {
                    &&& r is Ok
                    &&& !final(self).aborted
                    &&& final(self).results@ == old(self).results@.push(
                        match res {
                            Ok(_) => Ok::<(), MailSendError>(()),
                            Err(logic) => Err::<(), MailSendError>(MailSendError::Smtp(logic)),
                        },
                    )
                },
                SendOutcome::IoFailed => {
                    &&& r == Err::<(), TransportError>(TransportError::Io)
                    &&& final(self).aborted
                    &&& final(self).results@ == old(self).results@
                },
            },
    {
        self.in_flight = false;
        match outcome {
            SendOutcome::Completed(res) => {
                match res {
                    Ok(_) => self.results.push(Ok(())),
                    Err(logic) => self.results.push(Err(MailSendError::Smtp(logic))),
                }
                proof {
                    assert(self.remaining@ =~= self.input@.subrange(
                        self.disposed(),
                        self.input@.len() as int,
                    ));
                }
                Ok(())
            },
            SendOutcome::IoFailed => {
                self.aborted = true;
                Err(TransportError::Io)
            },
        }
    }

    /// Takes the batch apart: the outcomes recorded so far and the requests
    /// never disposed of.
    pub fn into_parts(self) -> (r: (Vec<SendMailResult>, Vec<EncodeMailResult>))
        ensures
            r.0@ == self.results@,
            r.1@ == self.remaining@,
    {
        let BatchSendState { remaining, results, in_flight: _, aborted: _, input: _ } = self;
        (results, remaining)
    }
}

/// A failed encoding is isolated: the outcome recorded for it is exactly its
/// own error, untouched by anything the session did for other requests.
pub proof fn lemma_batch_isolation(s: BatchSendState, j: int)
    requires
        s.wf(),
        0 <= j < s.results@.len(),
        s.input@[j] is Err,
    ensures
        s.results@[j] == Err::<(), MailSendError>(MailSendError::Mail(s.input@[j]->Err_0)),
{
    assert(item_result_matches(s.input@[j], s.results@[j]));
}

/// Begins the send stage of a batch over one session: the returned state
/// machine disposes of the encoding outcomes in order as `advance` and
/// `record_send` are called around the outside sends.
pub fn send_encoded_mails(mails: Vec<EncodeMailResult>) -> (r: BatchSendState)
    ensures
        r.wf(),
        r.input@ == mails@,
        r.remaining@ == mails@,
        r.results@.len() == 0,
        !r.in_flight,
        !r.aborted,
{
    BatchSendState::new(mails)
}

/// How a batch submission begins, decided from the encoding outcomes alone.
pub enum SendMailsPlan {
    /// Every request already failed in encoding: the outcomes are complete
    /// and no session is ever opened.
    AllFailed(Vec<SendMailResult>),
    /// At least one mail encoded: open a session and run the batch.
    Connect(BatchSendState),
}

/// What the batch planner promises about its plan.
pub open spec fn send_mails_post(encoded: Seq<EncodeMailResult>, r: SendMailsPlan) -> bool {
    match r {
        SendMailsPlan::AllFailed(results) => {
            &&& forall|i: int| 0 <= i < encoded.len() ==> (#[trigger] encoded[i]) is Err
            &&& results@.len() == encoded.len()
            &&& forall|i: int|
                0 <= i < encoded.len() ==> #[trigger] results@[i] == Err::<(), MailSendError>(
                    MailSendError::Mail(encoded[i]->Err_0),
                )
        },
        SendMailsPlan::Connect(batch) => {
            &&& exists|i: int| 0 <= i < encoded.len() && (#[trigger] encoded[i]) is Ok
            &&& batch.wf()
            &&& batch.input@ == encoded
            &&& batch.remaining@ == encoded
            &&& batch.results@.len() == 0
            &&& !batch.in_flight
            &&& !batch.aborted
        },
    }
}

/// Plans a batch submission from its encoding outcomes: when every mail
/// already failed to encode, the per-request errors are complete and no
/// session is opened; otherwise the batch is sent over one session.
pub fn send_mails(encoded: Vec<EncodeMailResult>) -> (r: SendMailsPlan)
    ensures
        send_mails_post(encoded@, r),
{
    let mut any_ok = false;
    let mut i: usize = 0;
    while i < encoded.len()
        invariant
            i <= encoded@.len(),
            any_ok == exists|j: int| 0 <= j < i && (#[trigger] encoded@[j]) is Ok,
        decreases encoded@.len() - i,
    {
        let is_ok = match &encoded[i] {
            Ok(_) => true,
            Err(_) => false,
        };
        if is_ok {
            any_ok = true;
        }
        proof {
            if !any_ok {
                assert(forall|j: int| 0 <= j < i + 1 ==> !((#[trigger] encoded@[j]) is Ok));
            }
        }
        i += 1;
    }

    if any_ok {
        SendMailsPlan::Connect(BatchSendState::new(encoded))
    } else {
        let ghost enc_snapshot = encoded@;
        let mut encoded = encoded;
        let mut results: Vec<SendMailResult> = Vec::new();
        while encoded.len() > 0
            invariant
                results@.len() + encoded@.len() == enc_snapshot.len(),
                encoded@ == enc_snapshot.subrange(results@.len() as int, enc_snapshot.len() as int),
                forall|j: int| 0 <= j < enc_snapshot.len() ==> !((#[trigger] enc_snapshot[j]) is Ok),
                forall|j: int|
                    0 <= j < results@.len() ==> #[trigger] results@[j] == Err::<(), MailSendError>(
                        MailSendError::Mail(enc_snapshot[j]->Err_0),
                    ),
            decreases encoded@.len(),
        {
            match encoded.remove(0) {
                Err(e) => results.push(Err(MailSendError::Mail(e))),
                Ok(_) => {
                    proof {
                        assert(false);
                    }
                },
            }
        }
        SendMailsPlan::AllFailed(results)
    }
}

/// Plans the submission of a single mail: a batch of one.
pub fn send(request: MailRequest, rendered: Result<Vec<u8>, MailError>) -> (r: SendMailsPlan)
    ensures
        match r {
            SendMailsPlan::AllFailed(results) => results@.len() == 1 && match results@[0] {
                Err(e) => match e {
                    MailSendError::Mail(x) => encode_item_post(request, rendered, Err(x)),
                    _ => false,
                },
                Ok(_) => false,
            },
            SendMailsPlan::Connect(batch) => batch.input@.len() == 1 && match batch.input@[0] {
                Ok(me) => encode_item_post(request, rendered, Ok(me)),
                Err(_) => false,
            } && send_mails_post(batch.input@, r),
        },
{
    let item = encode_item(request, rendered);
    let mut batch: Vec<EncodeMailResult> = Vec::new();
    batch.push(item);
    send_mails(batch)
}

/// Plans a whole batch submission straight from the requests and what the
/// outside renderer produced for each.
pub fn send_batch(requests: Vec<MailRequest>, rendered: Vec<Result<Vec<u8>, MailError>>) -> (r:
    SendMailsPlan)
    requires
        rendered@.len() == requests@.len(),
    ensures
        exists|enc: Seq<EncodeMailResult>|
            {
                &&& enc.len() == requests@.len()
                &&& (forall|i: int|
                    0 <= i < requests@.len() ==> encode_item_post(
                        requests@[i],
                        rendered@[i],
                        #[trigger] enc[i],
                    ))
                &&& #[trigger] send_mails_post(enc, r)
            },
{
    let encoded = encode_mails(requests, rendered);
    let ghost enc_seq = encoded@;
    let r = send_mails(encoded);
    proof {
        assert(send_mails_post(enc_seq, r));
    }
    r
}

} // verus!
