use mail_smtp::address::MailAddress;
use mail_smtp::encode::{
    encode, encode_item, encode_mails, send, send_batch, send_mails, classify_transport,
    BatchSendState, EncodeMailResult, EncodingRequirement, MailEnvelop, MailType, SendMailsPlan,
    SendOutcome,
};
use mail_smtp::error::{LogicError, MailError, MailSendError, TransportError};
use mail_smtp::request::{EnvelopData, Mail, MailHeaders, MailRequest};
use mail_smtp::smtp_wrapper::MailResponse;

fn plain_addr(s: &str) -> MailAddress {
    MailAddress::new_unchecked(s.to_string(), false)
}

fn utf8_addr(s: &str) -> MailAddress {
    MailAddress::new_unchecked(s.to_string(), true)
}

fn envelope(from: &str, to: &str) -> EnvelopData {
    EnvelopData { from: Some(plain_addr(from)), to: vec![plain_addr(to)] }
}

fn request(from: &str, to: &str, body: &str) -> MailRequest {
    let mail = Mail { headers: MailHeaders { sender: None, from: None, to: None }, body: body.as_bytes().to_vec() };
    MailRequest::new_with_envelop(mail, envelope(from, to))
}

fn rendered(body: &str) -> Result<Vec<u8>, MailError> {
    Ok(body.as_bytes().to_vec())
}

#[test]
fn encode_wraps_rendered_bytes_with_the_fixed_envelope() {
    let req = request("a@x.test", "b@y.test", "hello");
    let me = encode(req, rendered("hello")).unwrap();
    assert_eq!(me.mail.body_bytes, "hello".as_bytes().to_vec());
    assert_eq!(me.mail.requirement, EncodingRequirement::Plain);
    assert_eq!(me.envelop.from.unwrap().as_str(), "a@x.test");
}

#[test]
fn encode_demands_the_extension_for_internationalized_envelopes() {
    let mail = Mail { headers: MailHeaders { sender: None, from: None, to: None }, body: vec![] };
    let env = EnvelopData { from: Some(utf8_addr("tüst@x.test")), to: vec![plain_addr("b@y.test")] };
    let me = encode(MailRequest::new_with_envelop(mail, env), rendered("x")).unwrap();
    assert_eq!(me.mail.requirement, EncodingRequirement::Smtputf8);
}

#[test]
fn encode_fails_with_the_renderers_error() {
    let req = request("a@x.test", "b@y.test", "hello");
    let err = encode(req, Err(MailError::Composition)).unwrap_err();
    assert_eq!(err, MailSendError::Mail(MailError::Composition));
}

#[test]
fn classify_transport_follows_the_envelope() {
    let plain = envelope("a@x.test", "b@y.test");
    assert_eq!(classify_transport(&plain), (MailType::Ascii, EncodingRequirement::Plain));
    let international = EnvelopData { from: Some(utf8_addr("tüst@x.test")), to: vec![plain_addr("b@y.test")] };
    assert_eq!(
        classify_transport(&international),
        (MailType::Internationalized, EncodingRequirement::Smtputf8)
    );
}

#[test]
fn one_bad_mail_does_not_break_the_batch() {
    // Three requests; the middle one fails to render. The two good ones are
    // delivered, the bad one gets exactly its own error, and only the two
    // good envelopes are ever handed to the session.
    let requests = vec![
        request("a@x.test", "b@y.test", "one"),
        request("a@x.test", "b@y.test", "two"),
        request("a@x.test", "b@y.test", "three"),
    ];
    let renders = vec![rendered("one"), Err(MailError::Composition), rendered("three")];
    let encoded = encode_mails(requests, renders);
    assert_eq!(encoded.len(), 3);

    let plan = send_mails(encoded);
    let mut batch = match plan {
        SendMailsPlan::Connect(batch) => batch,
        SendMailsPlan::AllFailed(_) => panic!("one mail encoded, so a session is needed"),
    };

    let mut sent_bodies: Vec<Vec<u8>> = Vec::new();
    loop {
        match batch.advance() {
            Some(envelope) => {
                sent_bodies.push(envelope.mail.body_bytes.clone());
                batch.record_send(SendOutcome::Completed(Ok(MailResponse))).unwrap();
            },
            None => break,
        }
    }
    let (results, remaining) = batch.into_parts();
    assert_eq!(remaining.len(), 0);
    assert_eq!(
        sent_bodies,
        vec!["one".as_bytes().to_vec(), "three".as_bytes().to_vec()]
    );
    assert_eq!(
        results,
        vec![
            Ok(()),
            Err(MailSendError::Mail(MailError::Composition)),
            Ok(()),
        ]
    );
}

#[test]
fn protocol_rejection_is_local_to_its_mail() {
    let requests = vec![
        request("a@x.test", "b@y.test", "one"),
        request("a@x.test", "b@y.test", "two"),
    ];
    let renders = vec![rendered("one"), rendered("two")];
    let plan = send_mails(encode_mails(requests, renders));
    let mut batch = match plan {
        SendMailsPlan::Connect(batch) => batch,
        SendMailsPlan::AllFailed(_) => panic!("both mails encoded"),
    };
    batch.advance().unwrap();
    batch
        .record_send(SendOutcome::Completed(Err(LogicError { code: 550 })))
        .unwrap();
    batch.advance().unwrap();
    batch.record_send(SendOutcome::Completed(Ok(MailResponse))).unwrap();
    assert!(batch.advance().is_none());
    let (results, _) = batch.into_parts();
    assert_eq!(
        results,
        vec![Err(MailSendError::Smtp(LogicError { code: 550 })), Ok(())]
    );
}

#[test]
fn transport_failure_aborts_the_batch() {
    let requests = vec![
        request("a@x.test", "b@y.test", "one"),
        request("a@x.test", "b@y.test", "two"),
        request("a@x.test", "b@y.test", "three"),
    ];
    let renders = vec![rendered("one"), rendered("two"), rendered("three")];
    let plan = send_mails(encode_mails(requests, renders));
    let mut batch = match plan {
        SendMailsPlan::Connect(batch) => batch,
        SendMailsPlan::AllFailed(_) => panic!("all mails encoded"),
    };
    batch.advance().unwrap();
    batch.record_send(SendOutcome::Completed(Ok(MailResponse))).unwrap();
    batch.advance().unwrap();
    let aborted = batch.record_send(SendOutcome::IoFailed).unwrap_err();
    assert_eq!(aborted, TransportError::Io);
    let (results, remaining) = batch.into_parts();
    assert_eq!(results, vec![Ok(())]);
    assert_eq!(remaining.len(), 1);
}

#[test]
fn all_failed_batch_never_opens_a_session() {
    let encoded: Vec<EncodeMailResult> = vec![
        Err(MailError::Composition),
        Err(MailError::Encoding),
    ];
    match send_mails(encoded) {
        SendMailsPlan::AllFailed(results) => {
            assert_eq!(
                results,
                vec![
                    Err(MailSendError::Mail(MailError::Composition)),
                    Err(MailSendError::Mail(MailError::Encoding)),
                ]
            );
        },
        SendMailsPlan::Connect(_) => panic!("nothing encoded, no session is owed"),
    }
}

#[test]
fn empty_batch_is_complete_at_once() {
    match send_mails(Vec::new()) {
        SendMailsPlan::AllFailed(results) => assert_eq!(results.len(), 0),
        SendMailsPlan::Connect(_) => panic!("an empty batch needs no session"),
    }
}

#[test]
fn send_plans_a_batch_of_one() {
    let req = request("a@x.test", "b@y.test", "solo");
    match send(req, rendered("solo")) {
        SendMailsPlan::Connect(batch) => {
            let (results, remaining) = batch.into_parts();
            assert_eq!(results.len(), 0);
            assert_eq!(remaining.len(), 1);
        },
        SendMailsPlan::AllFailed(_) => panic!("the one mail encoded"),
    }
}

#[test]
fn send_of_a_bad_mail_skips_the_session() {
    let req = request("a@x.test", "b@y.test", "solo");
    match send(req, Err(MailError::Encoding)) {
        SendMailsPlan::AllFailed(results) => {
            assert_eq!(results, vec![Err(MailSendError::Mail(MailError::Encoding))]);
        },
        SendMailsPlan::Connect(_) => panic!("nothing encoded, no session is owed"),
    }
}

#[test]
fn send_batch_composes_encoding_and_planning() {
    let requests = vec![
        request("a@x.test", "b@y.test", "one"),
        request("a@x.test", "b@y.test", "two"),
    ];
    let renders = vec![Err(MailError::Composition), Err(MailError::Encoding)];
    match send_batch(requests, renders) {
        SendMailsPlan::AllFailed(results) => {
            assert_eq!(
                results,
                vec![
                    Err(MailSendError::Mail(MailError::Composition)),
                    Err(MailSendError::Mail(MailError::Encoding)),
                ]
            );
        },
        SendMailsPlan::Connect(_) => panic!("nothing encoded, no session is owed"),
    }
}

#[test]
fn encode_item_derives_the_envelope_when_none_is_fixed() {
    let mail = Mail {
        headers: MailHeaders {
            sender: None,
            from: Some(vec![mail_smtp::address::Mailbox {
                display_name: None,
                email: mail_smtp::address::Email {
                    local_part: "ape".to_string(),
                    domain: "caffe.test".to_string(),
                },
            }]),
            to: Some(vec![mail_smtp::address::Mailbox {
                display_name: None,
                email: mail_smtp::address::Email {
                    local_part: "das".to_string(),
                    domain: "ding.test".to_string(),
                },
            }]),
        },
        body: "body".as_bytes().to_vec(),
    };
    let me: MailEnvelop = encode_item(MailRequest::new(mail), rendered("body")).unwrap();
    assert_eq!(me.envelop.from.unwrap().as_str(), "ape@caffe.test");
    assert_eq!(me.envelop.to[0].as_str(), "das@ding.test");
}
