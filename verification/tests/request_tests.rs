use mail_smtp::address::{mailaddress_from_mailbox, Email, Mailbox};
use mail_smtp::error::{HeaderValidationError, MailError, OtherValidationError};
use mail_smtp::request::{derive_envelop_data_from_mail, Mail, MailHeaders, MailRequest};

fn mailbox(addr: &str) -> Mailbox {
    let at = addr.rfind('@').expect("an address has an @");
    Mailbox {
        display_name: None,
        email: Email {
            local_part: addr[..at].to_string(),
            domain: addr[at + 1..].to_string(),
        },
    }
}

fn mail_with(sender: Option<&str>, from: Option<Vec<&str>>, to: Option<Vec<&str>>) -> Mail {
    Mail {
        headers: MailHeaders {
            sender: sender.map(mailbox),
            from: from.map(|v| v.into_iter().map(mailbox).collect()),
            to: to.map(|v| v.into_iter().map(mailbox).collect()),
        },
        body: "abcd↓efg".as_bytes().to_vec(),
    }
}

#[test]
fn request_use_sender_if_given() {
    let mail = mail_with(
        Some("strange@caffe.test"),
        Some(vec!["ape@caffe.test", "epa@caffe.test"]),
        Some(vec!["das@ding.test"]),
    );
    let envelop_data = derive_envelop_data_from_mail(&mail).unwrap();
    assert_eq!(envelop_data.from.as_ref().unwrap().as_str(), "strange@caffe.test");
}

#[test]
fn request_use_from_if_no_sender_given() {
    let mail = mail_with(None, Some(vec!["ape@caffe.test"]), Some(vec!["das@ding.test"]));
    let envelop_data = derive_envelop_data_from_mail(&mail).unwrap();
    assert_eq!(envelop_data.from.as_ref().unwrap().as_str(), "ape@caffe.test");
}

#[test]
fn request_fail_if_no_sender_but_multi_mailbox_from() {
    let mail = mail_with(
        None,
        Some(vec!["ape@caffe.test", "a@b.test"]),
        Some(vec!["das@ding.test"]),
    );
    let envelop_data = derive_envelop_data_from_mail(&mail);
    envelop_data.unwrap_err();
}

#[test]
fn request_use_to() {
    let mail = mail_with(None, Some(vec!["ape@caffe.test"]), Some(vec!["das@ding.test"]));
    let envelop_data = derive_envelop_data_from_mail(&mail).unwrap();
    assert_eq!(envelop_data.to[0].as_str(), "das@ding.test");
}

#[test]
fn request_does_not_panic_with_tracing_enabled() {
    let mb = mailbox("hy@b");
    mailaddress_from_mailbox(&mb).unwrap();
}

#[test]
fn request_correctly_converts_mailbox() {
    let mb = mailbox("tast@tost.test");
    let address = mailaddress_from_mailbox(&mb).unwrap();
    assert_eq!(address.as_str(), "tast@tost.test");
    assert_eq!(address.needs_smtputf8(), false);
}

#[test]
fn request_tracks_if_smtputf8_is_needed() {
    let mb = mailbox("tüst@tost.test");
    let address = mailaddress_from_mailbox(&mb).unwrap();
    assert_eq!(address.as_str(), "tüst@tost.test");
    assert_eq!(address.needs_smtputf8(), true);
}

#[test]
fn request_puny_encodes_domain_if_smtputf8_is_not_needed() {
    let mb = mailbox("tast@tüst.test");
    let address = mailaddress_from_mailbox(&mb).unwrap();
    assert_eq!(address.as_str(), "tast@xn--tst-hoa.test");
    assert_eq!(address.needs_smtputf8(), false);
}

#[test]
fn request_does_not_puny_encodes_domain_if_smtputf8_is_needed() {
    let mb = mailbox("töst@tüst.test");
    let address = mailaddress_from_mailbox(&mb).unwrap();
    assert_eq!(address.as_str(), "töst@tüst.test");
    assert_eq!(address.needs_smtputf8(), true);
}

#[test]
fn fails_with_no_from_when_neither_sender_nor_from_given() {
    let mail = mail_with(None, None, Some(vec!["das@ding.test"]));
    let err = derive_envelop_data_from_mail(&mail).unwrap_err();
    assert_eq!(err, MailError::Validation(HeaderValidationError::NoFrom));
}

#[test]
fn fails_with_multi_from_error_exactly() {
    let mail = mail_with(
        None,
        Some(vec!["ape@caffe.test", "a@b.test"]),
        Some(vec!["das@ding.test"]),
    );
    let err = derive_envelop_data_from_mail(&mail).unwrap_err();
    assert_eq!(
        err,
        MailError::Validation(HeaderValidationError::MultiMailboxFromWithoutSender)
    );
}

#[test]
fn fails_with_no_to_when_to_header_missing() {
    let mail = mail_with(None, Some(vec!["ape@caffe.test"]), None);
    let err = derive_envelop_data_from_mail(&mail).unwrap_err();
    assert_eq!(
        err,
        MailError::Validation(HeaderValidationError::Custom(OtherValidationError::NoTo))
    );
}

#[test]
fn fails_with_no_to_when_to_list_empty() {
    let mail = mail_with(None, Some(vec!["ape@caffe.test"]), Some(vec![]));
    let err = derive_envelop_data_from_mail(&mail).unwrap_err();
    assert_eq!(
        err,
        MailError::Validation(HeaderValidationError::Custom(OtherValidationError::NoTo))
    );
}

#[test]
fn derives_every_recipient_in_order() {
    let mail = mail_with(
        None,
        Some(vec!["ape@caffe.test"]),
        Some(vec!["a@x.test", "b@y.test", "c@z.test"]),
    );
    let envelop_data = derive_envelop_data_from_mail(&mail).unwrap();
    let tos: Vec<&str> = envelop_data.to.iter().map(|a| a.as_str()).collect();
    assert_eq!(tos, vec!["a@x.test", "b@y.test", "c@z.test"]);
}

#[test]
fn fixed_envelope_is_kept_and_returned_on_override() {
    let mail = mail_with(None, Some(vec!["ape@caffe.test"]), Some(vec!["das@ding.test"]));
    let fixed = derive_envelop_data_from_mail(&mail).unwrap();
    let mut request = MailRequest::new_with_envelop(mail.clone(), fixed.clone());
    let other = {
        let other_mail = mail_with(None, Some(vec!["b@y.test"]), Some(vec!["c@z.test"]));
        derive_envelop_data_from_mail(&other_mail).unwrap()
    };
    let previous = request.override_envelop(other.clone());
    assert_eq!(previous, Some(fixed));
    let (_, envelop) = request.into_mail_with_envelop().unwrap();
    assert_eq!(envelop, other);
}

#[test]
fn missing_envelope_is_derived_at_split_time() {
    let mail = mail_with(
        Some("strange@caffe.test"),
        Some(vec!["ape@caffe.test"]),
        Some(vec!["das@ding.test"]),
    );
    let request = MailRequest::new(mail);
    let (_, envelop) = request.into_mail_with_envelop().unwrap();
    assert_eq!(envelop.from.unwrap().as_str(), "strange@caffe.test");
}
