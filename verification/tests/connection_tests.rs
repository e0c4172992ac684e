use mail_smtp::address::MailAddress;
use mail_smtp::request::EnvelopData;
use mail_smtp::smtp_wrapper::{
    mail_commands, CompletionState, ConnEvent, ConnectionState, PollStateResult, SmtpCommand,
};

fn addr(s: &str) -> MailAddress {
    MailAddress::new_unchecked(s.to_string(), false)
}

#[test]
fn commands_are_mail_then_one_rcpt_per_recipient_in_order() {
    let envelop = EnvelopData {
        from: Some(addr("a@x.test")),
        to: vec![addr("b@y.test"), addr("c@z.test")],
    };
    let cmds = mail_commands(envelop);
    assert_eq!(cmds.len(), 3);
    assert_eq!(cmds[0], SmtpCommand::Mail(Some(addr("a@x.test"))));
    assert_eq!(cmds[1], SmtpCommand::Recipient(addr("b@y.test")));
    assert_eq!(cmds[2], SmtpCommand::Recipient(addr("c@z.test")));
}

#[test]
fn connection_walks_its_happy_path() {
    let mut con = ConnectionState::Idle;
    assert_eq!(
        con.poll_state_completion(ConnEvent::Pending),
        PollStateResult::Ready(CompletionState::Idle)
    );
    con.change_into_connecting();
    assert_eq!(
        con.poll_state_completion(ConnEvent::Pending),
        PollStateResult::NotReady
    );
    assert_eq!(
        con.poll_state_completion(ConnEvent::ConnectDone),
        PollStateResult::Ready(CompletionState::Usable(None))
    );
    let envelop = EnvelopData { from: Some(addr("a@x.test")), to: vec![addr("b@y.test")] };
    assert!(con.send_mail(b"body".to_vec(), envelop).is_ok());
    assert!(matches!(con, ConnectionState::ConnectionInUse { .. }));
}

#[test]
fn send_is_handed_back_when_no_session_is_free() {
    let mut con = ConnectionState::Idle;
    let envelop = EnvelopData { from: Some(addr("a@x.test")), to: vec![addr("b@y.test")] };
    let handed_back = con.send_mail(b"body".to_vec(), envelop).unwrap_err();
    assert_eq!(handed_back.0, b"body".to_vec());
    assert!(matches!(con, ConnectionState::Idle));
}

#[test]
fn in_use_connection_carries_exactly_the_given_bytes() {
    let mut con = ConnectionState::Connected;
    let envelop = EnvelopData { from: Some(addr("a@x.test")), to: vec![addr("b@y.test")] };
    con.send_mail(b"payload".to_vec(), envelop).unwrap();
    match &con {
        ConnectionState::ConnectionInUse { body_bytes, .. } => {
            assert_eq!(body_bytes, &b"payload".to_vec());
        },
        _ => panic!("a free session must take the mail"),
    }
}

#[test]
fn terminating_overrides_a_close_under_way_but_not_conversely() {
    let mut con = ConnectionState::Connected;
    con.close_current().unwrap();
    assert_eq!(con, ConnectionState::Closing { is_termination: false });
    con.terminate().unwrap();
    assert_eq!(con, ConnectionState::Closing { is_termination: true });
    con.close_current().unwrap();
    assert_eq!(con, ConnectionState::Closing { is_termination: true });
}

#[test]
fn non_terminating_close_returns_to_idle() {
    let mut con = ConnectionState::Connected;
    con.close_current().unwrap();
    assert_eq!(
        con.poll_state_completion(ConnEvent::CloseDone),
        PollStateResult::Ready(CompletionState::Idle)
    );
    assert_eq!(con, ConnectionState::Idle);
}

#[test]
fn terminated_connection_never_comes_back() {
    let mut con = ConnectionState::Idle;
    con.terminate().unwrap();
    assert_eq!(con, ConnectionState::Terminated);
    assert_eq!(
        con.poll_state_completion(ConnEvent::Pending),
        PollStateResult::Ready(CompletionState::Terminated)
    );
    con.close_current().unwrap();
    assert_eq!(con, ConnectionState::Terminated);
    let envelop = EnvelopData { from: Some(addr("a@x.test")), to: vec![addr("b@y.test")] };
    assert!(con.send_mail(b"body".to_vec(), envelop).is_err());
    assert_eq!(con, ConnectionState::Terminated);
}

#[test]
fn transport_failure_of_a_send_terminates_the_session() {
    let mut con = ConnectionState::Connected;
    let envelop = EnvelopData { from: Some(addr("a@x.test")), to: vec![addr("b@y.test")] };
    con.send_mail(b"body".to_vec(), envelop).unwrap();
    assert_eq!(
        con.poll_state_completion(ConnEvent::SendFailedIo),
        PollStateResult::IoError
    );
    assert_eq!(con, ConnectionState::Terminated);
}
