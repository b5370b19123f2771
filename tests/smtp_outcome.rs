use alerting_email::email::FailureKind;
use alerting_email::smtp::{conclude, SmtpFault, SmtpReply};
use alerting_email::text::{decimal_text, join_lines};

fn reply(severity: u8, category: u8, detail: u8, lines: &[&str]) -> SmtpReply {
    SmtpReply { severity, category, detail, lines: lines.iter().map(|l| l.to_string()).collect() }
}

#[test]
fn decimal_notation() {
    assert_eq!(decimal_text(0), "0");
    assert_eq!(decimal_text(7), "7");
    assert_eq!(decimal_text(250), "250");
    assert_eq!(decimal_text(18446744073709551615), "18446744073709551615");
}

#[test]
fn lines_are_joined_by_spaces() {
    assert_eq!(join_lines(&vec![]), "");
    assert_eq!(join_lines(&vec![String::from("one")]), "one");
    assert_eq!(join_lines(&vec![String::from("a"), String::from("b c"), String::from("d")]), "a b c d");
}

#[test]
fn reply_text_carries_the_code() {
    let r = reply(2, 5, 0, &["2.0.0 Ok:", "queued as 12345"]);
    assert_eq!(r.code_number(), 250);
    assert_eq!(r.describe(), "[250] 2.0.0 Ok: queued as 12345");
}

#[test]
fn sent_report() {
    let r = conclude(&Ok(reply(2, 5, 0, &["2.0.0 Ok"]))).ok().expect("sent");
    assert_eq!(r.status, "sent");
    assert_eq!(r.report, "Email was sent with [250] 2.0.0 Ok");
}

#[test]
fn authentication_refusal() {
    let e = conclude(&Err(SmtpFault::Permanent(reply(5, 3, 5, &["5.7.8 bad credentials"]))))
        .err()
        .expect("failed");
    assert_eq!(e.kind, FailureKind::Authentication);
    assert_eq!(e.report, "SMTP authentication failed: [535] 5.7.8 bad credentials");
}

#[test]
fn rejected_message_is_a_transmission_failure() {
    let e = conclude(&Err(SmtpFault::Permanent(reply(5, 5, 0, &["mailbox unavailable"]))))
        .err()
        .expect("failed");
    assert_eq!(e.kind, FailureKind::Transmission);
    assert_eq!(e.report, "SMTP transmission failed: [550] mailbox unavailable");
    let t = conclude(&Err(SmtpFault::Transient(reply(4, 2, 1, &["try later"])))).err().unwrap();
    assert_eq!(t.kind, FailureKind::Transmission);
}

#[test]
fn fault_kinds() {
    let cases = vec![
        (SmtpFault::Transient(reply(4, 5, 4, &[])), FailureKind::Authentication),
        (SmtpFault::ChallengeParsing(String::from("bad base64")), FailureKind::Authentication),
        (SmtpFault::Client(String::from("Connection closed")), FailureKind::Connection),
        (SmtpFault::Resolution, FailureKind::Connection),
        (SmtpFault::Io(String::from("refused")), FailureKind::Connection),
        (SmtpFault::Tls(String::from("handshake")), FailureKind::Connection),
        (SmtpFault::ResponseParsing(String::from("garbage")), FailureKind::Transmission),
        (SmtpFault::Utf8Parsing(String::from("bytes")), FailureKind::Transmission),
        (SmtpFault::Parsing(String::from("nom")), FailureKind::Transmission),
    ];
    for (fault, kind) in cases {
        assert_eq!(fault.classify(), kind);
        let e = conclude(&Err(fault.clone())).err().unwrap();
        assert_eq!(e.kind, kind);
        assert_eq!(e.status, "failed");
        assert_eq!(e.report, String::from(kind.prefix_text()) + fault.describe().as_str());
    }
}

#[test]
fn io_fault_report() {
    let e = conclude(&Err(SmtpFault::Io(String::from("connection refused")))).err().unwrap();
    assert_eq!(e.report, "SMTP connection failed: connection refused");
}
