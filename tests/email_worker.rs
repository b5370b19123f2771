use alerting_email::config::{AppConfig, SMTPConfig, DEFAULT_TIMEOUT_SECS};
use alerting_email::email::{AuthMechanism, EmailData, EmailError, EmailSender, FailureKind};
use alerting_email::smtp::{SmtpFault, SmtpReply};

fn relay_config() -> SMTPConfig {
    let mut c = SMTPConfig::new();
    c.host = String::from("smtp.example.com");
    c.port = String::from("465");
    c.login = String::from("relay-user");
    c.password = String::from("SECRET-REDACTED");
    c.full_name = String::from("Alert Desk");
    c.email_address = String::from("alerts@example.com");
    c
}

fn request() -> EmailData {
    EmailData {
        subject: String::from("t"),
        from: String::from("a@x.com"),
        to: String::from("b@x.com"),
        message: String::from("hi"),
    }
}

#[test]
fn blank_configs() {
    let c = SMTPConfig::new();
    assert!(c.host.is_empty() && c.port.is_empty() && c.email_address.is_empty());
    assert_eq!(c.timeout, None);
    let a = AppConfig::new();
    assert_eq!(a.component, "unknown");
    assert_eq!(a.project, "Actix Alerting Email");
    assert_eq!(a.web_root, "/");
    assert_eq!(a.mail_worker, 2);
    assert!(a.smtp.host.is_empty());
}

#[test]
fn app_config_copy_is_equal_and_separate() {
    let mut a = AppConfig::new();
    a.smtp = relay_config();
    let mut b = a.duplicate();
    assert_eq!(b.smtp.host, "smtp.example.com");
    assert_eq!(b.project, "Actix Alerting Email");
    assert_eq!(b.mail_worker, 2);
    b.smtp.host = String::from("changed");
    assert_eq!(a.smtp.host, "smtp.example.com");
}

#[test]
fn sender_keeps_its_own_copy() {
    let mut c = relay_config();
    let mut sender = EmailSender::from_config(&c);
    c.host = String::from("other.example.com");
    assert_eq!(sender.config.host, "smtp.example.com");
    sender.set_config(&c);
    assert_eq!(sender.config.host, "other.example.com");
    assert!(EmailSender::new().config.host.is_empty());
}

#[test]
fn error_report_names_its_kind() {
    let e = EmailError::new(FailureKind::Authentication, "535 bad credentials");
    assert_eq!(e.status, "failed");
    assert_eq!(e.report, "SMTP authentication failed: 535 bad credentials");
    assert_eq!(e.kind, FailureKind::Authentication);
}

#[test]
fn empty_host_fails_with_connection_report() {
    let mut c = relay_config();
    c.host = String::new();
    let e = EmailSender::from_config(&c).prepare(&request()).err().expect("must fail");
    assert_eq!(e.status, "failed");
    assert_eq!(e.kind, FailureKind::Connection);
    assert!(e.report.contains("connection"));
    assert_eq!(e.report, "SMTP connection failed: no SMTP host is configured");
}

#[test]
fn empty_port_fails_before_connecting() {
    let mut c = relay_config();
    c.port = String::new();
    let e = EmailSender::from_config(&c).prepare(&request()).err().expect("must fail");
    assert_eq!(e.report, "SMTP connection failed: no SMTP port is configured");
}

#[test]
fn invalid_configured_address_is_a_configuration_error() {
    let mut c = relay_config();
    c.email_address = String::from("not an address");
    let e = EmailSender::from_config(&c).prepare(&request()).err().expect("must fail");
    assert_eq!(e.kind, FailureKind::Configuration);
    assert!(e.report.starts_with("configuration error: "));
}

#[test]
fn delivery_uses_configured_mailbox() {
    let sender = EmailSender::from_config(&relay_config());
    let d = sender.prepare(&request()).ok().expect("complete configuration");
    assert_eq!(d.server, "smtp.example.com:465");
    assert_eq!(d.tls_domain, "smtp.example.com");
    assert_eq!(d.hello, "localhost");
    assert_eq!(d.login, "relay-user");
    assert!(d.require_tls);
    assert_eq!(d.mechanism, AuthMechanism::Login);
    assert_eq!(d.outgoing.forward_header, "X-Forward-From");
    assert_eq!(d.timeout_secs, DEFAULT_TIMEOUT_SECS);
    assert_eq!(d.timeout_secs, 15);
    assert_eq!(d.outgoing.from_address, "alerts@example.com");
    assert_eq!(d.outgoing.to_address, "alerts@example.com");
    assert_eq!(d.outgoing.forward_from, "a@x.com");
    assert_eq!(d.outgoing.subject, "t");
    assert_eq!(d.outgoing.body, "hi");
    let sendable: lettre::SendableEmail = d.email.into();
    let text = sendable.message_to_string().expect("readable message");
    assert!(text.contains("X-Forward-From: a@x.com"));
    assert!(text.contains("Subject: t"));
    assert!(text.contains("alerts@example.com"));
    assert!(!text.contains("b@x.com"));
}

#[test]
fn configured_hello_and_timeout_are_used() {
    let mut c = relay_config();
    c.hello = String::from("relay.example.org");
    c.timeout = Some(30);
    let d = EmailSender::from_config(&c).prepare(&request()).ok().expect("complete configuration");
    assert_eq!(d.hello, "relay.example.org");
    assert_eq!(d.timeout_secs, 30);
}

#[test]
fn local_relay_scenario() {
    let mut c = SMTPConfig::new();
    c.host = String::from("localhost");
    c.port = String::from("2525");
    c.email_address = String::from("ops@localhost");
    let sender = EmailSender::from_config(&c);
    let d = sender.prepare(&request()).ok().expect("complete configuration");
    assert_eq!(d.server, "localhost:2525");
    assert_eq!(d.mechanism, AuthMechanism::Login);
    assert!(d.login.is_empty());
    let reply = SmtpReply { severity: 2, category: 5, detail: 0, lines: vec![String::from("Ok")] };
    let r = sender.finish(&Ok(reply)).ok().expect("sent");
    assert_eq!(r.status, "sent");
    assert_eq!(r.report, "Email was sent with [250] Ok");
}

#[test]
fn unreachable_relay_is_reported_as_connection_failure() {
    let sender = EmailSender::from_config(&relay_config());
    let e = sender.finish(&Err(SmtpFault::Resolution)).err().expect("failed");
    assert_eq!(e.kind, FailureKind::Connection);
    assert_eq!(e.status, "failed");
    assert_eq!(e.report, "SMTP connection failed: could not resolve hostname");
}
