//! Send requests, their outcomes, and the worker-side logic around one SMTP
//! exchange: checking the configuration, composing the message and turning
//! what the transport reported into a response or an error.

use vstd::prelude::*;

use lettre_email::{Email, EmailBuilder, Header};

use crate::config::{DEFAULT_TIMEOUT_SECS, SMTPConfig};
use crate::smtp::{SmtpFault, SmtpReply, conclude, outcome_matches};

verus! {

/// A request to send one email, as supplied by the caller.
#[derive(Debug, Clone)]
pub struct EmailData {
    pub subject: String,
    pub from: String,
    pub to: String,
    pub message: String,
}

/// The report of a message that the relay accepted.
#[derive(Debug, Clone)]
pub struct EmailResponse {
    pub status: String,
    pub report: String,
}

/// Which step of handling a request failed.
#[derive(Debug, Clone, Copy, PartialEq, Eq, Structural)]
pub enum FailureKind {
    /// The configuration does not allow a send attempt.
    Configuration,
    /// The connection to the relay could not be set up.
    Connection,
    /// The relay refused the credentials.
    Authentication,
    /// The relay refused the message, or the exchange broke off.
    Transmission,
    /// No worker is left to take the request.
    DispatchUnavailable,
}

/// The report of a request that failed.
#[derive(Debug, Clone)]
pub struct EmailError {
    pub kind: FailureKind,
    pub status: String,
    pub report: String,
}

pub open spec fn sent_status() -> Seq<char> {
    "sent"@
}

pub open spec fn failed_status() -> Seq<char> {
    "failed"@
}

/// `r` is a failure of the given kind with the given report.
pub open spec fn fails_with<T>(r: Result<T, EmailError>, kind: FailureKind, report: Seq<char>) -> bool {
    &&& r is Err
    &&& r->Err_0.kind == kind
    &&& r->Err_0.status@ == failed_status()
    &&& r->Err_0.report@ == report
}

impl FailureKind {
    /// The text that opens the report of a failure of this kind.
    pub open spec fn prefix(self) -> Seq<char> {
        match self {
            FailureKind::Configuration => "configuration error: "@,
            FailureKind::Connection => "SMTP connection failed: "@,
            FailureKind::Authentication => "SMTP authentication failed: "@,
            FailureKind::Transmission => "SMTP transmission failed: "@,
            FailureKind::DispatchUnavailable => "dispatch unavailable: "@,
        }
    }

    pub fn prefix_text(&self) -> (r: &'static str)
        ensures
            r@ == self.prefix(),
    {
        match self {
            FailureKind::Configuration => "configuration error: ",
            FailureKind::Connection => "SMTP connection failed: ",
            FailureKind::Authentication => "SMTP authentication failed: ",
            FailureKind::Transmission => "SMTP transmission failed: ",
            FailureKind::DispatchUnavailable => "dispatch unavailable: ",
        }
    }
}

impl EmailError {
    /// A failure of the given kind, whose report is the kind's prefix followed by `detail`.
    pub fn new(kind: FailureKind, detail: &str) -> (r: EmailError)
        ensures
            r.kind == kind,
            r.status@ == failed_status(),
            r.report@ == kind.prefix() + detail@,
    {
        let report = String::from_str(kind.prefix_text()).concat(detail);
        EmailError { kind, status: String::from_str("failed"), report }
    }
}

#[verifier::external_type_specification]
#[verifier::external_body]
pub struct ExEmail(lettre_email::Email);

#[verifier::external_type_specification]
#[verifier::external_body]
pub struct ExBuildError(lettre_email::error::Error);

/// Whether lettre accepts `address` as an envelope address (`EmailAddress::new`).
pub uninterp spec fn address_accepted(address: Seq<char>) -> bool;

/// The header in which the caller's sender travels.
pub const FORWARD_HEADER: &'static str = "X-Forward-From";

/// How the session logs in to the relay.
#[derive(Debug, Clone, Copy, PartialEq, Eq, Structural)]
pub enum AuthMechanism {
    Plain,
    Login,
    Xoauth2,
}

/// The message as it is handed to the relay: the configured mailbox is both
/// sender and recipient, and the caller's sender travels in a header.
#[derive(Debug, Clone)]
pub struct Outgoing {
    pub from_address: String,
    pub from_name: String,
    pub to_address: String,
    pub to_name: String,
    /// The header that carries the caller's sender.
    pub forward_header: String,
    pub forward_from: String,
    pub subject: String,
    pub body: String,
}

/// Relies on lettre_email's `EmailBuilder::build`: with one `from` and one `to`
/// mailbox it fails exactly when lettre's `EmailAddress::new` refuses one of
/// their addresses (the builder adds the date and a random message id).
#[verifier::external_body]
fn build_email(m: &Outgoing) -> (r: Result<Email, lettre_email::error::Error>)
    ensures
        r.is_ok() == (address_accepted(m.from_address@) && address_accepted(m.to_address@)),
{
    EmailBuilder::new()
        .from((m.from_address.as_str(), m.from_name.as_str()))
        .header(Header::new(m.forward_header.clone(), m.forward_from.clone()))
        .to((m.to_address.as_str(), m.to_name.as_str()))
        .subject(m.subject.as_str())
        .text(m.body.as_str())
        .build()
}

/// Relies on the `Display` impl of lettre_email's error: a readable description.
#[verifier::external_body]
fn build_error_text(e: &lettre_email::error::Error) -> String {
    e.to_string()
}

/// Everything a transport needs for one send: where to connect, how to
/// introduce itself and log in, and the message.
pub struct Delivery {
    /// `host:port` of the relay.
    pub server: String,
    /// The name the relay's TLS certificate is checked against.
    pub tls_domain: String,
    pub hello: String,
    /// Whether the session must be encrypted; there is no plaintext fallback.
    pub require_tls: bool,
    /// The mechanism used to log in with `login` and `password`.
    pub mechanism: AuthMechanism,
    pub login: String,
    pub password: String,
    pub timeout_secs: u64,
    pub outgoing: Outgoing,
    pub email: Email,
}

/// The identity announced to the relay.
pub open spec fn hello_name(c: SMTPConfig) -> Seq<char> {
    if c.hello@.len() == 0 {
        "localhost"@
    } else {
        c.hello@
    }
}

pub open spec fn timeout_secs(c: SMTPConfig) -> u64 {
    match c.timeout {
        Some(t) => t,
        None => DEFAULT_TIMEOUT_SECS,
    }
}

pub open spec fn server_address(c: SMTPConfig) -> Seq<char> {
    c.host@ + ":"@ + c.port@
}

/// `o` is the message that a request `m` becomes under configuration `c`.
pub open spec fn composed(o: Outgoing, c: SMTPConfig, m: EmailData) -> bool {
    &&& o.from_address@ == c.email_address@
    &&& o.from_name@ == c.full_name@
    &&& o.to_address@ == c.email_address@
    &&& o.to_name@ == c.full_name@
    &&& o.forward_header@ == FORWARD_HEADER@
    &&& o.forward_from@ == m.from@
    &&& o.subject@ == m.subject@
    &&& o.body@ == m.message@
}

/// `d` carries the connection settings of `c` and the message made of `m`.
pub open spec fn delivers(d: Delivery, c: SMTPConfig, m: EmailData) -> bool {
    &&& d.server@ == server_address(c)
    &&& d.tls_domain@ == c.host@
    &&& d.hello@ == hello_name(c)
    &&& d.require_tls
    &&& d.mechanism == AuthMechanism::Login
    &&& d.login@ == c.login@
    &&& d.password@ == c.password@
    &&& d.timeout_secs == timeout_secs(c)
    &&& composed(d.outgoing, c, m)
}

pub open spec fn missing_host_report() -> Seq<char> {
    FailureKind::Connection.prefix() + "no SMTP host is configured"@
}

pub open spec fn missing_port_report() -> Seq<char> {
    FailureKind::Connection.prefix() + "no SMTP port is configured"@
}

/// One worker of the pool: it holds its own copy of the SMTP configuration and
/// handles one request at a time.
#[derive(Debug, Clone)]
pub struct EmailSender {
    pub config: SMTPConfig,
}

impl Default for EmailSender {
    fn default() -> (r: EmailSender)
        ensures
            r.config.is_blank(),
    {
        EmailSender::new()
    }
}

impl EmailSender {
    pub fn new() -> (r: EmailSender)
        ensures
            r.config.is_blank(),
    {
        EmailSender { config: SMTPConfig::new() }
    }

    pub fn from_config(config: &SMTPConfig) -> (r: EmailSender)
        ensures
            r.config == *config,
    {
        EmailSender { config: config.duplicate() }
    }

    pub fn set_config(&mut self, config: &SMTPConfig)
        ensures
            final(self).config == *config,
    {
        self.config = config.duplicate();
    }

    /// The message that `mail` becomes under this worker's configuration.
    pub fn compose(&self, mail: &EmailData) -> (r: Outgoing)
        ensures
            composed(r, self.config, *mail),
    {
        Outgoing {
            from_address: self.config.email_address.clone(),
            from_name: self.config.full_name.clone(),
            to_address: self.config.email_address.clone(),
            to_name: self.config.full_name.clone(),
            forward_header: String::from_str(FORWARD_HEADER),
            forward_from: mail.from.clone(),
            subject: mail.subject.clone(),
            body: mail.message.clone(),
        }
    }

    /// Checks the configuration and builds the message for `mail`. Fails, before
    /// any connection is made, when the host or the port is empty or when the
    /// configured address is not one that lettre accepts.
    pub fn prepare(&self, mail: &EmailData) -> (r: Result<Delivery, EmailError>)
        ensures
            self.config.host@.len() == 0 ==> fails_with(r, FailureKind::Connection, missing_host_report()),
            self.config.host@.len() != 0 && self.config.port@.len() == 0 ==> fails_with(
                r,
                FailureKind::Connection,
                missing_port_report(),
            ),
            self.config.host@.len() != 0 && self.config.port@.len() != 0 ==> (r is Ok
                <==> address_accepted(self.config.email_address@)),
            r matches Ok(d) ==> delivers(d, self.config, *mail),
            self.config.host@.len() != 0 && self.config.port@.len() != 0 ==> (r matches Err(e)
                ==> e.kind == FailureKind::Configuration && e.status@ == failed_status()
                && FailureKind::Configuration.prefix().is_prefix_of(e.report@)),
    {
        let c = &self.config;
        if c.host.as_str().is_empty() {
            return Err(EmailError::new(FailureKind::Connection, "no SMTP host is configured"));
        }
        if c.port.as_str().is_empty() {
            return Err(EmailError::new(FailureKind::Connection, "no SMTP port is configured"));
        }
        let outgoing = self.compose(mail);
        match build_email(&outgoing) {
            Err(e) => {
                let detail = build_error_text(&e);
                let err = EmailError::new(FailureKind::Configuration, detail.as_str());
                proof {
                    let p = FailureKind::Configuration.prefix();
                    assert((p + detail@).subrange(0, p.len() as int) =~= p);
                }
                Err(err)
            },
            Ok(email) => {
                let mut server = c.host.clone();
                server.append(":");
                server.append(c.port.as_str());
                let hello = if c.hello.as_str().is_empty() {
                    String::from_str("localhost")
                } else {
                    c.hello.clone()
                };
                let timeout_secs = match c.timeout {
                    Some(t) => t,
                    None => DEFAULT_TIMEOUT_SECS,
                };
                Ok(Delivery {
                    server,
                    tls_domain: c.host.clone(),
                    hello,
                    require_tls: true,
                    mechanism: AuthMechanism::Login,
                    login: c.login.clone(),
                    password: c.password.clone(),
                    timeout_secs,
                    outgoing,
                    email,
                })
            },
        }
    }

    /// The outcome of a request, given what the exchange with the relay reported.
    pub fn finish(&self, exchange: &Result<SmtpReply, SmtpFault>) -> (r: Result<EmailResponse, EmailError>)
        ensures
            outcome_matches(*exchange, r),
    {
        conclude(exchange)
    }
}

} // verus!
