//! What an SMTP exchange reports back, and how that becomes the outcome of a
//! send request.

use vstd::prelude::*;

use crate::email::{EmailError, EmailResponse, FailureKind, failed_status, sent_status};
use crate::text::{decimal, decimal_text, join_lines, joined};

verus! {

/// A reply of the relay: the three digits of its code and its text lines.
#[derive(Debug, Clone)]
pub struct SmtpReply {
    pub severity: u8,
    pub category: u8,
    pub detail: u8,
    pub lines: Vec<String>,
}

/// Why an SMTP exchange failed, one variant for each way the transport reports it.
#[derive(Debug, Clone)]
pub enum SmtpFault {
    /// A reply with a 4xx code.
    Transient(SmtpReply),
    /// A reply with a 5xx code.
    Permanent(SmtpReply),
    /// A reply that could not be parsed.
    ResponseParsing(String),
    /// An authentication challenge that could not be decoded.
    ChallengeParsing(String),
    /// A reply that is not valid UTF-8.
    Utf8Parsing(String),
    /// The client gave up on its own (no encryption, connection closed).
    Client(String),
    /// The host name could not be resolved.
    Resolution,
    /// A socket error.
    Io(String),
    /// A TLS error.
    Tls(String),
    /// A low-level parsing error.
    Parsing(String),
}

/// Reply codes by which a relay refuses authentication.
pub open spec fn is_auth_refusal(code: nat) -> bool {
    code == 454 || code == 530 || code == 534 || code == 535
}

impl SmtpReply {
    pub open spec fn code(&self) -> nat {
        self.severity as nat * 100 + self.category as nat * 10 + self.detail as nat
    }

    /// The code in brackets, then the text lines.
    pub open spec fn text(&self) -> Seq<char> {
        "["@ + decimal(self.code()) + "] "@ + joined(self.lines@)
    }

    pub fn code_number(&self) -> (r: u64)
        ensures
            r as nat == self.code(),
    {
        self.severity as u64 * 100 + self.category as u64 * 10 + self.detail as u64
    }

    pub fn describe(&self) -> (r: String)
        ensures
            r@ == self.text(),
    {
        let mut s = String::from_str("[");
        s.append(decimal_text(self.code_number()).as_str());
        s.append("] ");
        s.append(join_lines(&self.lines).as_str());
        s
    }
}

impl SmtpFault {
    /// The step of the exchange that a fault belongs to.
    pub open spec fn kind(&self) -> FailureKind {
        match self {
            SmtpFault::Transient(r) => if is_auth_refusal(r.code()) {
                FailureKind::Authentication
            } else {
                FailureKind::Transmission
            },
            SmtpFault::Permanent(r) => if is_auth_refusal(r.code()) {
                FailureKind::Authentication
            } else {
                FailureKind::Transmission
            },
            SmtpFault::ChallengeParsing(_) => FailureKind::Authentication,
            SmtpFault::Client(_) => FailureKind::Connection,
            SmtpFault::Resolution => FailureKind::Connection,
            SmtpFault::Io(_) => FailureKind::Connection,
            SmtpFault::Tls(_) => FailureKind::Connection,
            SmtpFault::ResponseParsing(_) => FailureKind::Transmission,
            SmtpFault::Utf8Parsing(_) => FailureKind::Transmission,
            SmtpFault::Parsing(_) => FailureKind::Transmission,
        }
    }

    /// What the report says of a fault after its kind's prefix.
    pub open spec fn detail(&self) -> Seq<char> {
        match self {
            SmtpFault::Transient(r) => r.text(),
            SmtpFault::Permanent(r) => r.text(),
            SmtpFault::Resolution => "could not resolve hostname"@,
            SmtpFault::ResponseParsing(t) => t@,
            SmtpFault::ChallengeParsing(t) => t@,
            SmtpFault::Utf8Parsing(t) => t@,
            SmtpFault::Client(t) => t@,
            SmtpFault::Io(t) => t@,
            SmtpFault::Tls(t) => t@,
            SmtpFault::Parsing(t) => t@,
        }
    }

    pub fn classify(&self) -> (r: FailureKind)
        ensures
            r == self.kind(),
    {
        match self {
            SmtpFault::Transient(r) | SmtpFault::Permanent(r) => {
                let code = r.code_number();
                if code == 454 || code == 530 || code == 534 || code == 535 {
                    FailureKind::Authentication
                } else {
                    FailureKind::Transmission
                }
            },
            SmtpFault::ChallengeParsing(_) => FailureKind::Authentication,
            SmtpFault::Client(_) | SmtpFault::Resolution | SmtpFault::Io(_) | SmtpFault::Tls(_) => {
                FailureKind::Connection
            },
            SmtpFault::ResponseParsing(_) | SmtpFault::Utf8Parsing(_) | SmtpFault::Parsing(_) => {
                FailureKind::Transmission
            },
        }
    }

    pub fn describe(&self) -> (r: String)
        ensures
            r@ == self.detail(),
    {
        match self {
            SmtpFault::Transient(r) | SmtpFault::Permanent(r) => r.describe(),
            SmtpFault::Resolution => String::from_str("could not resolve hostname"),
            SmtpFault::ResponseParsing(t) | SmtpFault::ChallengeParsing(t)
            | SmtpFault::Utf8Parsing(t) | SmtpFault::Client(t) | SmtpFault::Io(t)
            | SmtpFault::Tls(t) | SmtpFault::Parsing(t) => t.clone(),
        }
    }
}

/// The report of a delivered message.
pub open spec fn sent_report(reply: SmtpReply) -> Seq<char> {
    "Email was sent with "@ + reply.text()
}

/// The outcome of a request, given what the exchange with the relay reported.
pub open spec fn outcome_matches(
    exchange: Result<SmtpReply, SmtpFault>,
    r: Result<EmailResponse, EmailError>,
) -> bool {
    match exchange {
        Ok(reply) => r matches Ok(resp) && resp.status@ == sent_status()
            && resp.report@ == sent_report(reply),
        Err(fault) => r matches Err(e) && e.kind == fault.kind()
            && e.status@ == failed_status()
            && e.report@ == fault.kind().prefix() + fault.detail(),
    }
}

/// A message that the relay accepted is reported as sent, with the relay's
/// reply code in the report.
pub proof fn accepted_message_is_sent(reply: SmtpReply, r: Result<EmailResponse, EmailError>)
    requires
        outcome_matches(Ok(reply), r),
    ensures
        r is Ok,
        r->Ok_0.status@ == sent_status(),
        r->Ok_0.report@ == "Email was sent with "@ + "["@ + decimal(reply.code()) + "] "@ + joined(
            reply.lines@,
        ),
{
    assert(r->Ok_0.report@ =~= "Email was sent with "@ + "["@ + decimal(reply.code()) + "] "@
        + joined(reply.lines@));
}

/// A relay that cannot be resolved, reached or spoken to securely yields a
/// failure whose report names the connection.
pub proof fn unreachable_relay_is_connection_failure(fault: SmtpFault, r: Result<EmailResponse, EmailError>)
    requires
        fault is Resolution || fault is Io || fault is Tls || fault is Client,
        outcome_matches(Err(fault), r),
    ensures
        r is Err,
        r->Err_0.kind == FailureKind::Connection,
        r->Err_0.status@ == failed_status(),
        "SMTP connection failed: "@.is_prefix_of(r->Err_0.report@),
{
    let p = "SMTP connection failed: "@;
    assert((p + fault.detail()).subrange(0, p.len() as int) =~= p);
}

/// Turns what the exchange with the relay reported into the request's outcome.
pub fn conclude(exchange: &Result<SmtpReply, SmtpFault>) -> (r: Result<EmailResponse, EmailError>)
    ensures
        outcome_matches(*exchange, r),
{
    match exchange {
        Ok(reply) => {
            let mut report = String::from_str("Email was sent with ");
            report.append(reply.describe().as_str());
            Ok(EmailResponse { status: String::from_str("sent"), report })
        },
        Err(fault) => {
            let detail = fault.describe();
            Err(EmailError::new(fault.classify(), detail.as_str()))
        },
    }
}

} // verus!
