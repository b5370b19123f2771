//! The liveness check: a ping message, its answer, and the check of the answer.

use vstd::prelude::*;

verus! {

#[derive(Debug, Clone, Copy, PartialEq, Eq, Structural)]
pub enum PingMessage {
    Ping,
    Pong,
}

#[derive(Debug, Clone, Copy, PartialEq, Eq, Structural)]
pub enum PingResponse {
    GotPing,
    GotPong,
}

/// A liveness check that failed: what was asked, what came back, and why.
#[derive(Debug, Clone)]
pub struct PingError {
    pub request: PingMessage,
    pub response: Option<PingResponse>,
    pub report: String,
}

impl PingMessage {
    pub open spec fn name(self) -> Seq<char> {
        match self {
            PingMessage::Ping => "Ping"@,
            PingMessage::Pong => "Pong"@,
        }
    }

    /// The answer that a message deserves.
    pub open spec fn expected(self) -> PingResponse {
        match self {
            PingMessage::Ping => PingResponse::GotPing,
            PingMessage::Pong => PingResponse::GotPong,
        }
    }

    pub fn describe(&self) -> (r: String)
        ensures
            r@ == self.name(),
    {
        match self {
            PingMessage::Ping => String::from_str("Ping"),
            PingMessage::Pong => String::from_str("Pong"),
        }
    }

    /// How the responder answers a message.
    pub fn answer(&self) -> (r: PingResponse)
        ensures
            r == self.expected(),
    {
        match self {
            PingMessage::Ping => PingResponse::GotPing,
            PingMessage::Pong => PingResponse::GotPong,
        }
    }
}

impl PingResponse {
    pub open spec fn text(self) -> Seq<char> {
        match self {
            PingResponse::GotPing => "Ping received"@,
            PingResponse::GotPong => "Pong received"@,
        }
    }

    pub fn describe(&self) -> (r: String)
        ensures
            r@ == self.text(),
    {
        match self {
            PingResponse::GotPing => String::from_str("Ping received"),
            PingResponse::GotPong => String::from_str("Pong received"),
        }
    }
}

impl PingError {
    pub open spec fn text(self) -> Seq<char> {
        "Request '"@ + self.request.name() + "' failed: '"@ + self.report@ + "'"@
    }

    pub fn describe(&self) -> (r: String)
        ensures
            r@ == self.text(),
    {
        let mut s = String::from_str("Request '");
        s.append(self.request.describe().as_str());
        s.append("' failed: '");
        s.append(self.report.as_str());
        s.append("'");
        s
    }
}

pub open spec fn wrong_response_report() -> Seq<char> {
    "wrong response received"@
}

pub open spec fn delivery_failure_report(reason: Seq<char>) -> Seq<char> {
    "Ping Request failed: '"@ + reason + "'"@
}

/// Checks what came back for `request`: the expected answer, another answer,
/// or the reason the message could not be delivered to the responder.
pub fn check_reply(request: PingMessage, reply: Result<PingResponse, String>) -> (r: Result<PingResponse, PingError>)
    ensures
        match reply {
            Ok(resp) => if resp == request.expected() {
                r == Ok::<PingResponse, PingError>(resp)
            } else {
                r matches Err(e) && e.request == request && e.response == Some(resp)
                    && e.report@ == wrong_response_report()
            },
            Err(reason) => r matches Err(e) && e.request == request && e.response is None
                && e.report@ == delivery_failure_report(reason@),
        },
{
    match reply {
        Ok(resp) => {
            if resp == request.answer() {
                Ok(resp)
            } else {
                Err(PingError {
                    request,
                    response: Some(resp),
                    report: String::from_str("wrong response received"),
                })
            }
        },
        Err(reason) => {
            let mut report = String::from_str("Ping Request failed: '");
            report.append(reason.as_str());
            report.append("'");
            Err(PingError { request, response: None, report })
        },
    }
}

} // verus!
