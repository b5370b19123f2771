//! Email relay service: configuration, message preparation, the outcome of an
//! SMTP exchange, and the bounded worker pool that dispatches send requests.

pub mod config;
pub mod email;
pub mod ping;
pub mod pool;
pub mod smtp;
pub mod text;

use vstd::prelude::*;

use crate::ping::PingResponse;

verus! {

/// Largest request body accepted, in bytes.
pub const MAX_SIZE: usize = 262144;

/// The body of an informational page.
#[derive(Debug, Clone)]
pub struct ResponseData {
    pub title: String,
    pub statuscode: u16,
    pub page: String,
    pub description: String,
}

/// The home page: what the service is.
pub fn home_page() -> (r: ResponseData)
    ensures
        r.title@ == "Actix Alerting Email"@,
        r.statuscode == 200,
        r.page@ == "Home"@,
        r.description@ == "Email Sending Micro Service for the Grafana Alerting Project"@,
{
    ResponseData {
        title: String::from_str("Actix Alerting Email"),
        statuscode: 200,
        page: String::from_str("Home"),
        description: String::from_str("Email Sending Micro Service for the Grafana Alerting Project"),
    }
}

/// The page that reports a successful liveness check.
pub fn ping_page(resp: &PingResponse) -> (r: ResponseData)
    ensures
        r.title@ == "Ping Request"@,
        r.statuscode == 200,
        r.page@ == "Ping"@,
        r.description@ == "Ping Request [ OK ]; Message: '"@ + resp.text() + "'"@,
{
    let mut description = String::from_str("Ping Request [ OK ]; Message: '");
    description.append(resp.describe().as_str());
    description.append("'");
    ResponseData {
        title: String::from_str("Ping Request"),
        statuscode: 200,
        page: String::from_str("Ping"),
        description,
    }
}

/// Whether a body of `received` bytes may grow by a chunk of `chunk` bytes.
pub fn payload_fits(received: usize, chunk: usize) -> (r: bool)
    ensures
        r == (received + chunk <= MAX_SIZE),
{
    received <= MAX_SIZE && chunk <= MAX_SIZE - received
}

} // verus!
