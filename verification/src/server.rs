//! What the HTTP services around the library decide: how a rejection is
//! answered and what is logged of a request.

use vstd::prelude::*;
use vstd::string::StringExecFns;

use crate::error::Error;
use crate::network::Network;
use crate::text::{decimal_digits, push_decimal};

verus! {

/// State for the API.
pub struct State {}

impl State {
    /// Create new state.
    pub fn new() -> (state: Self)
        ensures
            state == (State {  }),
    {
        State {  }
    }
}

/// Generic request error.
#[derive(Clone, Debug, PartialEq, Eq)]
pub struct BadRequest {
    pub message: String,
}

/// Custom error message with status code.
#[derive(Clone, Debug, PartialEq, Eq)]
pub struct ErrorMessage {
    pub code: u16,
    pub message: String,
}

/// Why a request was rejected.
#[derive(Clone, Debug, PartialEq, Eq)]
pub enum Rejection {
    /// No route matched.
    NotFound,
    /// A handler refused the request.
    BadRequest(BadRequest),
    /// The body could not be read; the text says why.
    InvalidBody(String),
    /// A header did not have the value asked for.
    InvalidHeader,
    /// The route does not take the method.
    MethodNotAllowed,
    /// Anything else.
    Other,
}

/// The status codes of the answers to rejections.
pub const STATUS_BAD_REQUEST: u16 = 400;

pub const STATUS_NOT_FOUND: u16 = 404;

pub const STATUS_METHOD_NOT_ALLOWED: u16 = 405;

pub const STATUS_INTERNAL_SERVER_ERROR: u16 = 500;

/// The status code that answers a rejection.
pub open spec fn rejection_code(err: Rejection) -> u16 {
    match err {
        Rejection::NotFound => STATUS_NOT_FOUND,
        Rejection::BadRequest(_) => STATUS_BAD_REQUEST,
        Rejection::InvalidBody(_) => STATUS_BAD_REQUEST,
        Rejection::InvalidHeader => STATUS_BAD_REQUEST,
        Rejection::MethodNotAllowed => STATUS_METHOD_NOT_ALLOWED,
        Rejection::Other => STATUS_INTERNAL_SERVER_ERROR,
    }
}

/// The message that answers a rejection.
pub open spec fn rejection_message(err: Rejection) -> Seq<char> {
    match err {
        Rejection::NotFound => "Not Found"@,
        Rejection::BadRequest(e) => e.message@,
        Rejection::InvalidBody(why) => "Invalid Request Body: "@ + why@,
        Rejection::InvalidHeader => "Invalid Header Value"@,
        Rejection::MethodNotAllowed => "Method Not Allowed"@,
        Rejection::Other => "Internal Server Error"@,
    }
}

/// Rejection handler: the status code and message of the answer.
pub fn handle_rejection(err: Rejection) -> (reply: ErrorMessage)
    ensures
        reply.code == rejection_code(err),
        reply.message@ == rejection_message(err),
{
    match err {
        Rejection::NotFound => ErrorMessage {
            code: STATUS_NOT_FOUND,
            message: String::from_str("Not Found"),
        },
        Rejection::BadRequest(e) => ErrorMessage { code: STATUS_BAD_REQUEST, message: e.message },
        Rejection::InvalidBody(why) => {
            let mut message = String::from_str("Invalid Request Body: ");
            message.append(why.as_str());
            ErrorMessage { code: STATUS_BAD_REQUEST, message }
        },
        Rejection::InvalidHeader => ErrorMessage {
            code: STATUS_BAD_REQUEST,
            message: String::from_str("Invalid Header Value"),
        },
        Rejection::MethodNotAllowed => ErrorMessage {
            code: STATUS_METHOD_NOT_ALLOWED,
            message: String::from_str("Method Not Allowed"),
        },
        Rejection::Other => ErrorMessage {
            code: STATUS_INTERNAL_SERVER_ERROR,
            message: String::from_str("Internal Server Error"),
        },
    }
}

/// The network that the account API serves: the testnet and no other.
pub fn get_network(network: Network) -> (served: Result<Network, Error>)
    ensures
        network == Network::Testnet ==> served == Ok::<Network, Error>(Network::Testnet),
        network != Network::Testnet ==> served == Err::<Network, Error>(Error::UnknownNetwork),
{
    match network {
        Network::Testnet => Ok(Network::Testnet),
        _ => Err(Error::UnknownNetwork),
    }
}

/// The levels at which requests are logged.
#[derive(Clone, Copy, Debug, PartialEq, Eq)]
pub enum Level {
    Error,
    Info,
}

/// The line that is logged of a request.
pub open spec fn request_line(
    method: Seq<char>,
    path: Seq<char>,
    status: Seq<char>,
    addr: Seq<char>,
    duration_ms: u64,
) -> Seq<char> {
    method + " "@ + path + " "@ + status + " - "@ + addr + " - "@ + decimal_digits(
        duration_ms as nat,
    ) + "ms"@
}

/// What is logged of a request, and at which level: server errors at
/// `Error`, everything else at `Info`.
pub fn log_request_details(
    method: &str,
    path: &str,
    status_code: u16,
    status: &str,
    addr: &str,
    duration_ms: u64,
) -> (entry: (Level, String))
    ensures
        entry.0 == if status_code >= 500 {
            Level::Error
        } else {
            Level::Info
        },
        entry.1@ == request_line(method@, path@, status@, addr@, duration_ms),
{
    let level = if status_code >= 500 {
        Level::Error
    } else {
        Level::Info
    };
    let mut line = String::from_str(method);
    line.append(" ");
    line.append(path);
    line.append(" ");
    line.append(status);
    line.append(" - ");
    line.append(addr);
    line.append(" - ");
    push_decimal(&mut line, duration_ms);
    line.append("ms");
    (level, line)
}

/// The line that is logged of the body of an incoming request.
pub fn log_request_body(route: &str, body: &str) -> (line: String)
    ensures
        line@ == "incoming /"@ + route@ + " request: "@ + body@,
{
    let mut line = String::from_str("incoming /");
    line.append(route);
    line.append(" request: ");
    line.append(body);
    line
}

} // verus!
