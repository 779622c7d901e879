//! Client core for a remote time-series service exposing indicator values
//! over authenticated HTTPS/JSON.
//!
//! The crate covers the request-execution core: construction of
//! bounded-latency, authenticated requests; translation of transport, timeout
//! and decoding failures into a single error taxonomy; and construction of
//! time-range query parameters across timezone boundaries. The HTTP transport
//! itself is an external collaborator, injected at construction as a
//! [`Transport`] capability.

use vstd::prelude::*;

pub mod calendar;
mod error;
pub mod json;
pub mod request;
pub mod rfc3339;
pub mod timerange;

pub mod esios;

pub use calendar::valid_date;
pub use error::Error;
pub use request::Request;
pub use request::auth_header_chars;
pub use request::base_url_chars;
pub use request::request_headers_ok;
pub use request::url_bytes_ok;
pub use timerange::ZonedDate;
pub use timerange::day_range_rfc3339;

use vstd::string::StringExecFns;
use vstd::string::StringSliceAdditionalSpecFns;
use vstd::utf8::encode_utf8;

verus! {

/// What one bounded exchange came to. The transport races the network
/// request against the deadline and reports whichever finished first, or
/// how it failed.
#[derive(Debug)]
pub enum ExchangeOutcome {
    /// Response headers arrived before the deadline; the body is drained in
    /// full.
    Response { status: u16, body: Vec<u8> },
    /// The deadline elapsed before response headers arrived; the in-flight
    /// exchange is discarded.
    TimedOut,
    /// The connection itself failed (DNS, TLS, broken pipe, ...).
    TransportFailed { message: String },
    /// A failure the transport could not classify.
    Other { message: String },
}

/// The transport capability an [`Endpoint`] is built over: performs one
/// request/response exchange under a deadline. Injected at construction, so
/// the exchange can be a real HTTP client or a deterministic stub.
pub trait Transport {
    /// Performs one exchange for `request`, abandoning the wait and yielding
    /// `TimedOut` as soon as `timeout_ms` milliseconds elapse. The deadline
    /// covers at least the wait for response headers; whether it also bounds
    /// the body transfer is the implementation's documented choice.
    fn exchange(&mut self, request: &Request, timeout_ms: u64) -> ExchangeOutcome;
}

/// How each exchange outcome is unified into the error taxonomy: a timeout
/// is always `Timeout` and never anything else; a connection failure is
/// always `Transport`; a response with the wrong status is always
/// `UnexpectedStatus{expected, received}` and its body is never decoded;
/// only a response with the expected status hands its body on.
pub open spec fn check_response_spec(expected: u16, outcome: ExchangeOutcome) -> Result<
    Vec<u8>,
    Error,
> {
    match outcome {
        ExchangeOutcome::Response { status, body } => {
            if status == expected {
                Ok(body)
            } else {
                Err(Error::UnexpectedStatus { expected, received: status })
            }
        },
        ExchangeOutcome::TimedOut => Err(Error::Timeout),
        ExchangeOutcome::TransportFailed { message } => Err(Error::Transport(message)),
        ExchangeOutcome::Other { message } => Err(Error::Unknown(message)),
    }
}

/// Validates an exchange outcome against the expected status and unifies
/// every failure into the error taxonomy, as `check_response_spec` states.
pub fn check_response(expected: u16, outcome: ExchangeOutcome) -> (r: Result<Vec<u8>, Error>)
    ensures
        r == check_response_spec(expected, outcome),
        outcome is TimedOut ==> (r matches Err(e) && e is Timeout),
        outcome matches ExchangeOutcome::Response { status, .. } ==> status != expected ==> (
        r matches Err(e) && e matches Error::UnexpectedStatus { expected: ex, received: rc }
            && ex == expected && rc == status),
{
    match outcome {
        ExchangeOutcome::Response { status, body } => {
            if status == expected {
                Ok(body)
            } else {
                Err(Error::UnexpectedStatus { expected, received: status })
            }
        },
        ExchangeOutcome::TimedOut => Err(Error::Timeout),
        ExchangeOutcome::TransportFailed { message } => Err(Error::Transport(message)),
        ExchangeOutcome::Other { message } => Err(Error::Unknown(message)),
    }
}

/// The client of the remote service: owns the immutable configuration
/// (credential and deadline) and the injected transport, and composes
/// request construction, the bounded exchange, validation and decoding.
pub struct Endpoint<T: Transport> {
    transport: T,
    token: String,
    timeout_ms: u64,
}

impl<T: Transport> Endpoint<T> {
    /// The credential this endpoint authenticates with.
    pub closed spec fn spec_token(&self) -> Seq<char> {
        self.token@
    }

    /// The deadline, in milliseconds, applied to each exchange.
    pub closed spec fn spec_timeout_ms(&self) -> u64 {
        self.timeout_ms
    }

    /// Builds an endpoint over `transport`. An empty credential surfaces
    /// `NoAuth` here, before any request is attempted.
    pub fn new(transport: T, token: &str, timeout_ms: u64) -> (r: Result<Endpoint<T>, Error>)
        ensures
            r is Ok <==> token@.len() > 0,
            r matches Ok(ep) ==> ep.spec_token() == token@ && ep.spec_timeout_ms() == timeout_ms,
            r matches Err(e) ==> e is NoAuth,
    {
        if token.is_empty() {
            Err(Error::NoAuth)
        } else {
            Ok(Endpoint { transport, token: String::from_str(token), timeout_ms })
        }
    }

    /// Assembles the authenticated GET request for `route`.
    fn get(&self, route: &str) -> (r: Result<Request, Error>)
        ensures
            r is Ok <==> url_bytes_ok(route.spec_bytes()),
            r matches Ok(req) ==> {
                &&& req.method@ == "GET"@
                &&& req.url@ == base_url_chars() + route@
                &&& request_headers_ok(req.headers@, self.spec_token())
            },
            r matches Err(e) ==> e is Unknown,
    {
        request::build_request(route, self.token.as_str())
    }

    /// Lists the indicator catalog: builds the request for the fixed
    /// `indicators` route, executes it under the configured deadline,
    /// validates the status and decodes the body. The configuration is
    /// never mutated, and `NoAuth` can no longer arise.
    pub fn indicators(&mut self) -> (r: Result<esios::Indicators, Error>)
        ensures
            final(self).spec_token() == old(self).spec_token(),
            final(self).spec_timeout_ms() == old(self).spec_timeout_ms(),
            r matches Err(e) ==> !(e is NoAuth),
    {
        let req = match self.get("indicators") {
            Ok(rq) => rq,
            Err(e) => {
                return Err(e);
            },
        };
        let outcome = self.transport.exchange(&req, self.timeout_ms);
        let body = match check_response(200, outcome) {
            Ok(b) => b,
            Err(e) => {
                return Err(e);
            },
        };
        esios::decode_indicators(&body)
    }

    /// Fetches the fixed indicator's values between `start_date` and
    /// `end_date`, both already-formatted timestamps (typically from
    /// [`day_range_rfc3339`]). A date string that cannot stand in a URL is
    /// rejected before any exchange. The configuration is never mutated,
    /// and `NoAuth` can no longer arise.
    pub fn indicator(&mut self, start_date: &str, end_date: &str) -> (r: Result<
        esios::Indicator,
        Error,
    >)
        ensures
            final(self).spec_token() == old(self).spec_token(),
            final(self).spec_timeout_ms() == old(self).spec_timeout_ms(),
            r matches Err(e) ==> !(e is NoAuth),
            !url_bytes_ok(
                encode_utf8(
                    "indicators/1014?start_date="@ + start_date@ + "&end_date="@ + end_date@,
                ),
            ) ==> (r matches Err(e) && e is Unknown),
    {
        let route = request::indicator_route(start_date, end_date);
        let req = match self.get(route.as_str()) {
            Ok(rq) => rq,
            Err(e) => {
                return Err(e);
            },
        };
        let outcome = self.transport.exchange(&req, self.timeout_ms);
        let body = match check_response(200, outcome) {
            Ok(b) => b,
            Err(e) => {
                return Err(e);
            },
        };
        esios::decode_indicator(&body)
    }

    /// Fetches the fixed indicator's values over one calendar day, encoding
    /// the day range of `date` with [`day_range_rfc3339`].
    pub fn indicator_at(&mut self, date: &ZonedDate) -> (r: Result<esios::Indicator, Error>)
        requires
            date.wf(),
        ensures
            final(self).spec_token() == old(self).spec_token(),
            final(self).spec_timeout_ms() == old(self).spec_timeout_ms(),
            r matches Err(e) ==> !(e is NoAuth),
    {
        let (range_start, range_end) = day_range_rfc3339(date);
        self.indicator(range_start.as_str(), range_end.as_str())
    }
}

} // verus!
