//! Tests of the endpoint orchestration over a deterministic stub transport:
//! error unification, decoding, and the configured deadline.

use siostail::Endpoint;
use siostail::Error;
use siostail::ExchangeOutcome;
use siostail::Request;
use siostail::Transport;
use siostail::ZonedDate;
use siostail::check_response;
use std::cell::Cell;
use std::cell::RefCell;
use std::rc::Rc;

/// What the stub transport answers with.
enum Reply {
    /// A response with this status and body, provided the deadline is at
    /// least the simulated latency in milliseconds.
    Respond { status: u16, body: &'static str, latency_ms: u64 },
    /// A connection failure.
    Fail(&'static str),
    /// An unclassified failure.
    Odd(&'static str),
}

/// A deterministic transport: counts its calls, records the last request,
/// and answers from a script.
struct StubTransport {
    reply: Reply,
    calls: Rc<Cell<u32>>,
    seen: Rc<RefCell<Option<(String, Vec<(String, String)>)>>>,
}

impl StubTransport {
    fn new(reply: Reply) -> (Self, Rc<Cell<u32>>, Rc<RefCell<Option<(String, Vec<(String, String)>)>>>) {
        let calls = Rc::new(Cell::new(0));
        let seen = Rc::new(RefCell::new(None));
        let stub = StubTransport { reply, calls: calls.clone(), seen: seen.clone() };
        (stub, calls, seen)
    }
}

impl Transport for StubTransport {
    fn exchange(&mut self, request: &Request, timeout_ms: u64) -> ExchangeOutcome {
        self.calls.set(self.calls.get() + 1);
        *self.seen.borrow_mut() = Some((request.url.clone(), request.headers.clone()));
        match &self.reply {
            Reply::Respond { status, body, latency_ms } => {
                if timeout_ms < *latency_ms {
                    ExchangeOutcome::TimedOut
                } else {
                    ExchangeOutcome::Response { status: *status, body: body.as_bytes().to_vec() }
                }
            }
            Reply::Fail(message) => {
                ExchangeOutcome::TransportFailed { message: (*message).to_string() }
            }
            Reply::Odd(message) => ExchangeOutcome::Other { message: (*message).to_string() },
        }
    }
}

const CATALOG_BODY: &str = r#"{"indicators":[{"name":"A","description":"d","id":1}]}"#;
const DETAIL_BODY: &str = r#"{"indicator":{"values_updated_at":"2014-04-02T00:00:00+02:00","values":[{"value":32.63,"datetime":"2014-04-01T00:00:00+02:00"},{"value":30.1,"datetime":"2014-04-01T01:00:00+02:00"}]}}"#;

fn respond(status: u16, body: &'static str) -> Reply {
    Reply::Respond { status, body, latency_ms: 0 }
}

#[test]
fn indicators() {
    let (stub, _, _) = StubTransport::new(respond(200, CATALOG_BODY));
    let mut esios = Endpoint::new(stub, "test-token", 5000).unwrap();
    let res = esios.indicators();
    assert!(res.is_ok());
}

#[test]
fn indicator() {
    let (stub, _, _) = StubTransport::new(respond(200, DETAIL_BODY));
    let mut esios = Endpoint::new(stub, "test-token", 5000).unwrap();
    // Using a non CET/CEST timezone here also tests this library's
    // capability to deal with the API limitations in this regard.
    let clt = ZonedDate::new(2014, 04, 01, -(3600 * 4)).unwrap();
    let res = esios.indicator_at(&clt);
    let res = res.map(|data| {
        let values = data.indicator.values;
        // Externally known value:
        assert_eq!(values[0].value.parse::<f32>().unwrap(), 32.63);
    });
    assert!(res.is_ok());
}

#[test]
fn indicator_request_is_well_formed() {
    let (stub, calls, seen) = StubTransport::new(respond(200, DETAIL_BODY));
    let mut esios = Endpoint::new(stub, "test-token", 5000).unwrap();
    let date = ZonedDate::new(2014, 4, 1, -(3600 * 4)).unwrap();
    esios.indicator_at(&date).unwrap();
    assert_eq!(calls.get(), 1);
    let (url, headers) = seen.borrow().clone().unwrap();
    assert_eq!(
        url,
        "https://api.esios.ree.es/indicators/1014?start_date=2014-04-01T06:00:00+02:00&end_date=2014-04-02T05:00:00+02:00"
    );
    let expected_headers: Vec<(String, String)> = vec![
        ("User-Agent".to_string(), "siostail/dev".to_string()),
        ("Accept".to_string(), "application/json".to_string()),
        ("Accept-Encoding".to_string(), "identity".to_string()),
        ("Authorization".to_string(), "Token token=\"test-token\"".to_string()),
    ];
    assert_eq!(headers, expected_headers);
}

#[test]
fn indicators_request_url() {
    let (stub, _, seen) = StubTransport::new(respond(200, CATALOG_BODY));
    let mut esios = Endpoint::new(stub, "test-token", 5000).unwrap();
    esios.indicators().unwrap();
    let (url, _) = seen.borrow().clone().unwrap();
    assert_eq!(url, "https://api.esios.ree.es/indicators");
}

#[test]
fn deadline_shorter_than_latency_times_out() {
    // A deadline below the simulated network latency always yields Timeout,
    // never Transport.
    let (stub, _, _) = StubTransport::new(Reply::Respond {
        status: 200,
        body: CATALOG_BODY,
        latency_ms: 5000,
    });
    let mut esios = Endpoint::new(stub, "test-token", 10).unwrap();
    let res = esios.indicators();
    assert!(matches!(res, Err(Error::Timeout)));
}

#[test]
fn unexpected_status_404() {
    let (stub, _, _) = StubTransport::new(respond(404, CATALOG_BODY));
    let mut esios = Endpoint::new(stub, "test-token", 5000).unwrap();
    let res = esios.indicators();
    assert!(matches!(
        res,
        Err(Error::UnexpectedStatus { expected: 200, received: 404 })
    ));
}

#[test]
fn unexpected_status_500() {
    // Even though the body would decode, a wrong status must never reach
    // the decoder.
    let (stub, _, _) = StubTransport::new(respond(500, DETAIL_BODY));
    let mut esios = Endpoint::new(stub, "test-token", 5000).unwrap();
    let res = esios.indicator("2014-04-01T06:00:00+02:00", "2014-04-02T05:00:00+02:00");
    assert!(matches!(
        res,
        Err(Error::UnexpectedStatus { expected: 200, received: 500 })
    ));
}

#[test]
fn missing_field_yields_decode() {
    let (stub, _, _) = StubTransport::new(respond(200, r#"{"indicators":[{"name":"A","id":1}]}"#));
    let mut esios = Endpoint::new(stub, "test-token", 5000).unwrap();
    let res = esios.indicators();
    assert!(matches!(res, Err(Error::Decode(_))));
}

#[test]
fn missing_detail_field_yields_decode() {
    let body = r#"{"indicator":{"values":[{"value":32.63}]}}"#;
    let (stub, _, _) = StubTransport::new(respond(200, body));
    let mut esios = Endpoint::new(stub, "test-token", 5000).unwrap();
    let res = esios.indicator("a", "b");
    assert!(matches!(res, Err(Error::Decode(_))));
}

#[test]
fn malformed_body_yields_decode() {
    let (stub, _, _) = StubTransport::new(respond(200, "{not json"));
    let mut esios = Endpoint::new(stub, "test-token", 5000).unwrap();
    let res = esios.indicators();
    assert!(matches!(res, Err(Error::Decode(_))));
}

#[test]
fn catalog_payload_decodes() {
    let (stub, _, _) = StubTransport::new(respond(200, CATALOG_BODY));
    let mut esios = Endpoint::new(stub, "test-token", 5000).unwrap();
    let data = esios.indicators().unwrap();
    assert_eq!(data.indicators.len(), 1);
    assert_eq!(data.indicators[0].name, "A");
    assert_eq!(data.indicators[0].description, "d");
    assert_eq!(data.indicators[0].id, 1);
}

#[test]
fn detail_payload_decodes_in_order() {
    let (stub, _, _) = StubTransport::new(respond(200, DETAIL_BODY));
    let mut esios = Endpoint::new(stub, "test-token", 5000).unwrap();
    let data = esios.indicator("a", "b").unwrap();
    assert_eq!(data.indicator.values_updated_at, "2014-04-02T00:00:00+02:00");
    assert_eq!(data.indicator.values.len(), 2);
    assert_eq!(data.indicator.values[0].value, "32.63");
    assert_eq!(data.indicator.values[0].datetime, "2014-04-01T00:00:00+02:00");
    assert_eq!(data.indicator.values[1].value, "30.1");
    assert_eq!(data.indicator.values[1].datetime, "2014-04-01T01:00:00+02:00");
}

#[test]
fn empty_credential_surfaces_noauth_before_any_call() {
    let (stub, calls, _) = StubTransport::new(respond(200, CATALOG_BODY));
    let res = Endpoint::new(stub, "", 5000);
    assert!(matches!(res, Err(Error::NoAuth)));
    assert_eq!(calls.get(), 0);
}

#[test]
fn transport_failure_surfaces_transport() {
    let (stub, _, _) = StubTransport::new(Reply::Fail("connection refused"));
    let mut esios = Endpoint::new(stub, "test-token", 5000).unwrap();
    let res = esios.indicators();
    match res {
        Err(Error::Transport(message)) => assert_eq!(message, "connection refused"),
        other => panic!("expected a transport error, got {:?}", other.map(|_| ())),
    }
}

#[test]
fn unclassified_failure_surfaces_unknown() {
    let (stub, _, _) = StubTransport::new(Reply::Odd("interrupted"));
    let mut esios = Endpoint::new(stub, "test-token", 5000).unwrap();
    let res = esios.indicators();
    match res {
        Err(Error::Unknown(message)) => assert_eq!(message, "interrupted"),
        other => panic!("expected an unclassified error, got {:?}", other.map(|_| ())),
    }
}

#[test]
fn invalid_route_characters_surface_unknown() {
    let (stub, calls, _) = StubTransport::new(respond(200, DETAIL_BODY));
    let mut esios = Endpoint::new(stub, "test-token", 5000).unwrap();
    let res = esios.indicator("2014-04-01 00:00:00", "2014-04-02 00:00:00");
    assert!(matches!(res, Err(Error::Unknown(_))));
    assert_eq!(calls.get(), 0);
}

#[test]
fn check_response_unifies_outcomes() {
    assert!(matches!(check_response(200, ExchangeOutcome::TimedOut), Err(Error::Timeout)));
    let ok = check_response(
        200,
        ExchangeOutcome::Response { status: 200, body: vec![1, 2, 3] },
    );
    assert_eq!(ok.unwrap(), vec![1, 2, 3]);
    assert!(matches!(
        check_response(200, ExchangeOutcome::Response { status: 404, body: vec![] }),
        Err(Error::UnexpectedStatus { expected: 200, received: 404 })
    ));
    assert!(matches!(
        check_response(200, ExchangeOutcome::TransportFailed { message: "x".to_string() }),
        Err(Error::Transport(_))
    ));
    assert!(matches!(
        check_response(200, ExchangeOutcome::Other { message: "x".to_string() }),
        Err(Error::Unknown(_))
    ));
}

#[test]
fn error_kind_names() {
    assert_eq!(Error::NoAuth.kind_name(), "NoAuth");
    assert_eq!(Error::Timeout.kind_name(), "Timeout");
    assert_eq!(Error::UnexpectedStatus { expected: 200, received: 404 }.kind_name(), "UnexpectedStatus");
    assert_eq!(Error::Transport("x".to_string()).kind_name(), "Transport");
    assert_eq!(Error::Decode("x".to_string()).kind_name(), "Decode");
    assert_eq!(Error::Unknown("x".to_string()).kind_name(), "Unknown");
}
