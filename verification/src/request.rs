//! The request builder.
//!
//! Assembles the descriptor of an authenticated GET request against the
//! service's base endpoint: target URL and the fixed header set, including
//! the `Token token="..."` authorization value. Pure data assembly; the
//! descriptor is handed to the injected transport for execution.

use vstd::prelude::*;
use vstd::string::StringExecFns;
use vstd::string::StringSliceAdditionalSpecFns;

use crate::error::Error;

verus! {

/// A descriptor of one HTTP request: everything the transport needs to
/// perform the exchange.
#[derive(Debug)]
pub struct Request {
    /// The HTTP method; always `GET` for this client.
    pub method: String,
    /// The absolute target URL.
    pub url: String,
    /// Header name/value pairs, in the order they are to be sent.
    pub headers: Vec<(String, String)>,
}

/// The base URL every route is appended to.
pub open spec fn base_url_chars() -> Seq<char> {
    "https://api.esios.ree.es/"@
}

/// The authorization header value carrying the credential.
pub open spec fn auth_header_chars(token: Seq<char>) -> Seq<char> {
    "Token token=\""@ + token + "\""@
}

/// A byte a URL may carry: printable ASCII, no space or control characters.
pub open spec fn url_byte_ok(b: u8) -> bool {
    0x21 <= b <= 0x7e
}

/// Whether `s` can stand as the route part of a URL: nonempty, every byte a
/// URL byte.
pub open spec fn url_bytes_ok(s: Seq<u8>) -> bool {
    &&& s.len() > 0
    &&& forall|i: int| 0 <= i < s.len() ==> url_byte_ok(s[i])
}

/// The header set of every request of this client, given the credential.
pub open spec fn request_headers_ok(headers: Seq<(String, String)>, token: Seq<char>) -> bool {
    &&& headers.len() == 4
    &&& headers[0].0@ == "User-Agent"@ && headers[0].1@ == "siostail/dev"@
    &&& headers[1].0@ == "Accept"@ && headers[1].1@ == "application/json"@
    &&& headers[2].0@ == "Accept-Encoding"@ && headers[2].1@ == "identity"@
    &&& headers[3].0@ == "Authorization"@ && headers[3].1@ == auth_header_chars(token)
}

/// Checks that `s` can stand as the route part of a URL.
fn check_url_bytes(s: &str) -> (r: bool)
    ensures
        r == url_bytes_ok(s.spec_bytes()),
{
    let bs = s.as_bytes();
    if bs.len() == 0 {
        return false;
    }
    let mut i: usize = 0;
    while i < bs.len()
        invariant
            bs@ == s.spec_bytes(),
            i <= bs@.len(),
            forall|j: int| 0 <= j < i ==> url_byte_ok(bs@[j]),
        decreases bs@.len() - i,
    {
        let b = bs[i];
        if b < 0x21 || b > 0x7e {
            return false;
        }
        i = i + 1;
    }
    true
}

/// The `Token token="..."` authorization value for `token`.
fn auth_header_value(token: &str) -> (r: String)
    ensures
        r@ == auth_header_chars(token@),
{
    let mut s = String::new();
    s.append("Token token=\"");
    s.append(token);
    s.append("\"");
    proof {
        assert(s@ =~= auth_header_chars(token@));
    }
    s
}

/// Assembles the authenticated GET request for `route` under the base URL.
/// Fails when the route cannot stand in a URL.
pub fn build_request(route: &str, token: &str) -> (r: Result<Request, Error>)
    ensures
        r is Ok <==> url_bytes_ok(route.spec_bytes()),
        r matches Ok(req) ==> {
            &&& req.method@ == "GET"@
            &&& req.url@ == base_url_chars() + route@
            &&& request_headers_ok(req.headers@, token@)
        },
        r matches Err(e) ==> e is Unknown,
{
    if !check_url_bytes(route) {
        return Err(Error::Unknown(String::from_str("route does not form a valid URL")));
    }
    let mut url = String::from_str("https://api.esios.ree.es/");
    url.append(route);
    let mut headers: Vec<(String, String)> = Vec::new();
    headers.push((String::from_str("User-Agent"), String::from_str("siostail/dev")));
    headers.push((String::from_str("Accept"), String::from_str("application/json")));
    headers.push((String::from_str("Accept-Encoding"), String::from_str("identity")));
    headers.push((String::from_str("Authorization"), auth_header_value(token)));
    let req = Request { method: String::from_str("GET"), url, headers };
    proof {
        assert(req.headers@.len() == 4);
    }
    Ok(req)
}

/// The route of the indicator-detail query for the fixed indicator, with its
/// `start_date`/`end_date` parameters.
pub fn indicator_route(start_date: &str, end_date: &str) -> (r: String)
    ensures
        r@ == "indicators/1014?start_date="@ + start_date@ + "&end_date="@ + end_date@,
{
    let mut route = String::from_str("indicators/1014?start_date=");
    route.append(start_date);
    route.append("&end_date=");
    route.append(end_date);
    proof {
        assert(route@ =~= "indicators/1014?start_date="@ + start_date@ + "&end_date="@
            + end_date@);
    }
    route
}

} // verus!
