//! The per-connection request path, between the single socket read and the
//! single write: decode the buffer, parse the request head, dispatch to the
//! route table, and frame the response. The socket work itself stays with
//! the caller, which hands the raw bytes in and writes the reply out.
use vstd::prelude::*;
use crate::routes::find_handler;
use crate::routes::handler_response;
use crate::routes::method_from_token;
use crate::routes::run_handler;
use crate::routes::spec_lookup;
use crate::routes::spec_method_of;
use crate::routes::Handler;
use crate::routes::Method;
use crate::routes::RouteTable;
use crate::wire::serialize_response;
use crate::wire::spec_http_response;

verus! {

/// The most headers one request may carry.
pub const MAX_HEADERS: usize = 16;

/// What `String::from_utf8_lossy` yields for these bytes: a function of the
/// bytes alone (invalid sequences become replacement characters).
pub uninterp spec fn lossy_of(bytes: Seq<u8>) -> Seq<char>;

/// Relies on `String::from_utf8_lossy`: the decoding never fails, depends on
/// the bytes alone, and an empty input decodes to an empty string.
#[verifier::external_body]
fn decode_lossy(bytes: &[u8]) -> (r: String)
    ensures
        r@ == lossy_of(bytes@),
        bytes@.len() == 0 ==> r@.len() == 0,
{
    String::from_utf8_lossy(bytes).into_owned()
}

/// What `httparse::Request::parse` makes of this request text when given a
/// `MAX_HEADERS`-header buffer: the method token and the path when it parses
/// a complete request head, nothing when the text is malformed, incomplete,
/// or carries too many headers. A function of the text alone.
pub uninterp spec fn parse_outcome(request: Seq<char>) -> Option<(Seq<char>, Seq<char>)>;

/// Relies on `httparse::Request::parse` with a `MAX_HEADERS`-header buffer:
/// it returns `Ok(Status::Complete)` with `method` and `path` filled once
/// the whole request head parsed, and reports malformed input as `Err` and a
/// truncated head as `Ok(Status::Partial)`, never panicking.
#[verifier::external_body]
fn parse_request(request: &str) -> (r: Option<(String, String)>)
    ensures
        match r {
            Some(mp) => parse_outcome(request@) == Some((mp.0@, mp.1@)),
            None => parse_outcome(request@) is None,
        },
{
    let mut headers = [httparse::EMPTY_HEADER; MAX_HEADERS];
    let mut parsed = httparse::Request::new(&mut headers);
    match parsed.parse(request.as_bytes()) {
        Ok(httparse::Status::Complete(_)) => match (parsed.method, parsed.path) {
            (Some(m), Some(p)) => Some((m.to_string(), p.to_string())),
            _ => None,
        },
        _ => None,
    }
}

/// How one connection's single read is answered.
pub enum ConnectionOutcome {
    /// A complete response to write back, then close.
    Reply(Vec<u8>),
    /// The peer closed before sending anything: no response, nothing to log.
    CleanClose,
    /// The request head could not be parsed: no response; worth a log line.
    ParseFailure,
}

/// The handler a parsed request head resolves to: the routed handler for
/// (path, method) when the token names a known method and the key is
/// registered, the fallback otherwise.
pub open spec fn spec_resolve(
    routes: Seq<(Seq<char>, Method, Handler)>,
    method_token: Seq<char>,
    path: Seq<char>,
) -> Handler {
    match spec_method_of(method_token) {
        Some(method) => match spec_lookup(routes, path, method) {
            Some(h) => h,
            None => Handler::NotFound,
        },
        None => Handler::NotFound,
    }
}

/// The wire response owed to a request whose head parsed as (method token,
/// path): the resolved handler's triple, framed.
pub open spec fn spec_reply(
    routes: Seq<(Seq<char>, Method, Handler)>,
    method_token: Seq<char>,
    path: Seq<char>,
    request: Seq<char>,
) -> Seq<u8> {
    let triple = handler_response(spec_resolve(routes, method_token, path), request);
    spec_http_response(triple.2, triple.1, triple.0)
}

/// A request whose head names a known method and a registered (path, method)
/// key is answered with exactly that handler's page, framed; every page
/// handler other than the fallback answers with status 200.
pub proof fn lemma_reply_registered(
    routes: Seq<(Seq<char>, Method, Handler)>,
    method_token: Seq<char>,
    path: Seq<char>,
    request: Seq<char>,
    method: Method,
    h: Handler,
)
    requires
        spec_method_of(method_token) == Some(method),
        spec_lookup(routes, path, method) == Some(h),
    ensures
        ({
            let triple = handler_response(h, request);
            spec_reply(routes, method_token, path, request) == spec_http_response(
                triple.2,
                triple.1,
                triple.0,
            )
        }),
        h != Handler::NotFound ==> handler_response(h, request).2 == 200,
{
}

/// A request for any key that is not registered — the path unknown, the
/// method wrong for the path, or the method token unknown — is answered
/// with the fixed not-found page and status 404.
pub proof fn lemma_reply_unrouted(
    routes: Seq<(Seq<char>, Method, Handler)>,
    method_token: Seq<char>,
    path: Seq<char>,
    request: Seq<char>,
)
    requires
        match spec_method_of(method_token) {
            Some(method) => spec_lookup(routes, path, method) is None,
            None => true,
        },
    ensures
        spec_reply(routes, method_token, path, request) == spec_http_response(
            404,
            "text/html"@,
            crate::render::spec_rendered("404 - Not Found"@, "Not Found"@),
        ),
{
}

/// Handles everything between one connection's read and its write: an empty
/// read closes cleanly; an unparsable head closes without a response; a
/// parsed head is dispatched on its exact (path, method) and answered with
/// one framed response.
pub fn handle_request(data: &[u8], routes: &RouteTable) -> (r: ConnectionOutcome)
    ensures
        data@.len() == 0 <==> r is CleanClose,
        data@.len() > 0 ==> match parse_outcome(lossy_of(data@)) {
            None => r is ParseFailure,
            Some(mp) => r matches ConnectionOutcome::Reply(v) && v@ == spec_reply(
                routes@,
                mp.0,
                mp.1,
                lossy_of(data@),
            ),
        },
{
    if data.len() == 0 {
        return ConnectionOutcome::CleanClose;
    }
    let request = decode_lossy(data);
    match parse_request(request.as_str()) {
        None => ConnectionOutcome::ParseFailure,
        Some((method_token, path)) => {
            let handler = match method_from_token(method_token.as_str()) {
                Some(method) => match find_handler(path.as_str(), method, routes) {
                    Some(h) => h,
                    None => Handler::NotFound,
                },
                None => Handler::NotFound,
            };
            let (body, content_type, status) = run_handler(handler, request.as_str());
            let reply = serialize_response(status, content_type, body.as_str());
            ConnectionOutcome::Reply(reply)
        },
    }
}

} // verus!
