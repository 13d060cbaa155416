//! What the two gateways share: the CORS header set, the caller-visible
//! responses, the outbound request and the configuration they read.
use vstd::prelude::*;
use vstd::utf8::encode_utf8;

verus! {

/// The request methods that the gateways tell apart.
#[derive(Clone, Copy, Debug, PartialEq, Eq, Structural)]
pub enum HttpMethod {
    Get,
    Post,
    Options,
    Other,
}

/// Where an inbound call is sent.
#[derive(Clone, Copy, Debug, PartialEq, Eq, Structural)]
pub enum Route {
    /// CORS preflight: `200` with the CORS headers only.
    Preflight,
    /// The forwarding endpoint of the service.
    Proxy,
    /// The static landing page.
    LandingPage,
    /// Anything else: `405`.
    NotAllowed,
}

/// A field that an inbound body must hold.
#[derive(Clone, Copy, Debug, PartialEq, Eq, Structural)]
pub enum Field {
    Messages,
    Method,
    Id,
}

/// The ways in which an inbound call is refused before anything is sent.
#[derive(Clone, Copy, Debug, PartialEq, Eq, Structural)]
pub enum RequestError {
    /// The body is not JSON.
    MalformedBody,
    /// A required field is absent.
    MissingField(Field),
    /// `params._meta.serverEndpoint` is there but is not a string.
    InvalidMeta,
    /// A configuration string that the call needs is absent.
    ConfigMissing,
}

/// The reason that a refused caller reads.
pub open spec fn reason_text(e: RequestError) -> Seq<char> {
    match e {
        RequestError::MalformedBody => "Invalid JSON in request body"@,
        RequestError::MissingField(Field::Messages) => "Missing messages in request"@,
        RequestError::MissingField(Field::Method) => "Missing method in request"@,
        RequestError::MissingField(Field::Id) => "Missing id in request"@,
        RequestError::InvalidMeta => "serverEndpoint must be a string"@,
        RequestError::ConfigMissing => "Missing MCP server endpoint in request and no default configured"@,
    }
}

/// The reason that a refused caller reads.
pub fn reason(e: RequestError) -> (r: &'static str)
    ensures
        r@ == reason_text(e),
{
    match e {
        RequestError::MalformedBody => "Invalid JSON in request body",
        RequestError::MissingField(Field::Messages) => "Missing messages in request",
        RequestError::MissingField(Field::Method) => "Missing method in request",
        RequestError::MissingField(Field::Id) => "Missing id in request",
        RequestError::InvalidMeta => "serverEndpoint must be a string",
        RequestError::ConfigMissing => "Missing MCP server endpoint in request and no default configured",
    }
}

/// `403` carrying the reason for the refusal.
pub fn refuse(e: RequestError) -> (r: Response)
    ensures
        is_refusal(r, e),
        carries_cors(r),
{
    respond_forbidden(reason(e))
}

/// `403` with the CORS headers and the reason for `e` as its body.
pub open spec fn is_refusal(r: Response, e: RequestError) -> bool {
    &&& r.status == 403
    &&& headers_view(r.headers@) == cors_spec()
    &&& r.body@ == encode_utf8(reason_text(e))
}

/// The view of an optional string.
pub open spec fn opt_view(o: Option<String>) -> Option<Seq<char>> {
    match o {
        Some(s) => Some(s@),
        None => None,
    }
}

/// The view of an optional path.
pub open spec fn path_view(o: Option<&str>) -> Option<Seq<char>> {
    match o {
        Some(s) => Some(s@),
        None => None,
    }
}

/// The response that a plan answers with at once, if any.
pub open spec fn responds_with(p: Plan, pred: spec_fn(Response) -> bool) -> bool {
    match p {
        Plan::Respond(r) => pred(r),
        Plan::Forward(_) => false,
    }
}

/// The process-wide configuration strings, read once by the host.
pub struct Config {
    pub ai_completions_endpoint: Option<String>,
    pub api_key: Option<String>,
    pub api_key_method: Option<String>,
    pub mcp_server_endpoint: Option<String>,
}

/// A response handed back to the host to finalize.
pub struct Response {
    pub status: u16,
    pub headers: Vec<(String, String)>,
    pub body: Vec<u8>,
}

/// A `POST` to be issued downstream.
pub struct OutboundRequest {
    pub url: String,
    pub headers: Vec<(String, String)>,
    pub body: String,
}

/// What the host is to do with an inbound call: answer it at once, or issue
/// one downstream call and come back with its outcome.
pub enum Plan {
    Respond(Response),
    Forward(OutboundRequest),
}

/// The view of a header list.
pub open spec fn headers_view(h: Seq<(String, String)>) -> Seq<(Seq<char>, Seq<char>)> {
    h.map_values(|p: (String, String)| (p.0@, p.1@))
}

/// The fixed CORS header set, in order.
pub open spec fn cors_spec() -> Seq<(Seq<char>, Seq<char>)> {
    seq![
        ("Access-Control-Allow-Origin"@, "*"@),
        ("Access-Control-Allow-Methods"@, "POST, GET, OPTIONS"@),
        ("Access-Control-Allow-Headers"@, "Content-Type, Authorization"@),
        ("Access-Control-Allow-Credentials"@, "true"@),
    ]
}

/// The response starts its headers with the CORS set.
pub open spec fn carries_cors(r: Response) -> bool {
    headers_view(r.headers@).len() >= 4 && headers_view(r.headers@).subrange(0, 4) == cors_spec()
}

/// A response of the given status, with the CORS headers and no body.
pub open spec fn is_plain_status(r: Response, status: u16) -> bool {
    &&& r.status == status
    &&& headers_view(r.headers@) == cors_spec()
    &&& r.body@.len() == 0
}

/// `(name, value)` as owned strings.
fn header(name: &str, value: &str) -> (r: (String, String))
    ensures
        r.0@ == name@,
        r.1@ == value@,
{
    (String::from_str(name), String::from_str(value))
}

/// The CORS header set that every response carries.
pub fn cors_headers_entries() -> (r: Vec<(String, String)>)
    ensures
        headers_view(r@) == cors_spec(),
{
    let r = vec![
        header("Access-Control-Allow-Origin", "*"),
        header("Access-Control-Allow-Methods", "POST, GET, OPTIONS"),
        header("Access-Control-Allow-Headers", "Content-Type, Authorization"),
        header("Access-Control-Allow-Credentials", "true"),
    ];
    assert(headers_view(r@) =~= cors_spec());
    r
}

/// A response of the given status with the CORS headers and no body.
pub fn respond_with_status(status: u16) -> (r: Response)
    ensures
        is_plain_status(r, status),
        carries_cors(r),
{
    let r = Response { status, headers: cors_headers_entries(), body: Vec::new() };
    assert(headers_view(r.headers@).subrange(0, 4) =~= cors_spec());
    r
}

/// `403` with the reason as its body.
pub fn respond_forbidden(reason: &str) -> (r: Response)
    ensures
        r.status == 403,
        headers_view(r.headers@) == cors_spec(),
        r.body@ == encode_utf8(reason@),
        carries_cors(r),
{
    let r = Response { status: 403, headers: cors_headers_entries(), body: reason.as_bytes_vec() };
    assert(headers_view(r.headers@).subrange(0, 4) =~= cors_spec());
    r
}

/// `500`, which says nothing of what went wrong.
pub fn server_error() -> (r: Response)
    ensures
        is_plain_status(r, 500),
        carries_cors(r),
{
    respond_with_status(500)
}

/// `405`.
pub fn method_not_allowed() -> (r: Response)
    ensures
        is_plain_status(r, 405),
        carries_cors(r),
{
    respond_with_status(405)
}

/// The answer to a CORS preflight.
pub fn preflight() -> (r: Response)
    ensures
        is_plain_status(r, 200),
        carries_cors(r),
{
    respond_with_status(200)
}

/// `200` with the CORS headers and the given body.
pub fn respond_ok(body: Vec<u8>) -> (r: Response)
    ensures
        r.status == 200,
        headers_view(r.headers@) == cors_spec(),
        r.body@ == body@,
        carries_cors(r),
{
    let r = Response { status: 200, headers: cors_headers_entries(), body };
    assert(headers_view(r.headers@).subrange(0, 4) =~= cors_spec());
    r
}

/// The markup of the landing page.
pub open spec fn page_text(title: Seq<char>) -> Seq<char> {
    "<html><body><h1>"@ + title + "</h1></body></html>"@
}

/// The static landing page with the given title.
pub fn landing_page(title: &str) -> (r: Response)
    ensures
        r.status == 200,
        headers_view(r.headers@) == cors_spec(),
        r.body@ == encode_utf8(page_text(title@)),
        carries_cors(r),
{
    let mut page = String::from_str("<html><body><h1>");
    page.append(title);
    page.append("</h1></body></html>");
    respond_ok(page.as_str().as_bytes_vec())
}

/// Whether two strings hold the same characters.
pub fn same_text(a: &str, b: &str) -> (r: bool)
    ensures
        r == (a@ == b@),
{
    String::from_str(a) == String::from_str(b)
}

/// Whether `s` starts with `prefix`.
pub fn starts_with(s: &str, prefix: &str) -> (r: bool)
    ensures
        r == (prefix@.len() <= s@.len() && s@.subrange(0, prefix@.len() as int) == prefix@),
{
    let n = prefix.unicode_len();
    if n > s.unicode_len() {
        return false;
    }
    same_text(s.substring_char(0, n), prefix)
}

/// Every response that carries the CORS set allows any origin.
pub proof fn lemma_cors_allows_any_origin(r: Response)
    requires
        carries_cors(r),
    ensures
        headers_view(r.headers@)[0] == ("Access-Control-Allow-Origin"@, "*"@),
{
    assert(headers_view(r.headers@)[0] == headers_view(r.headers@).subrange(0, 4)[0]);
}

} // verus!
