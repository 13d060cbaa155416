//! The completion proxy: validates a chat-completion call, builds the
//! streaming request for the model provider, and decides how its reply is
//! relayed.
use vstd::prelude::*;
use vstd::utf8::encode_utf8;
use crate::http::{
    carries_cors, cors_headers_entries, cors_spec, headers_view, landing_page, method_not_allowed, page_text, preflight, is_plain_status, is_refusal, opt_view, path_view, refuse, responds_with,
    same_text, server_error, Config, Field, HttpMethod, OutboundRequest, Plan, RequestError, Response, Route,
};
use crate::json::{field_of, find_member, is_json, json_valid, member_of, members_view, object_members};

verus! {

/// A validated completion call: the exact JSON text of `messages` and of
/// `tools` (`[]` where the caller gave none).
pub struct CompletionRequest {
    pub messages: String,
    pub tools: String,
}

/// What validation makes of a body: the texts of `messages` and `tools`, or
/// the refusal.
pub open spec fn completion_request_of(b: Seq<u8>) -> Result<(Seq<char>, Seq<char>), RequestError> {
    if !json_valid(b) {
        Err(RequestError::MalformedBody)
    } else {
        match field_of(b, "messages"@) {
            None => Err(RequestError::MissingField(Field::Messages)),
            Some(m) => Ok((m, match field_of(b, "tools"@) {
                Some(t) => t,
                None => "[]"@,
            })),
        }
    }
}

/// The body sent to the model provider.
pub open spec fn completion_body_text(messages: Seq<char>, tools: Seq<char>) -> Seq<char> {
    "{\"model\":\"gpt-4o\",\"messages\":"@ + messages + ",\"tools\":"@ + tools
        + ",\"stream\":true,\"stream_options\":{\"include_usage\":true}}"@
}

/// The header that carries the API key: `Api-Key` where the configured style
/// is `api-key`, a bearer `Authorization` otherwise.
pub open spec fn auth_header_of(style: Option<Seq<char>>, key: Seq<char>) -> (Seq<char>, Seq<char>) {
    if style == Some("api-key"@) {
        ("Api-Key"@, key)
    } else {
        ("Authorization"@, "Bearer "@ + key)
    }
}

/// Where the model provider is reached and how it is authenticated.
pub struct CompletionTarget {
    pub url: String,
    pub auth: (String, String),
}

/// The request to the model provider for the given call and target.
pub open spec fn is_completion_call(o: OutboundRequest, messages: Seq<char>, tools: Seq<char>, url: Seq<char>, auth: (Seq<char>, Seq<char>)) -> bool {
    &&& o.url@ == url
    &&& headers_view(o.headers@) == seq![("Content-Type"@, "application/json"@), auth]
    &&& o.body@ == completion_body_text(messages, tools)
}

/// Where a completion call is answered by the gateway itself.
pub open spec fn completion_route(m: HttpMethod, path: Option<Seq<char>>) -> Route {
    if m == HttpMethod::Options && path == Some("/proxy"@) {
        Route::Preflight
    } else if m == HttpMethod::Post && path == Some("/proxy"@) {
        Route::Proxy
    } else if m == HttpMethod::Get {
        Route::LandingPage
    } else {
        Route::NotAllowed
    }
}

/// The route of a call to the completion proxy.
pub fn route_completion(method: HttpMethod, path: Option<&str>) -> (r: Route)
    ensures
        r == completion_route(method, path_view(path)),
{
    let on_proxy = match path {
        Some(p) => same_text(p, "/proxy"),
        None => false,
    };
    match method {
        HttpMethod::Options if on_proxy => Route::Preflight,
        HttpMethod::Post if on_proxy => Route::Proxy,
        HttpMethod::Get => Route::LandingPage,
        _ => Route::NotAllowed,
    }
}

/// Validates the body of a completion call.
pub fn parse_completion_request(body: &[u8]) -> (r: Result<CompletionRequest, RequestError>)
    ensures
        match r {
            Ok(q) => completion_request_of(body@) == Ok::<(Seq<char>, Seq<char>), RequestError>((q.messages@, q.tools@)),
            Err(e) => completion_request_of(body@) == Err::<(Seq<char>, Seq<char>), RequestError>(e),
        },
{
    if !is_json(body) {
        return Err(RequestError::MalformedBody);
    }
    let members = match object_members(body) {
        Some(ms) => ms,
        None => Vec::new(),
    };
    assert(field_of(body@, "messages"@) == member_of(members_view(members@), "messages"@));
    assert(field_of(body@, "tools"@) == member_of(members_view(members@), "tools"@));
    let messages = match find_member(&members, "messages") {
        Some(m) => m,
        None => return Err(RequestError::MissingField(Field::Messages)),
    };
    let tools = match find_member(&members, "tools") {
        Some(t) => t,
        None => String::from_str("[]"),
    };
    Ok(CompletionRequest { messages, tools })
}

/// The body of the streaming request for a validated call.
pub fn completion_body(req: &CompletionRequest) -> (r: String)
    ensures
        r@ == completion_body_text(req.messages@, req.tools@),
{
    let mut s = String::from_str("{\"model\":\"gpt-4o\",\"messages\":");
    s.append(req.messages.as_str());
    s.append(",\"tools\":");
    s.append(req.tools.as_str());
    s.append(",\"stream\":true,\"stream_options\":{\"include_usage\":true}}");
    s
}

/// Reads the endpoint and the API key from the configuration; either one
/// absent is `ConfigMissing`.
pub fn resolve_completion_target(config: &Config) -> (r: Result<CompletionTarget, RequestError>)
    ensures
        match (config.ai_completions_endpoint, config.api_key) {
            (Some(u), Some(k)) => r matches Ok(t) && t.url@ == u@
                && (t.auth.0@, t.auth.1@) == auth_header_of(opt_view(config.api_key_method), k@),
            _ => r == Err::<CompletionTarget, RequestError>(RequestError::ConfigMissing),
        },
{
    let url = match &config.ai_completions_endpoint {
        Some(u) => u.clone(),
        None => return Err(RequestError::ConfigMissing),
    };
    let key = match &config.api_key {
        Some(k) => k.clone(),
        None => return Err(RequestError::ConfigMissing),
    };
    let use_api_key = match &config.api_key_method {
        Some(m) => same_text(m.as_str(), "api-key"),
        None => false,
    };
    let auth = if use_api_key {
        (String::from_str("Api-Key"), key)
    } else {
        (String::from_str("Authorization"), String::from_str("Bearer ").concat(key.as_str()))
    };
    Ok(CompletionTarget { url, auth })
}

/// The plan for a `POST /proxy` with body `b`.
pub open spec fn is_completion_plan(b: Seq<u8>, config: Config, r: Plan) -> bool {
    match completion_request_of(b) {
        Err(e) => responds_with(r, |x: Response| is_refusal(x, e) && carries_cors(x)),
        Ok((m, t)) => match (config.ai_completions_endpoint, config.api_key) {
            (Some(u), Some(k)) => r matches Plan::Forward(o) && is_completion_call(
                o,
                m,
                t,
                u@,
                auth_header_of(opt_view(config.api_key_method), k@),
            ),
            _ => responds_with(r, |x: Response| is_plain_status(x, 500) && carries_cors(x)),
        },
    }
}

/// What to do with a `POST /proxy`: refuse a bad body with `403`, answer a
/// missing configuration with `500`, or issue the one streaming request.
pub fn plan_completion(body: &[u8], config: &Config) -> (r: Plan)
    ensures
        is_completion_plan(body@, *config, r),
{
    let req = match parse_completion_request(body) {
        Ok(q) => q,
        Err(e) => return Plan::Respond(refuse(e)),
    };
    let text = completion_body(&req);
    let target = match resolve_completion_target(config) {
        Ok(t) => t,
        Err(_) => return Plan::Respond(server_error()),
    };
    let headers = vec![(String::from_str("Content-Type"), String::from_str("application/json")), target.auth];
    let o = OutboundRequest { url: target.url, headers, body: text };
    assert(headers_view(o.headers@) =~= seq![("Content-Type"@, "application/json"@), auth_header_of(opt_view(config.api_key_method), config.api_key->Some_0@)]);
    Plan::Forward(o)
}

/// The headers of a relayed completion stream: the CORS set, then the
/// event-stream content type.
pub open spec fn stream_headers() -> Seq<(Seq<char>, Seq<char>)> {
    cors_spec().push(("content-type"@, "text/event-stream; charset=utf-8"@))
}

/// The head of the caller's response once the model provider has answered
/// with `status`: on `200` the stream is relayed under the event-stream
/// headers; on anything else the caller gets a bare `500`, with nothing of
/// the provider's reply in it.
pub fn completion_response_head(status: u16) -> (r: Response)
    ensures
        status == 200 ==> r.status == 200 && headers_view(r.headers@) == stream_headers() && r.body@.len() == 0,
        status != 200 ==> is_plain_status(r, 500),
        carries_cors(r),
{
    if status != 200 {
        return server_error();
    }
    let mut headers = cors_headers_entries();
    headers.push((String::from_str("content-type"), String::from_str("text/event-stream; charset=utf-8")));
    let r = Response { status: 200, headers, body: Vec::new() };
    assert(headers_view(r.headers@) =~= stream_headers());
    assert(headers_view(r.headers@).subrange(0, 4) =~= cors_spec());
    r
}

/// The title of the completion proxy's landing page.
pub open spec fn completion_title() -> Seq<char> {
    "LLM Proxy API"@
}

/// Handles one inbound call to the completion proxy, up to the downstream
/// call: preflight and the landing page are answered, a wrong method or path
/// gets `405`, and `POST /proxy` is planned.
pub fn handle_completion(method: HttpMethod, path: Option<&str>, body: &[u8], config: &Config) -> (r: Plan)
    ensures
        match completion_route(method, path_view(path)) {
            Route::Preflight => responds_with(r, |x: Response| is_plain_status(x, 200) && carries_cors(x)),
            Route::NotAllowed => responds_with(r, |x: Response| is_plain_status(x, 405) && carries_cors(x)),
            Route::LandingPage => responds_with(r, |x: Response| x.status == 200 && carries_cors(x)
                && x.body@ == encode_utf8(page_text(completion_title()))),
            Route::Proxy => is_completion_plan(body@, *config, r),
        },
        r is Respond ==> responds_with(r, |x: Response| carries_cors(x)),
{
    match route_completion(method, path) {
        Route::Preflight => Plan::Respond(preflight()),
        Route::Proxy => plan_completion(body, config),
        Route::LandingPage => Plan::Respond(landing_page("LLM Proxy API")),
        Route::NotAllowed => Plan::Respond(method_not_allowed()),
    }
}

} // verus!
