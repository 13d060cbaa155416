//! The tool-call proxy: turns `{method, id, params}` into a JSON-RPC 2.0
//! request for a tool server, chosen per call or by configuration, and
//! relays the reply as a JSON-RPC response with status `200`.
use vstd::prelude::*;
use vstd::utf8::encode_utf8;
use crate::http::{
    carries_cors, cors_spec, headers_view, is_plain_status, is_refusal, landing_page, method_not_allowed,
    opt_view, page_text, path_view, preflight, refuse, respond_ok, same_text, starts_with, Config, Field,
    HttpMethod, OutboundRequest, RequestError, Response, Route,
};
use crate::json::{
    field_of, find_member, is_json, json_object_members, json_quoted, json_string_value, json_valid,
    member_of, members_view, object_members, object_text, quote, remove_member, string_value,
    without_member, write_object,
};

verus! {

/// A validated tool call: the method name, and the exact JSON text of `id`
/// and of `params` (`{}` where the caller gave none).
pub struct ToolCall {
    pub method: String,
    pub id: String,
    pub params: String,
}

/// The string a JSON text denotes, or the empty string where it is not one.
pub open spec fn string_or_empty(t: Seq<char>) -> Seq<char> {
    match json_string_value(t) {
        Some(s) => s,
        None => Seq::empty(),
    }
}

/// What validation makes of a body: method, id text and params text, or the
/// refusal.
pub open spec fn tool_call_of(b: Seq<u8>) -> Result<(Seq<char>, Seq<char>, Seq<char>), RequestError> {
    if !json_valid(b) {
        Err(RequestError::MalformedBody)
    } else {
        match field_of(b, "method"@) {
            None => Err(RequestError::MissingField(Field::Method)),
            Some(m) => match field_of(b, "id"@) {
                None => Err(RequestError::MissingField(Field::Id)),
                Some(id) => Ok((string_or_empty(m), id, match field_of(b, "params"@) {
                    Some(p) => p,
                    None => "{}"@,
                })),
            },
        }
    }
}

/// The text of `params._meta.serverEndpoint`, where there is one.
pub open spec fn meta_endpoint(params: Seq<char>) -> Option<Seq<char>> {
    match field_of(encode_utf8(params), "_meta"@) {
        Some(meta) => field_of(encode_utf8(meta), "serverEndpoint"@),
        None => None,
    }
}

/// The tool server to call: the per-call override where there is one (which
/// must be a string), else the configured default.
pub open spec fn endpoint_of(params: Seq<char>, default: Option<Seq<char>>) -> Result<Seq<char>, RequestError> {
    match meta_endpoint(params) {
        Some(t) => match json_string_value(t) {
            Some(s) => Ok(s),
            None => Err(RequestError::InvalidMeta),
        },
        None => match default {
            Some(d) => Ok(d),
            None => Err(RequestError::ConfigMissing),
        },
    }
}

/// The params sent on: an object loses its `_meta` member, anything else
/// goes as it came.
pub open spec fn forwarded_params(params: Seq<char>) -> Seq<char> {
    match json_object_members(encode_utf8(params)) {
        Some(ms) => object_text(without_member(ms, "_meta"@)),
        None => params,
    }
}

/// The JSON-RPC 2.0 request envelope.
pub open spec fn envelope_text(id: Seq<char>, method: Seq<char>, params: Seq<char>) -> Seq<char> {
    "{\"jsonrpc\":\"2.0\",\"id\":"@ + id + ",\"method\":"@ + json_quoted(method) + ",\"params\":"@ + params + "}"@
}

/// Where calls are delivered on a tool server.
pub open spec fn messages_url(endpoint: Seq<char>) -> Seq<char> {
    endpoint + "/messages"@
}

/// The JSON-RPC error envelope for a tool server that could not be reached.
pub open spec fn failure_text(id: Seq<char>, detail: Seq<char>) -> Seq<char> {
    "{\"jsonrpc\":\"2.0\",\"id\":"@ + id + ",\"error\":{\"code\":-32603,\"message\":"@
        + json_quoted("Error communicating with MCP server: "@ + detail) + "}}"@
}

/// Validates the body of a tool call.
pub fn parse_tool_call(body: &[u8]) -> (r: Result<ToolCall, RequestError>)
    ensures
        match r {
            Ok(c) => tool_call_of(body@) == Ok::<(Seq<char>, Seq<char>, Seq<char>), RequestError>((c.method@, c.id@, c.params@)),
            Err(e) => tool_call_of(body@) == Err::<(Seq<char>, Seq<char>, Seq<char>), RequestError>(e),
        },
{
    if !is_json(body) {
        return Err(RequestError::MalformedBody);
    }
    let members = match object_members(body) {
        Some(ms) => ms,
        None => Vec::new(),
    };
    assert(field_of(body@, "method"@) == member_of(members_view(members@), "method"@));
    assert(field_of(body@, "id"@) == member_of(members_view(members@), "id"@));
    assert(field_of(body@, "params"@) == member_of(members_view(members@), "params"@));
    let method_text = match find_member(&members, "method") {
        Some(m) => m,
        None => return Err(RequestError::MissingField(Field::Method)),
    };
    let method = match string_value(method_text.as_str()) {
        Some(s) => s,
        None => String::new(),
    };
    let params = match find_member(&members, "params") {
        Some(p) => p,
        None => String::from_str("{}"),
    };
    let id = match find_member(&members, "id") {
        Some(i) => i,
        None => return Err(RequestError::MissingField(Field::Id)),
    };
    Ok(ToolCall { method, id, params })
}

/// The member `key` of the JSON object written in `text`, if any.
fn member_in(text: &str, key: &str) -> (r: Option<String>)
    ensures
        match r {
            Some(v) => field_of(encode_utf8(text@), key@) == Some(v@),
            None => field_of(encode_utf8(text@), key@) is None,
        },
{
    match object_members(text.as_bytes()) {
        Some(ms) => find_member(&ms, key),
        None => None,
    }
}

/// Chooses the tool server for a call with the given params.
pub fn resolve_tool_endpoint(params: &str, default: &Option<String>) -> (r: Result<String, RequestError>)
    ensures
        match r {
            Ok(s) => endpoint_of(params@, opt_view(*default)) == Ok::<Seq<char>, RequestError>(s@),
            Err(e) => endpoint_of(params@, opt_view(*default)) == Err::<Seq<char>, RequestError>(e),
        },
{
    let given = match member_in(params, "_meta") {
        Some(meta) => member_in(meta.as_str(), "serverEndpoint"),
        None => None,
    };
    match given {
        Some(t) => match string_value(t.as_str()) {
            Some(s) => Ok(s),
            None => Err(RequestError::InvalidMeta),
        },
        None => match default {
            Some(d) => Ok(d.clone()),
            None => Err(RequestError::ConfigMissing),
        },
    }
}

/// The params to send on, without `_meta`.
pub fn strip_meta(params: &str) -> (r: String)
    ensures
        r@ == forwarded_params(params@),
{
    match object_members(params.as_bytes()) {
        Some(ms) => write_object(&remove_member(ms, "_meta")),
        None => String::from_str(params),
    }
}

/// The JSON-RPC 2.0 request for a call, with the given params text.
pub fn envelope(call: &ToolCall, params: &str) -> (r: String)
    ensures
        r@ == envelope_text(call.id@, call.method@, params@),
{
    let mut s = String::from_str("{\"jsonrpc\":\"2.0\",\"id\":");
    s.append(call.id.as_str());
    s.append(",\"method\":");
    s.append(quote(call.method.as_str()).as_str());
    s.append(",\"params\":");
    s.append(params);
    s.append("}");
    s
}

/// What to do with a `POST /mcp/proxy`: answer at once, or send the request
/// and come back with its outcome, keeping the call's `id` text for the reply.
pub enum ToolCallPlan {
    Respond(Response),
    Forward(OutboundRequest, String),
}

/// The plan answers at once with a response that meets `pred`.
pub open spec fn answers_with(p: ToolCallPlan, pred: spec_fn(Response) -> bool) -> bool {
    match p {
        ToolCallPlan::Respond(r) => pred(r),
        ToolCallPlan::Forward(..) => false,
    }
}

/// The plan for a `POST /mcp/proxy` with body `b`.
pub open spec fn is_tool_call_plan(b: Seq<u8>, config: Config, r: ToolCallPlan) -> bool {
    match tool_call_of(b) {
        Err(e) => answers_with(r, |x: Response| is_refusal(x, e) && carries_cors(x)),
        Ok((m, id, params)) => match endpoint_of(params, opt_view(config.mcp_server_endpoint)) {
            Err(e) => answers_with(r, |x: Response| is_refusal(x, e) && carries_cors(x)),
            Ok(endpoint) => r matches ToolCallPlan::Forward(o, i) && i@ == id && o.url@ == messages_url(endpoint)
                && headers_view(o.headers@) == seq![("Content-Type"@, "application/json"@)]
                && o.body@ == envelope_text(id, m, forwarded_params(params)),
        },
    }
}

/// Validates a tool call, chooses its tool server and builds the JSON-RPC
/// request; input defects and a missing endpoint are refused with `403`.
pub fn plan_tool_call(body: &[u8], config: &Config) -> (r: ToolCallPlan)
    ensures
        is_tool_call_plan(body@, *config, r),
{
    let call = match parse_tool_call(body) {
        Ok(c) => c,
        Err(e) => return ToolCallPlan::Respond(refuse(e)),
    };
    let endpoint = match resolve_tool_endpoint(call.params.as_str(), &config.mcp_server_endpoint) {
        Ok(s) => s,
        Err(e) => return ToolCallPlan::Respond(refuse(e)),
    };
    let params = strip_meta(call.params.as_str());
    let text = envelope(&call, params.as_str());
    let url = endpoint.concat("/messages");
    let headers = vec![(String::from_str("Content-Type"), String::from_str("application/json"))];
    let o = OutboundRequest { url, headers, body: text };
    assert(headers_view(o.headers@) =~= seq![("Content-Type"@, "application/json"@)]);
    ToolCallPlan::Forward(o, call.id)
}

/// The reply relayed to the caller once the tool server's body has been read
/// in full: that body, verbatim, with status `200` whatever the server's own.
pub fn tool_reply(body: Vec<u8>) -> (r: Response)
    ensures
        r.status == 200,
        headers_view(r.headers@) == cors_spec(),
        r.body@ == body@,
        carries_cors(r),
{
    respond_ok(body)
}

/// The reply when the tool server could not be reached: status `200` and a
/// JSON-RPC error (code -32603) that echoes the call's `id` and the failure.
pub fn tool_call_failure(id: &str, detail: &str) -> (r: Response)
    ensures
        r.status == 200,
        headers_view(r.headers@) == cors_spec(),
        r.body@ == encode_utf8(failure_text(id@, detail@)),
        carries_cors(r),
{
    let message = String::from_str("Error communicating with MCP server: ").concat(detail);
    let mut s = String::from_str("{\"jsonrpc\":\"2.0\",\"id\":");
    s.append(id);
    s.append(",\"error\":{\"code\":-32603,\"message\":");
    s.append(quote(message.as_str()).as_str());
    s.append("}}");
    respond_ok(s.as_str().as_bytes_vec())
}

/// The path lies under `/mcp/`.
pub open spec fn under_mcp(path: Option<Seq<char>>) -> bool {
    match path {
        Some(p) => p.len() >= 5 && p.subrange(0, 5) == "/mcp/"@,
        None => false,
    }
}

/// Where a call to the tool-call proxy goes.
pub open spec fn tool_route(m: HttpMethod, path: Option<Seq<char>>) -> Route {
    if m == HttpMethod::Options && under_mcp(path) {
        Route::Preflight
    } else if m == HttpMethod::Post && path == Some("/mcp/proxy"@) {
        Route::Proxy
    } else if m == HttpMethod::Get {
        Route::LandingPage
    } else {
        Route::NotAllowed
    }
}

/// The route of a call to the tool-call proxy.
pub fn route_tool_call(method: HttpMethod, path: Option<&str>) -> (r: Route)
    ensures
        r == tool_route(method, path_view(path)),
{
    proof {
        reveal_strlit("/mcp/");
    }
    let (under_mcp, on_proxy) = match path {
        Some(p) => (starts_with(p, "/mcp/"), same_text(p, "/mcp/proxy")),
        None => (false, false),
    };
    match method {
        HttpMethod::Options if under_mcp => Route::Preflight,
        HttpMethod::Post if on_proxy => Route::Proxy,
        HttpMethod::Get => Route::LandingPage,
        _ => Route::NotAllowed,
    }
}

/// The title of the tool-call proxy's landing page.
pub open spec fn tool_title() -> Seq<char> {
    "MCP Proxy API"@
}

/// Handles one inbound call to the tool-call proxy, up to the downstream
/// call: preflight under `/mcp/` and the landing page are answered, a wrong
/// method or path gets `405`, and `POST /mcp/proxy` is planned.
pub fn handle_tool_call(method: HttpMethod, path: Option<&str>, body: &[u8], config: &Config) -> (r: ToolCallPlan)
    ensures
        match tool_route(method, path_view(path)) {
            Route::Preflight => answers_with(r, |x: Response| is_plain_status(x, 200) && carries_cors(x)),
            Route::NotAllowed => answers_with(r, |x: Response| is_plain_status(x, 405) && carries_cors(x)),
            Route::LandingPage => answers_with(r, |x: Response| x.status == 200 && carries_cors(x)
                && x.body@ == encode_utf8(page_text(tool_title()))),
            Route::Proxy => is_tool_call_plan(body@, *config, r),
        },
        r is Respond ==> answers_with(r, |x: Response| carries_cors(x)),
{
    match route_tool_call(method, path) {
        Route::Preflight => ToolCallPlan::Respond(preflight()),
        Route::Proxy => plan_tool_call(body, config),
        Route::LandingPage => ToolCallPlan::Respond(landing_page("MCP Proxy API")),
        Route::NotAllowed => ToolCallPlan::Respond(method_not_allowed()),
    }
}

/// The params sent on never hold a `_meta` member: none of the members that
/// are written out is under that key.
pub proof fn lemma_meta_never_forwarded(ms: Seq<(Seq<char>, Seq<char>)>)
    ensures
        member_of(without_member(ms, "_meta"@), "_meta"@) is None,
        forall|i: int| 0 <= i < without_member(ms, "_meta"@).len() ==> #[trigger] without_member(ms, "_meta"@)[i].0 != "_meta"@,
{
    let kept = without_member(ms, "_meta"@);
    assert forall|i: int| 0 <= i < kept.len() implies #[trigger] kept[i].0 != "_meta"@ by {
        ms.lemma_filter_pred(|m: (Seq<char>, Seq<char>)| m.0 != "_meta"@, i);
    }
    lemma_no_member(kept, "_meta"@);
}

/// A list none of whose members is under `key` has no member `key`.
proof fn lemma_no_member(ms: Seq<(Seq<char>, Seq<char>)>, key: Seq<char>)
    requires
        forall|i: int| 0 <= i < ms.len() ==> #[trigger] ms[i].0 != key,
    ensures
        member_of(ms, key) is None,
    decreases ms.len(),
{
    if ms.len() > 0 {
        assert(ms[0].0 != key);
        lemma_no_member(ms.drop_first(), key);
    }
}

} // verus!
