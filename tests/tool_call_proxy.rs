use llm_gateway::http::{Config, Field, HttpMethod, RequestError, Response, Route};
use llm_gateway::tool_call::{
    envelope, handle_tool_call, parse_tool_call, plan_tool_call, resolve_tool_endpoint, route_tool_call,
    strip_meta, tool_call_failure, tool_reply, ToolCall, ToolCallPlan,
};

fn config(default: Option<&str>) -> Config {
    Config {
        ai_completions_endpoint: None,
        api_key: None,
        api_key_method: None,
        mcp_server_endpoint: default.map(|s| s.to_string()),
    }
}

fn response(p: ToolCallPlan) -> Response {
    match p {
        ToolCallPlan::Respond(r) => r,
        ToolCallPlan::Forward(..) => panic!("expected an immediate response"),
    }
}

fn has_allow_origin(r: &Response) -> bool {
    r.headers.iter().any(|(n, v)| n == "Access-Control-Allow-Origin" && v == "*")
}

#[test]
fn override_endpoint_gets_messages_suffix() {
    let body = br#"{"method":"tools/list","id":1,"params":{"_meta":{"serverEndpoint":"http://x"}}}"#;
    match plan_tool_call(body, &config(Some("http://default"))) {
        ToolCallPlan::Forward(o, id) => {
            assert_eq!(o.url, "http://x/messages");
            assert_eq!(id, "1");
            assert_eq!(o.headers, vec![("Content-Type".to_string(), "application/json".to_string())]);
            assert_eq!(o.body, r#"{"jsonrpc":"2.0","id":1,"method":"tools/list","params":{}}"#);
        }
        ToolCallPlan::Respond(_) => panic!("expected a forward"),
    }
}

#[test]
fn default_endpoint_without_meta() {
    let body = br#"{"method":"tools/call","id":"a","params":{"name":"t"}}"#;
    match plan_tool_call(body, &config(Some("http://tools.local"))) {
        ToolCallPlan::Forward(o, id) => {
            assert_eq!(o.url, "http://tools.local/messages");
            assert_eq!(id, "\"a\"");
            assert_eq!(o.body, r#"{"jsonrpc":"2.0","id":"a","method":"tools/call","params":{"name":"t"}}"#);
        }
        ToolCallPlan::Respond(_) => panic!("expected a forward"),
    }
}

#[test]
fn meta_is_stripped_from_params() {
    let stripped = strip_meta(r#"{"z":[1, 2],"_meta":{"serverEndpoint":"http://x"},"a":true}"#);
    assert_eq!(stripped, r#"{"a":true,"z":[1, 2]}"#);
    let v: serde_json::Value = serde_json::from_str(&stripped).unwrap();
    assert!(v.get("_meta").is_none());
    assert_eq!(strip_meta("[1,2]"), "[1,2]");
    assert_eq!(strip_meta(r#"{"_meta":{}}"#), "{}");
}

#[test]
fn params_default_to_empty_object() {
    let call = parse_tool_call(br#"{"method":"ping","id":7}"#).unwrap();
    assert_eq!(call.method, "ping");
    assert_eq!(call.id, "7");
    assert_eq!(call.params, "{}");
}

#[test]
fn null_id_is_echoed() {
    let call = parse_tool_call(br#"{"method":"ping","id":null}"#).unwrap();
    assert_eq!(call.id, "null");
    assert_eq!(envelope(&call, "{}"), r#"{"jsonrpc":"2.0","id":null,"method":"ping","params":{}}"#);
}

#[test]
fn non_string_method_becomes_empty() {
    let call = parse_tool_call(br#"{"method":5,"id":1}"#).unwrap();
    assert_eq!(call.method, "");
}

#[test]
fn method_is_escaped_in_envelope() {
    let call = ToolCall { method: "a\"b".to_string(), id: "1".to_string(), params: "{}".to_string() };
    assert_eq!(envelope(&call, "{}"), r#"{"jsonrpc":"2.0","id":1,"method":"a\"b","params":{}}"#);
}

#[test]
fn missing_method_or_id_is_forbidden() {
    assert!(matches!(parse_tool_call(br#"{"id":1}"#), Err(RequestError::MissingField(Field::Method))));
    assert!(matches!(parse_tool_call(br#"{"method":"m"}"#), Err(RequestError::MissingField(Field::Id))));
    assert!(matches!(parse_tool_call(b"nope"), Err(RequestError::MalformedBody)));
    let r = response(plan_tool_call(br#"{"id":1}"#, &config(Some("http://d"))));
    assert_eq!(r.status, 403);
    assert_eq!(r.body, b"Missing method in request".to_vec());
    let r = response(plan_tool_call(br#"{"method":"m"}"#, &config(Some("http://d"))));
    assert_eq!(r.body, b"Missing id in request".to_vec());
    let r = response(plan_tool_call(b"{", &config(Some("http://d"))));
    assert_eq!(r.body, b"Invalid JSON in request body".to_vec());
    assert!(has_allow_origin(&r));
}

#[test]
fn non_string_endpoint_is_forbidden() {
    assert!(matches!(
        resolve_tool_endpoint(r#"{"_meta":{"serverEndpoint":3}}"#, &None),
        Err(RequestError::InvalidMeta)
    ));
    let body = br#"{"method":"m","id":1,"params":{"_meta":{"serverEndpoint":null}}}"#;
    let r = response(plan_tool_call(body, &config(Some("http://d"))));
    assert_eq!(r.status, 403);
    assert_eq!(r.body, b"serverEndpoint must be a string".to_vec());
}

#[test]
fn no_endpoint_anywhere_is_forbidden() {
    assert!(matches!(resolve_tool_endpoint("{}", &None), Err(RequestError::ConfigMissing)));
    let r = response(plan_tool_call(br#"{"method":"m","id":1}"#, &config(None)));
    assert_eq!(r.status, 403);
    assert_eq!(r.body, b"Missing MCP server endpoint in request and no default configured".to_vec());
    assert!(has_allow_origin(&r));
}

#[test]
fn meta_without_endpoint_falls_back() {
    let got = resolve_tool_endpoint(r#"{"_meta":{"other":1}}"#, &Some("http://d".to_string())).unwrap();
    assert_eq!(got, "http://d");
}

#[test]
fn reply_is_relayed_with_200() {
    let r = tool_reply(b"{\"jsonrpc\":\"2.0\",\"id\":1,\"error\":{}}".to_vec());
    assert_eq!(r.status, 200);
    assert_eq!(r.body, b"{\"jsonrpc\":\"2.0\",\"id\":1,\"error\":{}}".to_vec());
    assert!(has_allow_origin(&r));
}

#[test]
fn unreachable_server_gives_rpc_error() {
    let r = tool_call_failure("42", "connection refused");
    assert_eq!(r.status, 200);
    assert!(has_allow_origin(&r));
    let v: serde_json::Value = serde_json::from_slice(&r.body).unwrap();
    assert_eq!(v["jsonrpc"], serde_json::Value::String("2.0".to_string()));
    assert_eq!(v["id"], serde_json::Value::from(42));
    assert_eq!(v["error"]["code"].as_i64(), Some(-32603));
    assert_eq!(
        v["error"]["message"].as_str(),
        Some("Error communicating with MCP server: connection refused")
    );
}

#[test]
fn tool_routes() {
    assert_eq!(route_tool_call(HttpMethod::Options, Some("/mcp/proxy")), Route::Preflight);
    assert_eq!(route_tool_call(HttpMethod::Options, Some("/mcp/anything")), Route::Preflight);
    assert_eq!(route_tool_call(HttpMethod::Options, Some("/mcp")), Route::NotAllowed);
    assert_eq!(route_tool_call(HttpMethod::Options, None), Route::NotAllowed);
    assert_eq!(route_tool_call(HttpMethod::Post, Some("/mcp/proxy")), Route::Proxy);
    assert_eq!(route_tool_call(HttpMethod::Post, Some("/mcp/other")), Route::NotAllowed);
    assert_eq!(route_tool_call(HttpMethod::Get, Some("/")), Route::LandingPage);
    assert_eq!(route_tool_call(HttpMethod::Other, Some("/mcp/proxy")), Route::NotAllowed);
}

#[test]
fn tool_preflight_and_405() {
    let r = response(handle_tool_call(HttpMethod::Options, Some("/mcp/x"), b"", &config(None)));
    assert_eq!(r.status, 200);
    assert!(has_allow_origin(&r));
    let r = response(handle_tool_call(HttpMethod::Post, Some("/elsewhere"), b"", &config(None)));
    assert_eq!(r.status, 405);
    assert!(has_allow_origin(&r));
    let r = response(handle_tool_call(HttpMethod::Get, Some("/"), b"", &config(None)));
    assert_eq!(r.body, b"<html><body><h1>MCP Proxy API</h1></body></html>".to_vec());
}
