use ghview::ipc::client::IpcClient;
use ghview::json::Json;
use ghview::mcp::protocol::{
    CallToolResult, JsonRpcError, JsonRpcRequest, JsonRpcResponse, INVALID_PARAMS,
    METHOD_NOT_FOUND, PARSE_ERROR,
};
use ghview::mcp::server::{parse_mcp_method, InputAction, McpDispatch, McpMethod, McpServer};

fn text(s: &str) -> Json {
    Json::Str(s.to_string())
}

fn obj(entries: Vec<(&str, Json)>) -> Json {
    Json::Object(entries.into_iter().map(|(k, v)| (k.to_string(), v)).collect())
}

fn get<'a>(j: &'a Json, key: &str) -> &'a Json {
    match j {
        Json::Object(e) => &e.iter().find(|(k, _)| k == key).expect("missing field").1,
        _ => panic!("not an object"),
    }
}

fn server() -> McpServer {
    McpServer::new(IpcClient::connect("/tmp/ghview.sock", true).unwrap())
}

fn num(n: &str) -> Json {
    Json::Number(n.to_string())
}

fn reply(d: McpDispatch) -> JsonRpcResponse {
    match d {
        McpDispatch::Reply(r) => r,
        McpDispatch::CallScreenshot(_, _) => panic!("expected a reply"),
    }
}

fn call(name: &str, arguments: Option<Json>) -> Json {
    let mut e = vec![("name", text(name))];
    if let Some(a) = arguments {
        e.push(("arguments", a));
    }
    obj(e)
}

fn assert_tool_error(resp: &JsonRpcResponse, message: &str) {
    assert!(resp.error.is_none());
    let result = resp.result.as_ref().unwrap();
    assert_eq!(get(result, "isError"), &Json::Bool(true));
    match get(result, "content") {
        Json::Array(items) => {
            assert_eq!(items.len(), 1);
            assert_eq!(get(&items[0], "type"), &text("text"));
            assert_eq!(get(&items[0], "text"), &text(message));
        }
        _ => panic!("content is not an array"),
    }
}

#[test]
fn missing_output_dir_is_a_tool_error() {
    let s = server();
    let line = obj(vec![
        ("jsonrpc", text("2.0")),
        ("id", num("3")),
        ("method", text("tools/call")),
        ("params", call("screenshot", Some(obj(vec![])))),
    ]);
    let resp = reply(s.handle_line(Ok(line)));
    assert_eq!(resp.id, Some(num("3")));
    assert_tool_error(&resp, "Missing required argument: output_dir");
}

#[test]
fn missing_arguments_is_a_tool_error() {
    let resp = reply(server().handle_call_tool(Some(num("1")), Some(call("screenshot", None))));
    assert_tool_error(&resp, "Missing arguments");
}

#[test]
fn unknown_tool_is_a_tool_error() {
    let resp = reply(server().handle_call_tool(Some(num("1")), Some(call("record", None))));
    assert_tool_error(&resp, "Unknown tool: record");
}

#[test]
fn screenshot_call_goes_to_the_application() {
    let d = server().handle_call_tool(
        Some(text("abc")),
        Some(call("screenshot", Some(obj(vec![("output_dir", text("/tmp/o"))])))),
    );
    match d {
        McpDispatch::CallScreenshot(id, dir) => {
            assert_eq!(id, Some(text("abc")));
            assert_eq!(dir, "/tmp/o");
        }
        McpDispatch::Reply(_) => panic!("expected a call"),
    }
}

#[test]
fn call_without_params_is_invalid_params() {
    let resp = reply(server().handle_call_tool(Some(num("2")), None));
    assert!(resp.result.is_none());
    let e = resp.error.unwrap();
    assert_eq!(e.code, INVALID_PARAMS);
    assert_eq!(e.code, -32602);
    assert_eq!(e.message, "Missing params");
}

#[test]
fn call_without_name_is_invalid_params() {
    let resp = reply(server().handle_call_tool(Some(num("2")), Some(obj(vec![]))));
    let e = resp.error.unwrap();
    assert_eq!(e.code, -32602);
    assert!(e.message.starts_with("Invalid params: "));
}

#[test]
fn unknown_method_is_method_not_found() {
    let req = JsonRpcRequest { id: Some(num("9")), method: "resources/list".to_string(), params: None };
    let resp = reply(server().handle_request(req));
    assert_eq!(resp.id, Some(num("9")));
    let e = resp.error.unwrap();
    assert_eq!(e.code, METHOD_NOT_FOUND);
    assert_eq!(e.code, -32601);
    assert_eq!(e.message, "Method not found: resources/list");
}

#[test]
fn bad_line_is_a_parse_error_without_id() {
    let resp = reply(server().handle_line(Err("EOF while parsing".to_string())));
    assert_eq!(resp.id, None);
    let e = resp.error.unwrap();
    assert_eq!(e.code, PARSE_ERROR);
    assert_eq!(e.code, -32700);
    assert_eq!(e.message, "Parse error: EOF while parsing");
    let j = reply(server().handle_line(Err("x".to_string()))).to_json();
    assert_eq!(get(&j, "id"), &Json::Null);
    assert_eq!(get(get(&j, "error"), "code"), &num("-32700"));
}

#[test]
fn request_without_method_is_a_parse_error() {
    let resp = reply(server().handle_line(Ok(obj(vec![("id", num("1"))]))));
    assert_eq!(resp.error.unwrap().code, -32700);
}

#[test]
fn ping_and_initialized_answer_empty_results() {
    for m in ["ping", "initialized"] {
        let req = JsonRpcRequest { id: Some(num("4")), method: m.to_string(), params: None };
        let resp = reply(server().handle_request(req));
        assert_eq!(resp.id, Some(num("4")));
        assert!(resp.error.is_none());
        assert_eq!(resp.result, Some(obj(vec![])));
    }
}

#[test]
fn initialize_describes_the_server() {
    let resp = server().handle_initialize(Some(num("0")));
    let r = resp.result.unwrap();
    assert_eq!(get(&r, "protocolVersion"), &text("2024-11-05"));
    assert_eq!(get(get(get(&r, "capabilities"), "tools"), "listChanged"), &Json::Bool(false));
    assert_eq!(get(get(&r, "serverInfo"), "name"), &text("ghview-mcp"));
    match get(&r, "instructions") {
        Json::Str(s) => assert!(s.contains("screenshot")),
        _ => panic!("instructions missing"),
    }
}

#[test]
fn tools_list_has_the_screenshot_tool() {
    let resp = server().handle_list_tools(Some(num("5")));
    let r = resp.result.unwrap();
    match get(&r, "tools") {
        Json::Array(tools) => {
            assert_eq!(tools.len(), 1);
            assert_eq!(get(&tools[0], "name"), &text("screenshot"));
            let schema = get(&tools[0], "inputSchema");
            assert_eq!(get(schema, "type"), &text("object"));
            assert_eq!(get(get(get(schema, "properties"), "output_dir"), "type"), &text("string"));
            assert_eq!(get(schema, "required"), &Json::Array(vec![text("output_dir")]));
        }
        _ => panic!("tools is not an array"),
    }
}

#[test]
fn finished_screenshot_is_wrapped_as_tool_result() {
    let s = server();
    let ok = s.finish_screenshot(Some(num("7")), Ok("{\n  \"path\": \"/tmp/a.png\"\n}".to_string()));
    let r = ok.result.unwrap();
    assert_eq!(get(&r, "isError"), &Json::Bool(false));
    let failed = s.finish_screenshot(Some(num("7")), Err("No response from ghview".to_string()));
    assert_tool_error(&failed, "Screenshot failed: No response from ghview");
}

#[test]
fn blank_lines_are_skipped_and_others_trimmed() {
    assert!(matches!(McpServer::on_input(None), InputAction::Stop));
    assert!(matches!(McpServer::on_input(Some("   \t\r\n")), InputAction::Skip));
    assert!(matches!(McpServer::on_input(Some("")), InputAction::Skip));
    match McpServer::on_input(Some("  {\"method\":\"ping\"}\n")) {
        InputAction::Answer(t) => assert_eq!(t, "{\"method\":\"ping\"}"),
        _ => panic!("expected a line to answer"),
    }
}

#[test]
fn method_names() {
    assert_eq!(parse_mcp_method("tools/call"), McpMethod::ToolsCall);
    assert_eq!(parse_mcp_method("tools/list"), McpMethod::ToolsList);
    assert_eq!(parse_mcp_method("initialize"), McpMethod::Initialize);
    assert_eq!(parse_mcp_method("initialized"), McpMethod::Initialized);
    assert_eq!(parse_mcp_method("ping"), McpMethod::Ping);
    assert_eq!(parse_mcp_method("tools"), McpMethod::Unknown);
}

#[test]
fn rpc_response_round_trips_in_every_combination() {
    let cases = vec![
        JsonRpcResponse { id: Some(num("1")), result: Some(obj(vec![])), error: None },
        JsonRpcResponse::error(None, -32700, "Parse error: x"),
        JsonRpcResponse {
            id: Some(text("a")),
            result: Some(text("r")),
            error: Some(JsonRpcError { code: i64::MIN, message: "m".to_string() }),
        },
        JsonRpcResponse { id: None, result: None, error: None },
    ];
    for sent in cases {
        let expected = format!("{:?}", sent);
        let back = JsonRpcResponse::from_json(sent.to_json()).unwrap();
        assert_eq!(format!("{:?}", back), expected);
    }
}

#[test]
fn rpc_response_encoding() {
    let j = JsonRpcResponse::error(Some(num("12")), -32601, "Method not found: x").to_json();
    assert_eq!(get(&j, "jsonrpc"), &text("2.0"));
    assert_eq!(get(&j, "id"), &num("12"));
    assert_eq!(get(get(&j, "error"), "code"), &num("-32601"));
    assert_eq!(get(get(&j, "error"), "message"), &text("Method not found: x"));
}

#[test]
fn tool_result_encoding() {
    let j = CallToolResult::success("done").to_json();
    assert_eq!(get(&j, "isError"), &Json::Bool(false));
}

#[test]
fn request_reading_treats_null_as_absent() {
    let r = JsonRpcRequest::from_json(obj(vec![
        ("id", Json::Null),
        ("method", text("ping")),
        ("params", Json::Null),
    ]))
    .unwrap();
    assert_eq!(r.id, None);
    assert_eq!(r.params, None);
    assert!(JsonRpcRequest::from_json(obj(vec![("method", num("1"))])).is_err());
}
