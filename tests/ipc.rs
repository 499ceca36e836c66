use ghview::ipc::client::{IpcClient, NO_RESPONSE};
use ghview::ipc::protocol::{IpcRequest, IpcResponse, ScreenshotParams, ScreenshotResult};
use ghview::ipc::server::{
    get_socket_path, handle_line, handle_request, parse_method, screenshot_response, Connection,
    ConnectionAction, ConnectionState, Dispatch, IpcMethod,
};
use ghview::json::Json;

fn text(s: &str) -> Json {
    Json::Str(s.to_string())
}

fn obj(entries: Vec<(&str, Json)>) -> Json {
    Json::Object(entries.into_iter().map(|(k, v)| (k.to_string(), v)).collect())
}

fn request(method: &str, params: Json) -> Json {
    obj(vec![("method", text(method)), ("params", params)])
}

#[test]
fn test_socket_path() {
    let path = get_socket_path();
    assert!(!path.is_empty());
}

#[test]
fn test_ipc_request_serialization() {
    let request = IpcRequest {
        method: "screenshot".to_string(),
        params: obj(vec![("output_dir", text("/tmp"))]),
    };
    let json = request.to_json();
    let parsed = IpcRequest::from_json(json).unwrap();
    assert_eq!(parsed.method, "screenshot");
}

#[test]
fn test_ipc_response_success() {
    let response = IpcResponse::success(obj(vec![("path", text("/tmp/screenshot.png"))]));
    assert!(response.result.is_some());
    assert!(response.error.is_none());
}

#[test]
fn test_ipc_response_error() {
    let response = IpcResponse::error("Failed to capture screenshot");
    assert!(response.result.is_none());
    assert_eq!(
        response.error,
        Some("Failed to capture screenshot".to_string())
    );
}

#[test]
fn test_screenshot_params_deserialization() {
    let json = obj(vec![("output_dir", text("/tmp/screenshots"))]);
    let params = ScreenshotParams::from_json(json).unwrap();
    assert_eq!(params.output_dir, "/tmp/screenshots");
}

#[test]
fn socket_path_is_the_well_known_one() {
    assert_eq!(get_socket_path(), "/tmp/ghview.sock");
}

#[test]
fn ping_is_answered_with_pong() {
    let mut conn = Connection::new();
    let action = conn.on_line(Some(Ok(request("ping", obj(vec![])))));
    assert_eq!(conn.state, ConnectionState::AwaitingFlush);
    match action {
        ConnectionAction::Write(resp) => {
            assert_eq!(
                resp.to_json(),
                obj(vec![("result", obj(vec![("pong", Json::Bool(true))]))])
            );
        }
        _ => panic!("expected a response"),
    }
    conn.on_flushed();
    assert_eq!(conn.state, ConnectionState::Closed);
}

#[test]
fn unknown_method_gets_error_and_no_result() {
    for method in ["shutdown", "", "PING", "screenshots"] {
        match handle_request(IpcRequest { method: method.to_string(), params: Json::Null }) {
            Dispatch::Reply(resp) => {
                assert!(resp.result.is_none());
                assert_eq!(resp.error, Some(format!("Unknown method: {}", method)));
            }
            Dispatch::Capture(_) => panic!("unknown method led to a capture"),
        }
    }
}

#[test]
fn method_names_are_read_exactly() {
    assert_eq!(parse_method("ping"), IpcMethod::Ping);
    assert_eq!(parse_method("screenshot"), IpcMethod::Screenshot);
    assert_eq!(parse_method("Ping"), IpcMethod::Unknown);
}

#[test]
fn screenshot_request_leads_to_capture() {
    let d = handle_line(Ok(request("screenshot", obj(vec![("output_dir", text("/tmp/shots"))]))));
    match d {
        Dispatch::Capture(dir) => assert_eq!(dir, "/tmp/shots"),
        Dispatch::Reply(_) => panic!("expected a capture"),
    }
}

#[test]
fn screenshot_without_output_dir_is_an_error() {
    match handle_line(Ok(request("screenshot", obj(vec![])))) {
        Dispatch::Reply(resp) => {
            assert!(resp.result.is_none());
            assert!(resp.error.unwrap().starts_with("Invalid screenshot params: "));
        }
        Dispatch::Capture(_) => panic!("expected an error"),
    }
}

#[test]
fn line_that_is_not_json_is_an_invalid_request() {
    match handle_line(Err("expected value at line 1 column 1".to_string())) {
        Dispatch::Reply(resp) => assert_eq!(
            resp.error,
            Some("Invalid request: expected value at line 1 column 1".to_string())
        ),
        Dispatch::Capture(_) => panic!("expected an error"),
    }
}

#[test]
fn request_without_params_is_invalid() {
    match handle_line(Ok(obj(vec![("method", text("ping"))]))) {
        Dispatch::Reply(resp) => {
            assert!(resp.result.is_none());
            assert!(resp.error.is_some());
        }
        Dispatch::Capture(_) => panic!("expected an error"),
    }
}

#[test]
fn closed_peer_gets_no_response() {
    let mut conn = Connection::new();
    assert!(matches!(conn.on_line(None), ConnectionAction::Close));
    assert_eq!(conn.state, ConnectionState::Closed);
}

#[test]
fn capture_outcome_is_written_back() {
    let mut conn = Connection::new();
    let action = conn.on_line(Some(Ok(request(
        "screenshot",
        obj(vec![("output_dir", text("/tmp/x"))]),
    ))));
    assert!(matches!(action, ConnectionAction::Capture(ref d) if d == "/tmp/x"));
    assert_eq!(conn.state, ConnectionState::Dispatching);
    match conn.on_capture(Ok("/tmp/x/ghview-screenshot-5.png".to_string())) {
        ConnectionAction::Write(resp) => assert_eq!(
            resp.to_json(),
            obj(vec![("result", obj(vec![("path", text("/tmp/x/ghview-screenshot-5.png"))]))])
        ),
        _ => panic!("expected a response"),
    }
    assert_eq!(conn.state, ConnectionState::AwaitingFlush);
}

#[test]
fn events_out_of_order_close_the_connection() {
    let mut conn = Connection::new();
    assert!(matches!(conn.on_capture(Ok("p".to_string())), ConnectionAction::Close));
    assert_eq!(conn.state, ConnectionState::Closed);
    assert!(matches!(conn.on_line(Some(Ok(Json::Null))), ConnectionAction::Close));
}

#[test]
fn failed_capture_is_reported() {
    let resp = screenshot_response(Err("ghview window not found (is ghview running?)".to_string()));
    assert!(resp.result.is_none());
    assert_eq!(
        resp.error,
        Some("Screenshot failed: ghview window not found (is ghview running?)".to_string())
    );
}

#[test]
fn response_round_trips_in_every_combination() {
    let cases = vec![
        (Some(obj(vec![("pong", Json::Bool(true))])), None),
        (None, Some("boom".to_string())),
        (Some(text("r")), Some("e".to_string())),
        (None, None),
    ];
    for (result, error) in cases {
        let sent = IpcResponse { result, error };
        let expected = format!("{:?}", sent);
        let back = IpcResponse::from_json(sent.to_json()).unwrap();
        assert_eq!(format!("{:?}", back), expected);
    }
}

#[test]
fn null_result_survives_the_round_trip() {
    let back = IpcResponse::from_json(IpcResponse::success(Json::Null).to_json()).unwrap();
    assert_eq!(back.result, Some(Json::Null));
    assert!(back.error.is_none());
}

#[test]
fn response_with_non_string_error_is_refused() {
    assert!(IpcResponse::from_json(obj(vec![("error", Json::Bool(false))])).is_err());
    assert!(IpcResponse::from_json(text("x")).is_err());
}

#[test]
fn request_round_trips() {
    let sent = IpcRequest { method: "ping".to_string(), params: obj(vec![]) };
    let back = IpcRequest::from_json(sent.to_json()).unwrap();
    assert_eq!(back.method, "ping");
    assert_eq!(back.params, obj(vec![]));
}

#[test]
fn screenshot_result_encodes_path() {
    let j = ScreenshotResult { path: "/a/b.png".to_string() }.to_json();
    assert_eq!(j, obj(vec![("path", text("/a/b.png"))]));
}

#[test]
fn client_refuses_missing_endpoint() {
    match IpcClient::connect("/tmp/ghview.sock", false) {
        Err(m) => assert_eq!(
            m,
            "ghview is not running. Please start ghview first. (Socket not found: /tmp/ghview.sock)"
        ),
        Ok(_) => panic!("expected an error"),
    }
    let c = IpcClient::connect("/tmp/ghview.sock", true).unwrap();
    assert_eq!(c.socket_path, "/tmp/ghview.sock");
}

#[test]
fn client_builds_screenshot_request() {
    let c = IpcClient::connect("/tmp/s.sock", true).unwrap();
    let r = c.screenshot_request("/tmp/out");
    assert_eq!(r.method, "screenshot");
    assert_eq!(r.params, obj(vec![("output_dir", text("/tmp/out"))]));
}

#[test]
fn client_reads_replies() {
    assert_eq!(IpcClient::read_reply(None).unwrap_err(), NO_RESPONSE);
    assert_eq!(IpcClient::read_reply(Some(Err("bad".to_string()))).unwrap_err(), "bad");
    assert_eq!(
        IpcClient::read_reply(Some(Ok(obj(vec![("error", text("Screenshot failed: x"))]))))
            .unwrap_err(),
        "Screenshot failed: x"
    );
    assert_eq!(
        IpcClient::read_reply(Some(Ok(obj(vec![("result", obj(vec![("pong", Json::Bool(true))]))]))))
            .unwrap(),
        Some(obj(vec![("pong", Json::Bool(true))]))
    );
    assert_eq!(IpcClient::read_reply(Some(Ok(obj(vec![])))).unwrap(), None);
}
