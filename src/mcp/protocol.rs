//! The messages of the tool protocol: JSON-RPC 2.0 requests and responses,
//! one per line, and the payloads of its methods.
use vstd::prelude::*;
use crate::json::{Json, field, take_field, push_entry, lemma_lookup_at, pair};
use crate::ipc::protocol::optional_value;
use crate::text::{int_to_text, int_text, int_value_of, parse_int, lemma_int_text_value};

verus! {

/// The protocol version that the server speaks.
pub const PROTOCOL_VERSION: &'static str = "2024-11-05";

/// The name that the server gives of itself.
pub const SERVER_NAME: &'static str = "ghview-mcp";

/// The version that the server gives of itself.
pub const SERVER_VERSION: &'static str = "0.1.0";

/// The code of a line that is not a request.
pub const PARSE_ERROR: i64 = -32700;

/// The code of a method that the server does not have.
pub const METHOD_NOT_FOUND: i64 = -32601;

/// The code of a method called with parameters it cannot use.
pub const INVALID_PARAMS: i64 = -32602;

/// A request of the tool protocol. A request without `id` is a notification.
#[derive(Debug)]
pub struct JsonRpcRequest {
    pub id: Option<Json>,
    pub method: String,
    pub params: Option<Json>,
}

/// The error of a response.
#[derive(Debug)]
pub struct JsonRpcError {
    pub code: i64,
    pub message: String,
}

/// A response of the tool protocol: a result or an error, for the request
/// with the same `id`.
#[derive(Debug)]
pub struct JsonRpcResponse {
    pub id: Option<Json>,
    pub result: Option<Json>,
    pub error: Option<JsonRpcError>,
}

/// The parameters of `tools/call`.
#[derive(Debug)]
pub struct CallToolParams {
    pub name: String,
    pub arguments: Option<Json>,
}

/// What a tool call produced: one text, which is an error message where
/// the tool failed.
#[derive(Debug)]
pub struct CallToolResult {
    pub text: String,
    pub is_error: bool,
}

/// The request that `j` encodes, if it has the shape of one: an object
/// with a string `method` and, optionally, `id` and `params`.
pub open spec fn rpc_request_of(j: Json) -> Option<JsonRpcRequest> {
    match field(j, "method"@) {
        Some(Json::Str(m)) => Some(
            JsonRpcRequest {
                id: optional_value(field(j, "id"@)),
                method: m,
                params: optional_value(field(j, "params"@)),
            },
        ),
        _ => None,
    }
}

/// `j` is the JSON object of the error `e`.
pub open spec fn encodes_error(j: Json, e: JsonRpcError) -> bool {
    &&& field(j, "code"@) matches Some(Json::Number(n)) && n@ == int_text(e.code as int)
    &&& field(j, "message"@) == Some(Json::Str(e.message))
}

/// `j` is the encoding of `resp`: the `jsonrpc` version, the `id` (`null`
/// where there is none), and a `result` or an `error` where there is one.
pub open spec fn encodes_rpc_response(j: Json, resp: JsonRpcResponse) -> bool {
    &&& j is Object
    &&& field(j, "jsonrpc"@) matches Some(Json::Str(v)) && v@ == "2.0"@
    &&& field(j, "id"@) == Some(
        match resp.id {
            Some(i) => i,
            None => Json::Null,
        },
    )
    &&& field(j, "result"@) == resp.result
    &&& match resp.error {
        Some(e) => field(j, "error"@) matches Some(ej) && encodes_error(ej, e),
        None => field(j, "error"@) is None,
    }
}

/// The arguments `j` holds, if it has the shape of `tools/call`
/// parameters: a string `name` and, optionally, `arguments`.
pub open spec fn call_params_of(j: Json) -> Option<CallToolParams> {
    match field(j, "name"@) {
        Some(Json::Str(n)) => Some(
            CallToolParams { name: n, arguments: optional_value(field(j, "arguments"@)) },
        ),
        _ => None,
    }
}

/// `j` is the JSON of a tool result: one text item holding `text`, and
/// `isError`.
pub open spec fn encodes_tool_result(j: Json, text: Seq<char>, is_error: bool) -> bool {
    &&& field(j, "content"@) matches Some(Json::Array(items))
    &&& items@.len() == 1
    &&& field(items@[0], "type"@) matches Some(Json::Str(t)) && t@ == "text"@
    &&& field(items@[0], "text"@) matches Some(Json::Str(x)) && x@ == text
    &&& field(j, "isError"@) == Some(Json::Bool(is_error))
}

/// The error that `j` encodes, if it has the shape of one: an integer
/// `code` and a string `message`.
pub open spec fn error_of(j: Json) -> Option<JsonRpcError> {
    match (field(j, "code"@), field(j, "message"@)) {
        (Some(Json::Number(t)), Some(Json::Str(m))) => match int_value_of(t@) {
            Some(c) => Some(JsonRpcError { code: c, message: m }),
            None => None,
        },
        _ => None,
    }
}

/// The response that `j` encodes, if it has the shape of one. A present
/// result is kept, `null` included; `null` for `id` or `error` counts as
/// absent.
pub open spec fn rpc_response_of(j: Json) -> Option<JsonRpcResponse> {
    if j is Object {
        let id = optional_value(field(j, "id"@));
        let result = field(j, "result"@);
        match optional_value(field(j, "error"@)) {
            None => Some(JsonRpcResponse { id, result, error: None }),
            Some(ej) => match error_of(ej) {
                Some(e) => Some(JsonRpcResponse { id, result, error: Some(e) }),
                None => None,
            },
        }
    } else {
        None
    }
}

/// Encoding a response and reading the object back gives the same
/// response, for each combination of present and absent result and error,
/// whatever value the result is. An `id` that is `null` is the one
/// exception: a response without `id` is written with a `null` one, so the
/// two read back alike.
pub proof fn law_rpc_response_round_trip(j: Json, resp: JsonRpcResponse)
    requires
        encodes_rpc_response(j, resp),
        resp.id != Some(Json::Null),
    ensures
        rpc_response_of(j) == Some(resp),
{
    if let Some(e) = resp.error {
        let ej = field(j, "error"@)->Some_0;
        lemma_int_text_value(e.code);
        assert(error_of(ej) == Some(e));
    }
}

impl JsonRpcResponse {
    /// The response with `result` to the request `id`.
    pub fn success(id: Option<Json>, result: Json) -> (r: JsonRpcResponse)
        ensures
            r.id == id,
            r.result == Some(result),
            r.error is None,
    {
        JsonRpcResponse { id, result: Some(result), error: None }
    }

    /// The response with the error `code` and `message` to the request `id`.
    pub fn error(id: Option<Json>, code: i64, message: &str) -> (r: JsonRpcResponse)
        ensures
            r.id == id,
            r.result is None,
            r.error matches Some(e) && e.code == code && e.message@ == message@,
    {
        JsonRpcResponse {
            id,
            result: None,
            error: Some(JsonRpcError { code, message: message.to_string() }),
        }
    }

    /// The JSON object of this response.
    pub fn to_json(self) -> (r: Json)
        ensures
            encodes_rpc_response(r, self),
    {
        proof {
            reveal_strlit("jsonrpc");
            reveal_strlit("id");
            reveal_strlit("result");
            reveal_strlit("error");
            reveal_strlit("2.0");
        }
        let ghost me = self;
        let mut e: Vec<(String, Json)> = Vec::new();
        push_entry(&mut e, "jsonrpc", Json::Str("2.0".to_string()));
        let id = match self.id {
            Some(i) => i,
            None => Json::Null,
        };
        push_entry(&mut e, "id", id);
        let ghost e2 = e@;
        assert(e2[0].0@ == "jsonrpc"@ && e2[1].0@ == "id"@);
        let has_result = self.result.is_some();
        if let Some(v) = self.result {
            push_entry(&mut e, "result", v);
        }
        let ghost e3 = e@;
        if let Some(err) = self.error {
            push_entry(&mut e, "error", error_to_json(err));
        }
        proof {
            let s = e@;
            assert(e3.len() == 2 || e3.len() == 3);
            assert(forall|i: int| 0 <= i < e3.len() ==> s[i] == e3[i]);
            assert(forall|i: int| 0 <= i < 2 ==> e3[i] == e2[i]);
            lemma_lookup_at(s, 0, "jsonrpc"@);
            assert("jsonrpc"@[0] != "id"@[0]);
            lemma_lookup_at(s, 1, "id"@);
            assert("jsonrpc"@[0] != "result"@[0] && "id"@[0] != "result"@[0]);
            assert("jsonrpc"@[0] != "error"@[0] && "id"@[0] != "error"@[0]
                && "result"@[0] != "error"@[0]);
            if has_result {
                lemma_lookup_at(s, 2, "result"@);
            } else {
                lemma_absent(s, "result"@);
            }
            if me.error is Some {
                lemma_lookup_at(s, s.len() - 1, "error"@);
            } else {
                lemma_absent(s, "error"@);
            }
        }
        Json::Object(e)
    }

    /// Reads a response from its JSON object.
    pub fn from_json(j: Json) -> (r: Result<JsonRpcResponse, String>)
        ensures
            r is Ok <==> rpc_response_of(j) is Some,
            r matches Ok(resp) ==> rpc_response_of(j) == Some(resp),
    {
        match j {
            Json::Object(mut e) => {
                let ghost e0 = e@;
                let id = take_field(&mut e, "id");
                let ghost e1 = e@;
                let result = take_field(&mut e, "result");
                let error = take_field(&mut e, "error");
                proof {
                    reveal_strlit("id");
                    reveal_strlit("result");
                    reveal_strlit("error");
                    assert("id"@[0] != "result"@[0] && "id"@[0] != "error"@[0] && "result"@[0]
                        != "error"@[0]);
                    crate::ipc::protocol::lemma_lookup_after_take(e0, "id"@, "result"@);
                    crate::ipc::protocol::lemma_lookup_after_take(e0, "id"@, "error"@);
                    crate::ipc::protocol::lemma_lookup_after_take(e1, "result"@, "error"@);
                }
                let id = match id {
                    Some(Json::Null) => None,
                    other => other,
                };
                match error {
                    None => Ok(JsonRpcResponse { id, result, error: None }),
                    Some(Json::Null) => Ok(JsonRpcResponse { id, result, error: None }),
                    Some(ej) => match error_from_json(ej) {
                        Some(err) => Ok(JsonRpcResponse { id, result, error: Some(err) }),
                        None => Err("invalid field `error`".to_string()),
                    },
                }
            },
            _ => Err("expected an object".to_string()),
        }
    }
}

/// Reads an error from its JSON object.
fn error_from_json(j: Json) -> (r: Option<JsonRpcError>)
    ensures
        r == error_of(j),
{
    match j {
        Json::Object(mut e) => {
            let ghost e0 = e@;
            let code = take_field(&mut e, "code");
            let message = take_field(&mut e, "message");
            proof {
                reveal_strlit("code");
                reveal_strlit("message");
                assert("code"@[0] != "message"@[0]);
                crate::ipc::protocol::lemma_lookup_after_take(e0, "code"@, "message"@);
            }
            match (code, message) {
                (Some(Json::Number(t)), Some(Json::Str(m))) => match parse_int(t.as_str()) {
                    Some(c) => Some(JsonRpcError { code: c, message: m }),
                    None => None,
                },
                _ => None,
            }
        },
        _ => None,
    }
}

/// A key that no entry has looks up nothing.
proof fn lemma_absent(e: Seq<(String, Json)>, key: Seq<char>)
    requires
        forall|j: int| 0 <= j < e.len() ==> #[trigger] e[j].0@ != key,
    ensures
        crate::json::lookup(e, key) is None,
    decreases e.len(),
{
    if e.len() > 0 {
        assert forall|j: int| 0 <= j < e.len() - 1 implies #[trigger] e.drop_first()[j].0@
            != key by {
            assert(e.drop_first()[j] == e[j + 1]);
        }
        lemma_absent(e.drop_first(), key);
    }
}

/// The JSON object of an error: `code`, then `message`.
fn error_to_json(e: JsonRpcError) -> (r: Json)
    ensures
        encodes_error(r, e),
{
    proof {
        reveal_strlit("code");
        reveal_strlit("message");
        assert("code"@[0] != "message"@[0]);
    }
    let r = pair("code", Json::Number(int_to_text(e.code)), "message", Json::Str(e.message));
    proof {
        let s = r->Object_0@;
        lemma_lookup_at(s, 0, "code"@);
        lemma_lookup_at(s, 1, "message"@);
    }
    r
}

impl JsonRpcRequest {
    /// Reads a request from its JSON object; `null` for `id` or `params`
    /// counts as absent.
    pub fn from_json(j: Json) -> (r: Result<JsonRpcRequest, String>)
        ensures
            r is Ok <==> rpc_request_of(j) is Some,
            r matches Ok(req) ==> rpc_request_of(j) == Some(req),
    {
        match j {
            Json::Object(mut e) => {
                let ghost e0 = e@;
                let method = take_field(&mut e, "method");
                let ghost e1 = e@;
                let id = take_field(&mut e, "id");
                let params = take_field(&mut e, "params");
                proof {
                    reveal_strlit("method");
                    reveal_strlit("id");
                    reveal_strlit("params");
                    assert("method"@[0] != "id"@[0] && "method"@[0] != "params"@[0]
                        && "id"@[0] != "params"@[0]);
                    crate::ipc::protocol::lemma_lookup_after_take(e0, "method"@, "id"@);
                    crate::ipc::protocol::lemma_lookup_after_take(e0, "method"@, "params"@);
                    crate::ipc::protocol::lemma_lookup_after_take(e1, "id"@, "params"@);
                }
                let id = match id {
                    Some(Json::Null) => None,
                    other => other,
                };
                let params = match params {
                    Some(Json::Null) => None,
                    other => other,
                };
                match method {
                    Some(Json::Str(m)) => Ok(JsonRpcRequest { id, method: m, params }),
                    _ => Err("missing or invalid field `method`".to_string()),
                }
            },
            _ => Err("expected an object".to_string()),
        }
    }
}

impl CallToolParams {
    /// Reads the parameters of `tools/call`; `null` arguments count as
    /// absent.
    pub fn from_json(j: Json) -> (r: Result<CallToolParams, String>)
        ensures
            r is Ok <==> call_params_of(j) is Some,
            r matches Ok(p) ==> call_params_of(j) == Some(p),
    {
        match j {
            Json::Object(mut e) => {
                let ghost e0 = e@;
                let name = take_field(&mut e, "name");
                let arguments = take_field(&mut e, "arguments");
                proof {
                    reveal_strlit("name");
                    reveal_strlit("arguments");
                    assert("name"@[0] != "arguments"@[0]);
                    crate::ipc::protocol::lemma_lookup_after_take(e0, "name"@, "arguments"@);
                }
                let arguments = match arguments {
                    Some(Json::Null) => None,
                    other => other,
                };
                match name {
                    Some(Json::Str(n)) => Ok(CallToolParams { name: n, arguments }),
                    _ => Err("missing or invalid field `name`".to_string()),
                }
            },
            _ => Err("expected an object".to_string()),
        }
    }
}

impl CallToolResult {
    /// The result of a tool that succeeded with `text`.
    pub fn success(text: &str) -> (r: CallToolResult)
        ensures
            r.text@ == text@,
            !r.is_error,
    {
        CallToolResult { text: text.to_string(), is_error: false }
    }

    /// The result of a tool that failed with `message`.
    pub fn error(message: &str) -> (r: CallToolResult)
        ensures
            r.text@ == message@,
            r.is_error,
    {
        CallToolResult { text: message.to_string(), is_error: true }
    }

    /// The JSON of this result.
    pub fn to_json(self) -> (r: Json)
        ensures
            encodes_tool_result(r, self.text@, self.is_error),
    {
        proof {
            reveal_strlit("type");
            reveal_strlit("text");
            reveal_strlit("content");
            reveal_strlit("isError");
            assert("type"@[1] != "text"@[1]);
            assert("content"@[0] != "isError"@[0]);
        }
        let item = pair("type", Json::Str("text".to_string()), "text", Json::Str(self.text));
        proof {
            let s = item->Object_0@;
            lemma_lookup_at(s, 0, "type"@);
            assert(s[0].0@ != "text"@);
            lemma_lookup_at(s, 1, "text"@);
        }
        let mut items: Vec<Json> = Vec::new();
        items.push(item);
        let r = pair("content", Json::Array(items), "isError", Json::Bool(self.is_error));
        proof {
            let s = r->Object_0@;
            lemma_lookup_at(s, 0, "content"@);
            lemma_lookup_at(s, 1, "isError"@);
        }
        r
    }
}

} // verus!
