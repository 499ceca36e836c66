//! What the tool server decides for each request: its fixed method set, its
//! one tool, and how tool failures differ from protocol failures.
use vstd::prelude::*;
use crate::json::{Json, field, object3, object4, single, text, empty_object,
    lemma_single_field};
use crate::ipc::client::IpcClient;
use crate::mcp::protocol::{JsonRpcRequest, JsonRpcResponse, CallToolParams, CallToolResult,
    rpc_request_of, call_params_of, encodes_tool_result, PROTOCOL_VERSION, SERVER_NAME,
    SERVER_VERSION, PARSE_ERROR, METHOD_NOT_FOUND, INVALID_PARAMS};
use crate::text::{join, same_text, trim_of, trimmed, begins_with};

verus! {

/// The short usage hint that `initialize` gives.
pub const INSTRUCTIONS: &'static str = "MCP server for ghview - a GitHub PR viewer application. Use the 'screenshot' tool to capture the ghview window.";

/// The name of the one tool.
pub const TOOL_NAME: &'static str = "screenshot";

/// What the tool does.
pub const TOOL_DESCRIPTION: &'static str = "Capture a screenshot of the ghview window and save it to the specified directory";

/// What the tool's one argument is.
pub const OUTPUT_DIR_DESCRIPTION: &'static str = "Directory to save the screenshot file";

/// The message of a tool call without arguments.
pub const MISSING_ARGUMENTS: &'static str = "Missing arguments";

/// The message of a tool call without a string `output_dir`.
pub const MISSING_OUTPUT_DIR: &'static str = "Missing required argument: output_dir";

/// The methods of the tool protocol.
#[derive(Debug, PartialEq, Eq, Structural)]
pub enum McpMethod {
    Initialize,
    Initialized,
    ToolsList,
    ToolsCall,
    Ping,
    Unknown,
}

/// The method that the name `m` stands for.
pub open spec fn mcp_method_of(m: Seq<char>) -> McpMethod {
    if m == "initialize"@ {
        McpMethod::Initialize
    } else if m == "initialized"@ {
        McpMethod::Initialized
    } else if m == "tools/list"@ {
        McpMethod::ToolsList
    } else if m == "tools/call"@ {
        McpMethod::ToolsCall
    } else if m == "ping"@ {
        McpMethod::Ping
    } else {
        McpMethod::Unknown
    }
}

/// Reads a method name.
pub fn parse_mcp_method(m: &str) -> (r: McpMethod)
    ensures
        r == mcp_method_of(m@),
{
    if same_text(m, "initialize") {
        McpMethod::Initialize
    } else if same_text(m, "initialized") {
        McpMethod::Initialized
    } else if same_text(m, "tools/list") {
        McpMethod::ToolsList
    } else if same_text(m, "tools/call") {
        McpMethod::ToolsCall
    } else if same_text(m, "ping") {
        McpMethod::Ping
    } else {
        McpMethod::Unknown
    }
}

/// What the server does with a request: answer at once, or ask the
/// application for a screenshot in a directory and answer the request `id`
/// with the outcome.
pub enum McpDispatch {
    Reply(JsonRpcResponse),
    CallScreenshot(Option<Json>, String),
}

/// `j` is a JSON string holding `s`.
pub open spec fn is_text(j: Option<Json>, s: Seq<char>) -> bool {
    j matches Some(Json::Str(t)) && t@ == s
}

/// `j` is the result of `initialize`: the protocol version, tools listed
/// without change notifications, the server's name and version, and the
/// usage hint.
pub open spec fn is_initialize_result(j: Json) -> bool {
    &&& is_text(field(j, "protocolVersion"@), PROTOCOL_VERSION@)
    &&& field(j, "capabilities"@) matches Some(c)
    &&& field(c, "tools"@) matches Some(t)
    &&& field(t, "listChanged"@) == Some(Json::Bool(false))
    &&& field(j, "serverInfo"@) matches Some(info)
    &&& is_text(field(info, "name"@), SERVER_NAME@)
    &&& is_text(field(info, "version"@), SERVER_VERSION@)
    &&& is_text(field(j, "instructions"@), INSTRUCTIONS@)
}

/// `j` is the descriptor of the screenshot tool: its name, description, and
/// an input schema with one required string argument, `output_dir`.
pub open spec fn is_screenshot_tool(j: Json) -> bool {
    &&& is_text(field(j, "name"@), TOOL_NAME@)
    &&& is_text(field(j, "description"@), TOOL_DESCRIPTION@)
    &&& field(j, "inputSchema"@) matches Some(schema)
    &&& is_text(field(schema, "type"@), "object"@)
    &&& field(schema, "properties"@) matches Some(props)
    &&& field(props, "output_dir"@) matches Some(arg)
    &&& is_text(field(arg, "type"@), "string"@)
    &&& is_text(field(arg, "description"@), OUTPUT_DIR_DESCRIPTION@)
    &&& field(schema, "required"@) matches Some(Json::Array(req))
    &&& req@.len() == 1
    &&& is_text(Some(req@[0]), "output_dir"@)
}

/// `j` is the result of `tools/list`: the screenshot tool alone.
pub open spec fn is_tool_list(j: Json) -> bool {
    &&& field(j, "tools"@) matches Some(Json::Array(tools))
    &&& tools@.len() == 1
    &&& is_screenshot_tool(tools@[0])
}

/// `j` is the object without entries.
pub open spec fn is_empty_object(j: Json) -> bool {
    j matches Json::Object(e) && e@.len() == 0
}

/// `resp` answers `id` with a result and no error.
pub open spec fn is_success(resp: JsonRpcResponse, id: Option<Json>) -> bool {
    resp.id == id && resp.error is None && resp.result is Some
}

/// `resp` answers `id` with a protocol error of `code`.
pub open spec fn is_rpc_error(resp: JsonRpcResponse, id: Option<Json>, code: i64) -> bool {
    &&& resp.id == id
    &&& resp.result is None
    &&& resp.error matches Some(e) && e.code == code
}

/// `d` answers `id` with a successful response whose payload is a tool
/// result marked as an error with `message`.
pub open spec fn is_tool_error(d: McpDispatch, id: Option<Json>, message: Seq<char>) -> bool {
    &&& d matches McpDispatch::Reply(resp)
    &&& is_success(resp, id)
    &&& encodes_tool_result(resp.result->Some_0, message, true)
}

/// The output directory that the arguments of a screenshot call name.
pub open spec fn output_dir_of(arguments: Option<Json>) -> Option<String> {
    match arguments {
        Some(a) => match field(a, "output_dir"@) {
            Some(Json::Str(d)) => Some(d),
            _ => None,
        },
        None => None,
    }
}

/// `d` is what `tools/call` with `params` calls for, for the request `id`.
pub open spec fn calls_tool(id: Option<Json>, params: Option<Json>, d: McpDispatch) -> bool {
    match params {
        None => d matches McpDispatch::Reply(resp) && is_rpc_error(resp, id, INVALID_PARAMS)
            && resp.error->Some_0.message@ == "Missing params"@,
        Some(p) => match call_params_of(p) {
            None => d matches McpDispatch::Reply(resp) && is_rpc_error(resp, id, INVALID_PARAMS)
                && begins_with(resp.error->Some_0.message@, "Invalid params: "@),
            Some(call) => if call.name@ == TOOL_NAME@ {
                match output_dir_of(call.arguments) {
                    Some(dir) => d == McpDispatch::CallScreenshot(id, dir),
                    None => is_tool_error(
                        d,
                        id,
                        if call.arguments is None {
                            MISSING_ARGUMENTS@
                        } else {
                            MISSING_OUTPUT_DIR@
                        },
                    ),
                }
            } else {
                is_tool_error(d, id, "Unknown tool: "@ + call.name@)
            },
        },
    }
}

/// `d` is what `request` calls for.
pub open spec fn mcp_answers(request: JsonRpcRequest, d: McpDispatch) -> bool {
    let id = request.id;
    match mcp_method_of(request.method@) {
        McpMethod::Initialize => d matches McpDispatch::Reply(resp) && is_success(resp, id)
            && is_initialize_result(resp.result->Some_0),
        McpMethod::Initialized => d matches McpDispatch::Reply(resp) && is_success(resp, id)
            && is_empty_object(resp.result->Some_0),
        McpMethod::ToolsList => d matches McpDispatch::Reply(resp) && is_success(resp, id)
            && is_tool_list(resp.result->Some_0),
        McpMethod::ToolsCall => calls_tool(id, request.params, d),
        McpMethod::Ping => d matches McpDispatch::Reply(resp) && is_success(resp, id)
            && is_empty_object(resp.result->Some_0),
        McpMethod::Unknown => d matches McpDispatch::Reply(resp) && is_rpc_error(
            resp,
            id,
            METHOD_NOT_FOUND,
        ) && resp.error->Some_0.message@ == "Method not found: "@ + request.method@,
    }
}

/// Every request is answered for its own `id`: the reply carries it, and a
/// screenshot call keeps it for the reply that follows.
pub proof fn law_reply_keeps_id(request: JsonRpcRequest, d: McpDispatch)
    requires
        mcp_answers(request, d),
    ensures
        d matches McpDispatch::Reply(resp) ==> resp.id == request.id,
        d matches McpDispatch::CallScreenshot(id, _) ==> id == request.id,
{
}

/// `r` is the response to a tool result for the request `id`.
pub open spec fn is_tool_reply(r: JsonRpcResponse, id: Option<Json>, result: CallToolResult) -> bool {
    is_success(r, id) && encodes_tool_result(r.result->Some_0, result.text@, result.is_error)
}

/// What the server does with what it read from its input.
pub enum InputAction {
    /// The input ended: stop, which is no error.
    Stop,
    /// A blank line: read the next one without answering.
    Skip,
    /// A line to answer: this text, without its surrounding whitespace, is
    /// to be read as JSON.
    Answer(String),
}

/// The tool server. Each tool call goes through its client of the local
/// channel.
pub struct McpServer {
    pub ipc_client: IpcClient,
}

impl McpServer {
    /// A server whose tool calls go through `ipc_client`.
    pub fn new(ipc_client: IpcClient) -> (r: McpServer)
        ensures
            r.ipc_client == ipc_client,
    {
        McpServer { ipc_client }
    }

    /// Decides what to do with the next input line, `None` where the input
    /// ended: blank lines are skipped, and every other line is answered.
    pub fn on_input(line: Option<&str>) -> (r: InputAction)
        ensures
            line is None ==> r is Stop,
            line matches Some(l) ==> (if trim_of(l@).len() == 0 {
                r is Skip
            } else {
                r matches InputAction::Answer(t) && t@ == trim_of(l@)
            }),
    {
        match line {
            None => InputAction::Stop,
            Some(l) => {
                let t = trimmed(l);
                if t.unicode_len() == 0 {
                    InputAction::Skip
                } else {
                    InputAction::Answer(t.to_string())
                }
            },
        }
    }

    /// The successful response to `id` that carries a tool result.
    pub fn tool_reply(id: Option<Json>, result: CallToolResult) -> (r: JsonRpcResponse)
        ensures
            is_tool_reply(r, id, result),
    {
        JsonRpcResponse::success(id, result.to_json())
    }

    /// The answer to `initialize`.
    pub fn handle_initialize(&self, id: Option<Json>) -> (r: JsonRpcResponse)
        ensures
            is_success(r, id),
            is_initialize_result(r.result->Some_0),
    {
        proof {
            reveal_strlit("protocolVersion");
            reveal_strlit("capabilities");
            reveal_strlit("serverInfo");
            reveal_strlit("instructions");
            reveal_strlit("name");
            reveal_strlit("version");
            assert("name"@[0] != "version"@[0]);
            assert("protocolVersion"@[0] != "capabilities"@[0]);
            assert("protocolVersion"@[0] != "serverInfo"@[0]);
            assert("protocolVersion"@[0] != "instructions"@[0]);
            assert("capabilities"@[0] != "serverInfo"@[0]);
            assert("capabilities"@[0] != "instructions"@[0]);
            assert("serverInfo"@[0] != "instructions"@[0]);
        }
        let list_changed = single("listChanged", Json::Bool(false));
        let capabilities = single("tools", list_changed);
        proof {
            lemma_single_field(capabilities, "tools"@, list_changed);
            lemma_single_field(list_changed, "listChanged"@, Json::Bool(false));
        }
        let info = crate::json::pair(
            "name",
            text(SERVER_NAME),
            "version",
            text(SERVER_VERSION),
        );
        proof {
            crate::json::lemma_pair_fields(
                info,
                "name"@,
                info->Object_0@[0].1,
                "version"@,
                info->Object_0@[1].1,
            );
        }
        let result = object4(
            "protocolVersion",
            text(PROTOCOL_VERSION),
            "capabilities",
            capabilities,
            "serverInfo",
            info,
            "instructions",
            text(INSTRUCTIONS),
        );
        JsonRpcResponse::success(id, result)
    }

    /// The descriptor of the screenshot tool.
    pub fn screenshot_tool() -> (r: Json)
        ensures
            is_screenshot_tool(r),
    {
        proof {
            reveal_strlit("name");
            reveal_strlit("description");
            reveal_strlit("inputSchema");
            reveal_strlit("type");
            reveal_strlit("properties");
            reveal_strlit("required");
            assert("name"@[0] != "description"@[0] && "name"@[0] != "inputSchema"@[0]
                && "description"@[0] != "inputSchema"@[0]);
            assert("type"@[0] != "properties"@[0] && "type"@[0] != "required"@[0]
                && "properties"@[0] != "required"@[0]);
            assert("type"@[0] != "description"@[0]);
        }
        let arg = crate::json::pair(
            "type",
            text("string"),
            "description",
            text(OUTPUT_DIR_DESCRIPTION),
        );
        proof {
            crate::json::lemma_pair_fields(
                arg,
                "type"@,
                arg->Object_0@[0].1,
                "description"@,
                arg->Object_0@[1].1,
            );
        }
        let props = single("output_dir", arg);
        proof {
            lemma_single_field(props, "output_dir"@, arg);
        }
        let schema = object3(
            "type",
            text("object"),
            "properties",
            props,
            "required",
            Json::Array(vec![text("output_dir")]),
        );
        object3(
            "name",
            text(TOOL_NAME),
            "description",
            text(TOOL_DESCRIPTION),
            "inputSchema",
            schema,
        )
    }

    /// The answer to `tools/list`: the one tool.
    pub fn handle_list_tools(&self, id: Option<Json>) -> (r: JsonRpcResponse)
        ensures
            is_success(r, id),
            is_tool_list(r.result->Some_0),
    {
        let tool = McpServer::screenshot_tool();
        let list = single("tools", Json::Array(vec![tool]));
        proof {
            lemma_single_field(list, "tools"@, list->Object_0@[0].1);
        }
        JsonRpcResponse::success(id, list)
    }

    /// The output directory that the arguments of a screenshot call name,
    /// or the message of the tool error that their lack gives.
    pub fn screenshot_argument(arguments: Option<Json>) -> (r: Result<String, String>)
        ensures
            output_dir_of(arguments) matches Some(d) ==> r == Ok::<String, String>(d),
            output_dir_of(arguments) is None ==> (r matches Err(m) && m@ == (
            if arguments is None {
                MISSING_ARGUMENTS@
            } else {
                MISSING_OUTPUT_DIR@
            })),
    {
        match arguments {
            Some(Json::Object(mut e)) => match crate::json::take_field(&mut e, "output_dir") {
                Some(Json::Str(d)) => Ok(d),
                _ => Err(MISSING_OUTPUT_DIR.to_string()),
            },
            Some(_) => Err(MISSING_OUTPUT_DIR.to_string()),
            None => Err(MISSING_ARGUMENTS.to_string()),
        }
    }

    /// Decides what `tools/call` with `params` calls for.
    pub fn handle_call_tool(&self, id: Option<Json>, params: Option<Json>) -> (r: McpDispatch)
        ensures
            calls_tool(id, params, r),
    {
        let p = match params {
            Some(p) => p,
            None => {
                return McpDispatch::Reply(
                    JsonRpcResponse::error(id, INVALID_PARAMS, "Missing params"),
                );
            },
        };
        let call = match CallToolParams::from_json(p) {
            Ok(call) => call,
            Err(e) => {
                return McpDispatch::Reply(
                    JsonRpcResponse::error(
                        id,
                        INVALID_PARAMS,
                        join("Invalid params: ", e.as_str()).as_str(),
                    ),
                );
            },
        };
        if same_text(call.name.as_str(), TOOL_NAME) {
            match McpServer::screenshot_argument(call.arguments) {
                Ok(dir) => McpDispatch::CallScreenshot(id, dir),
                Err(m) => McpDispatch::Reply(
                    McpServer::tool_reply(id, CallToolResult::error(m.as_str())),
                ),
            }
        } else {
            let m = join("Unknown tool: ", call.name.as_str());
            McpDispatch::Reply(McpServer::tool_reply(id, CallToolResult::error(m.as_str())))
        }
    }

    /// Decides what a request calls for.
    pub fn handle_request(&self, request: JsonRpcRequest) -> (r: McpDispatch)
        ensures
            mcp_answers(request, r),
    {
        match parse_mcp_method(request.method.as_str()) {
            McpMethod::Initialize => McpDispatch::Reply(self.handle_initialize(request.id)),
            McpMethod::Initialized => McpDispatch::Reply(
                JsonRpcResponse::success(request.id, empty_object()),
            ),
            McpMethod::ToolsList => McpDispatch::Reply(self.handle_list_tools(request.id)),
            McpMethod::ToolsCall => self.handle_call_tool(request.id, request.params),
            McpMethod::Ping => McpDispatch::Reply(
                JsonRpcResponse::success(request.id, empty_object()),
            ),
            McpMethod::Unknown => {
                let m = join("Method not found: ", request.method.as_str());
                McpDispatch::Reply(JsonRpcResponse::error(request.id, METHOD_NOT_FOUND, m.as_str()))
            },
        }
    }

    /// Decides what a non-blank input line calls for, given as the JSON it
    /// holds or the reason it is not JSON. A line that is not a request is
    /// answered with a parse error that has no `id`.
    pub fn handle_line(&self, parsed: Result<Json, String>) -> (r: McpDispatch)
        ensures
            parsed matches Ok(j) ==> match rpc_request_of(j) {
                Some(request) => mcp_answers(request, r),
                None => r matches McpDispatch::Reply(resp) && is_rpc_error(resp, None, PARSE_ERROR)
                    && begins_with(resp.error->Some_0.message@, "Parse error: "@),
            },
            parsed matches Err(e) ==> (r matches McpDispatch::Reply(resp) && is_rpc_error(
                resp,
                None,
                PARSE_ERROR,
            ) && resp.error->Some_0.message@ == "Parse error: "@ + e@),
    {
        match parsed {
            Ok(j) => match JsonRpcRequest::from_json(j) {
                Ok(request) => self.handle_request(request),
                Err(e) => McpDispatch::Reply(
                    JsonRpcResponse::error(
                        None,
                        PARSE_ERROR,
                        join("Parse error: ", e.as_str()).as_str(),
                    ),
                ),
            },
            Err(e) => McpDispatch::Reply(
                JsonRpcResponse::error(None, PARSE_ERROR, join("Parse error: ", e.as_str()).as_str()),
            ),
        }
    }

    /// The answer to a screenshot call for the request `id`, once the local
    /// channel has given its outcome: the result's text, or the failure
    /// marked as a tool error.
    pub fn finish_screenshot(&self, id: Option<Json>, outcome: Result<String, String>) -> (r: JsonRpcResponse)
        ensures
            is_success(r, id),
            outcome matches Ok(t) ==> encodes_tool_result(r.result->Some_0, t@, false),
            outcome matches Err(e) ==> encodes_tool_result(
                r.result->Some_0,
                "Screenshot failed: "@ + e@,
                true,
            ),
    {
        match outcome {
            Ok(t) => McpServer::tool_reply(id, CallToolResult::success(t.as_str())),
            Err(e) => {
                let m = join("Screenshot failed: ", e.as_str());
                McpServer::tool_reply(id, CallToolResult::error(m.as_str()))
            },
        }
    }
}

} // verus!
