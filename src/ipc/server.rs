//! What the application's end of the local channel decides: which method a
//! request names, what to answer, and when a connection is done.
use vstd::prelude::*;
use crate::json::{Json, single, is_single_object};
use crate::ipc::protocol::{IpcRequest, IpcResponse, ScreenshotParams, ScreenshotResult,
    screenshot_dir_of, request_of};
use crate::text::{join, begins_with};

verus! {

/// Where the application listens for local connections.
pub const SOCKET_PATH: &'static str = "/tmp/ghview.sock";

/// The well-known endpoint of the local channel.
pub fn get_socket_path() -> (r: &'static str)
    ensures
        r@ == SOCKET_PATH@,
        r@.len() > 0,
{
    proof {
        reveal_strlit("/tmp/ghview.sock");
    }
    SOCKET_PATH
}

/// The methods of the local channel.
#[derive(Debug, PartialEq, Eq, Structural)]
pub enum IpcMethod {
    Screenshot,
    Ping,
    Unknown,
}

/// The method that the name `m` stands for.
pub open spec fn method_of(m: Seq<char>) -> IpcMethod {
    if m == "screenshot"@ {
        IpcMethod::Screenshot
    } else if m == "ping"@ {
        IpcMethod::Ping
    } else {
        IpcMethod::Unknown
    }
}

/// Reads a method name.
pub fn parse_method(m: &str) -> (r: IpcMethod)
    ensures
        r == method_of(m@),
{
    let s = m.to_string();
    if s == "screenshot".to_string() {
        IpcMethod::Screenshot
    } else if s == "ping".to_string() {
        IpcMethod::Ping
    } else {
        IpcMethod::Unknown
    }
}

/// What the application does with a request: answer at once, or capture
/// its window into a directory and answer with the outcome.
pub enum Dispatch {
    Reply(IpcResponse),
    Capture(String),
}

/// `resp` is the answer to `ping`: the result `{"pong": true}`.
pub open spec fn is_pong(resp: IpcResponse) -> bool {
    &&& resp.error is None
    &&& resp.result matches Some(v) && is_single_object(v, "pong"@, Json::Bool(true))
}

/// `resp` is an error whose message is `message`.
pub open spec fn is_error_with(resp: IpcResponse, message: Seq<char>) -> bool {
    &&& resp.result is None
    &&& resp.error matches Some(m) && m@ == message
}

/// `d` is an answer that carries an error, whose message begins with
/// `prefix`, and no result.
pub open spec fn is_error_reply(d: Dispatch, prefix: Seq<char>) -> bool {
    d matches Dispatch::Reply(resp) && resp.result is None && (resp.error matches Some(m)
        && begins_with(m@, prefix))
}

/// `r` is what a request calls for: `ping` is answered with a pong,
/// `screenshot` with a string `output_dir` leads to a capture of it (with
/// other parameters, to an error), and any other method to an error that
/// names it.
pub open spec fn answers(request: IpcRequest, r: Dispatch) -> bool {
    &&& method_of(request.method@) == IpcMethod::Ping ==> (r matches Dispatch::Reply(resp)
        && is_pong(resp))
    &&& method_of(request.method@) == IpcMethod::Screenshot ==> match screenshot_dir_of(
        request.params,
    ) {
        Some(d) => r == Dispatch::Capture(d),
        None => is_error_reply(r, "Invalid screenshot params: "@),
    }
    &&& method_of(request.method@) == IpcMethod::Unknown ==> (r matches Dispatch::Reply(resp)
        && is_error_with(resp, "Unknown method: "@ + request.method@))
}

/// Decides what to do with a request.
pub fn handle_request(request: IpcRequest) -> (r: Dispatch)
    ensures
        answers(request, r),
{
    match parse_method(request.method.as_str()) {
        IpcMethod::Screenshot => match ScreenshotParams::from_json(request.params) {
            Ok(p) => Dispatch::Capture(p.output_dir),
            Err(e) => Dispatch::Reply(
                IpcResponse::error(join("Invalid screenshot params: ", e.as_str()).as_str()),
            ),
        },
        IpcMethod::Ping => Dispatch::Reply(IpcResponse::success(single("pong", Json::Bool(true)))),
        IpcMethod::Unknown => Dispatch::Reply(
            IpcResponse::error(join("Unknown method: ", request.method.as_str()).as_str()),
        ),
    }
}

/// The answer to a `screenshot` request once the capture is done: the path
/// of the file written, or the reason it failed.
pub fn screenshot_response(outcome: Result<String, String>) -> (r: IpcResponse)
    ensures
        outcome matches Ok(p) ==> r.error is None && (r.result matches Some(v)
            && is_single_object(v, "path"@, Json::Str(p))),
        outcome matches Err(e) ==> is_error_with(r, "Screenshot failed: "@ + e@),
{
    match outcome {
        Ok(path) => IpcResponse::success(ScreenshotResult { path }.to_json()),
        Err(e) => IpcResponse::error(join("Screenshot failed: ", e.as_str()).as_str()),
    }
}

/// Decides what to do with the line a connection sent, given as the JSON it
/// holds or the reason it is not JSON.
pub fn handle_line(parsed: Result<Json, String>) -> (r: Dispatch)
    ensures
        decides_line(parsed, r),
{
    match parsed {
        Ok(j) => match IpcRequest::from_json(j) {
            Ok(request) => handle_request(request),
            Err(e) => Dispatch::Reply(
                IpcResponse::error(join("Invalid request: ", e.as_str()).as_str()),
            ),
        },
        Err(e) => Dispatch::Reply(IpcResponse::error(join("Invalid request: ", e.as_str()).as_str())),
    }
}

/// `d` is what `handle_line` decides for `parsed`.
pub open spec fn decides_line(parsed: Result<Json, String>, d: Dispatch) -> bool {
    &&& parsed matches Err(e) ==> (d matches Dispatch::Reply(resp) && is_error_with(
        resp,
        "Invalid request: "@ + e@,
    ))
    &&& parsed matches Ok(j) ==> match request_of(j) {
        Some(request) => answers(request, d),
        None => is_error_reply(d, "Invalid request: "@),
    }
}

/// The life of one connection: it waits for its request line, may wait for
/// a capture, writes one response line, and is closed.
#[derive(Debug, PartialEq, Eq, Structural)]
pub enum ConnectionState {
    AwaitingRequest,
    Dispatching,
    AwaitingFlush,
    Closed,
}

/// What the connection asks of the transport next.
pub enum ConnectionAction {
    /// Capture the window into this directory and report the outcome.
    Capture(String),
    /// Write this response as one line, flush it, and report that.
    Write(IpcResponse),
    /// Close the connection without writing anything more.
    Close,
}

/// One connection of the local channel.
pub struct Connection {
    pub state: ConnectionState,
}

/// The action that carries out the decision `d`, and the state it leads to.
pub open spec fn carries_out(d: Dispatch, a: ConnectionAction, s: ConnectionState) -> bool {
    match d {
        Dispatch::Reply(resp) => a == ConnectionAction::Write(resp) && s
            == ConnectionState::AwaitingFlush,
        Dispatch::Capture(dir) => a == ConnectionAction::Capture(dir) && s
            == ConnectionState::Dispatching,
    }
}

impl Connection {
    /// A connection that has just been accepted.
    pub fn new() -> (r: Connection)
        ensures
            r.state == ConnectionState::AwaitingRequest,
    {
        Connection { state: ConnectionState::AwaitingRequest }
    }

    /// The connection's request line has been read: `None` where the peer
    /// closed without sending one, else its JSON or the reason it is not
    /// JSON. Only a connection awaiting its request acts on it.
    pub fn on_line(&mut self, line: Option<Result<Json, String>>) -> (a: ConnectionAction)
        ensures
            old(self).state == ConnectionState::AwaitingRequest ==> match line {
                None => a == ConnectionAction::Close && final(self).state
                    == ConnectionState::Closed,
                Some(parsed) => exists|d: Dispatch|
                    decides_line(parsed, d) && carries_out(d, a, final(self).state),
            },
            old(self).state != ConnectionState::AwaitingRequest ==> a == ConnectionAction::Close
                && final(self).state == ConnectionState::Closed,
    {
        if self.state != ConnectionState::AwaitingRequest {
            self.state = ConnectionState::Closed;
            return ConnectionAction::Close;
        }
        match line {
            None => {
                self.state = ConnectionState::Closed;
                ConnectionAction::Close
            },
            Some(parsed) => {
                let ghost p = parsed;
                let d = handle_line(parsed);
                let ghost dd = d;
                let a = match d {
                    Dispatch::Reply(resp) => {
                        self.state = ConnectionState::AwaitingFlush;
                        ConnectionAction::Write(resp)
                    },
                    Dispatch::Capture(dir) => {
                        self.state = ConnectionState::Dispatching;
                        ConnectionAction::Capture(dir)
                    },
                };
                assert(decides_line(p, dd) && carries_out(dd, a, self.state));
                a
            },
        }
    }

    /// The capture that the connection asked for is done. Only a connection
    /// that is dispatching acts on it.
    pub fn on_capture(&mut self, outcome: Result<String, String>) -> (a: ConnectionAction)
        ensures
            old(self).state == ConnectionState::Dispatching ==> final(self).state
                == ConnectionState::AwaitingFlush && (a matches ConnectionAction::Write(resp) && (
                outcome matches Ok(p) ==> resp.error is None && (resp.result matches Some(v)
                    && is_single_object(v, "path"@, Json::Str(p)))) && (outcome matches Err(e)
                ==> is_error_with(resp, "Screenshot failed: "@ + e@))),
            old(self).state != ConnectionState::Dispatching ==> a == ConnectionAction::Close
                && final(self).state == ConnectionState::Closed,
    {
        if self.state != ConnectionState::Dispatching {
            self.state = ConnectionState::Closed;
            return ConnectionAction::Close;
        }
        self.state = ConnectionState::AwaitingFlush;
        ConnectionAction::Write(screenshot_response(outcome))
    }

    /// The response line has been written and flushed: the connection is
    /// closed, whatever state it was in.
    pub fn on_flushed(&mut self)
        ensures
            final(self).state == ConnectionState::Closed,
    {
        self.state = ConnectionState::Closed;
    }
}

} // verus!
