//! The tool server's end of the local channel: it checks that the
//! application is listening, frames each request and reads each reply.
use vstd::prelude::*;
use crate::json::Json;
use crate::ipc::protocol::{IpcRequest, IpcResponse, ScreenshotParams, response_of};
use crate::text::join3;

verus! {

/// The start of the message of a client whose application is not running.
pub const NOT_RUNNING: &'static str = "ghview is not running. Please start ghview first. (Socket not found: ";

/// The message of a call whose connection closed before a reply.
pub const NO_RESPONSE: &'static str = "No response from ghview";

/// A client of the local channel. It holds no connection between calls:
/// each call opens its own.
pub struct IpcClient {
    pub socket_path: String,
}

/// `j` is exactly the object `{"output_dir": dir}`.
pub open spec fn is_dir_params(j: Json, dir: Seq<char>) -> bool {
    &&& j matches Json::Object(e)
    &&& e@.len() == 1
    &&& e@[0].0@ == "output_dir"@
    &&& e@[0].1 matches Json::Str(d) && d@ == dir
}

/// `r` is what a call returns for the reply it got: the failure where the
/// connection closed first or the line is not a response, the error
/// message of a reply that has one, and else the reply's result (`None`
/// where it has none).
pub open spec fn reads_reply(reply: Option<Result<Json, String>>, r: Result<Option<Json>, String>) -> bool {
    match reply {
        None => r matches Err(m) && m@ == NO_RESPONSE@,
        Some(Err(e)) => r matches Err(m) && m@ == e@,
        Some(Ok(j)) => match response_of(j) {
            Some(resp) => match resp.error {
                Some(m) => r matches Err(x) && x@ == m@,
                None => r == Ok::<Option<Json>, String>(resp.result),
            },
            None => r is Err,
        },
    }
}

impl IpcClient {
    /// A client for the endpoint at `socket_path`, which exists or not: a
    /// missing endpoint means the application is not running, and no call is
    /// attempted.
    pub fn connect(socket_path: &str, endpoint_exists: bool) -> (r: Result<IpcClient, String>)
        ensures
            endpoint_exists ==> (r matches Ok(c) && c.socket_path@ == socket_path@),
            !endpoint_exists ==> (r matches Err(m) && m@ == NOT_RUNNING@ + socket_path@
                + ")"@),
    {
        if endpoint_exists {
            Ok(IpcClient { socket_path: socket_path.to_string() })
        } else {
            Err(join3(NOT_RUNNING, socket_path, ")"))
        }
    }

    /// The request that asks the application for a screenshot saved in
    /// `output_dir`.
    pub fn screenshot_request(&self, output_dir: &str) -> (r: IpcRequest)
        ensures
            r.method@ == "screenshot"@,
            is_dir_params(r.params, output_dir@),
    {
        let params = ScreenshotParams { output_dir: output_dir.to_string() }.to_json();
        IpcRequest { method: "screenshot".to_string(), params }
    }

    /// The outcome of a call, from the reply line it got: `None` where the
    /// connection closed first, else the JSON of the line or the reason it
    /// is not JSON.
    pub fn read_reply(reply: Option<Result<Json, String>>) -> (r: Result<Option<Json>, String>)
        ensures
            reads_reply(reply, r),
    {
        match reply {
            None => Err(NO_RESPONSE.to_string()),
            Some(Err(e)) => Err(e),
            Some(Ok(j)) => match IpcResponse::from_json(j) {
                Ok(resp) => match resp.error {
                    Some(m) => Err(m),
                    None => Ok(resp.result),
                },
                Err(e) => Err(e),
            },
        }
    }
}

} // verus!
