//! The messages of the local channel: one request and one response per
//! connection, each a JSON object on one line.
use vstd::prelude::*;
use crate::json::{Json, lookup, take_field, single, field};

verus! {

/// A request on the local channel.
#[derive(Debug)]
pub struct IpcRequest {
    pub method: String,
    pub params: Json,
}

/// A response on the local channel: a result, an error message, or (as a
/// reader sees it) neither. Absent fields are not written.
#[derive(Debug)]
pub struct IpcResponse {
    pub result: Option<Json>,
    pub error: Option<String>,
}

/// The parameters of a `screenshot` request.
#[derive(Debug)]
pub struct ScreenshotParams {
    pub output_dir: String,
}

/// The result of a `screenshot` request: the file that was written.
#[derive(Debug)]
pub struct ScreenshotResult {
    pub path: String,
}

/// An optional value field as a reader sees it: `null` counts as absent.
pub open spec fn optional_value(f: Option<Json>) -> Option<Json> {
    match f {
        Some(Json::Null) => None,
        Some(v) => Some(v),
        None => None,
    }
}

/// An optional string field is absent, `null` or a string.
pub open spec fn optional_text_ok(f: Option<Json>) -> bool {
    match f {
        Some(Json::Null) => true,
        Some(Json::Str(_)) => true,
        Some(_) => false,
        None => true,
    }
}

/// The string of an optional string field, when it holds one.
pub open spec fn optional_text(f: Option<Json>) -> Option<String> {
    match f {
        Some(Json::Str(s)) => Some(s),
        _ => None,
    }
}

/// The response that `j` encodes, if it has the shape of one.
pub open spec fn response_of(j: Json) -> Option<IpcResponse> {
    if j is Object && optional_text_ok(field(j, "error"@)) {
        Some(
            IpcResponse {
                result: field(j, "result"@),
                error: optional_text(field(j, "error"@)),
            },
        )
    } else {
        None
    }
}

/// `j` is the encoding of `resp`: an object with a `result` entry where
/// there is a result and then an `error` entry where there is an error.
pub open spec fn encodes_response(j: Json, resp: IpcResponse) -> bool {
    &&& j matches Json::Object(e)
    &&& match (resp.result, resp.error) {
        (Some(v), Some(s)) => e@.len() == 2 && e@[0].0@ == "result"@ && e@[0].1 == v
            && e@[1].0@ == "error"@ && e@[1].1 == Json::Str(s),
        (Some(v), None) => e@.len() == 1 && e@[0].0@ == "result"@ && e@[0].1 == v,
        (None, Some(s)) => e@.len() == 1 && e@[0].0@ == "error"@ && e@[0].1 == Json::Str(s),
        (None, None) => e@.len() == 0,
    }
}

/// The request that `j` encodes, if it has the shape of one: an object with
/// a string `method` and a `params` value.
pub open spec fn request_of(j: Json) -> Option<IpcRequest> {
    match (field(j, "method"@), field(j, "params"@)) {
        (Some(Json::Str(m)), Some(p)) => Some(IpcRequest { method: m, params: p }),
        _ => None,
    }
}

/// `j` is the encoding of `req`: `method`, then `params`.
pub open spec fn encodes_request(j: Json, req: IpcRequest) -> bool {
    &&& j matches Json::Object(e)
    &&& e@.len() == 2
    &&& e@[0].0@ == "method"@
    &&& e@[0].1 == Json::Str(req.method)
    &&& e@[1].0@ == "params"@
    &&& e@[1].1 == req.params
}

/// The `output_dir` that `j` holds, if it has the shape of screenshot
/// parameters.
pub open spec fn screenshot_dir_of(j: Json) -> Option<String> {
    match field(j, "output_dir"@) {
        Some(Json::Str(d)) => Some(d),
        _ => None,
    }
}

impl IpcResponse {
    /// A response carrying `result`.
    pub fn success(result: Json) -> (r: IpcResponse)
        ensures
            r.result == Some(result),
            r.error is None,
    {
        IpcResponse { result: Some(result), error: None }
    }

    /// A response carrying the error `message`.
    pub fn error(message: &str) -> (r: IpcResponse)
        ensures
            r.result is None,
            r.error matches Some(m) && m@ == message@,
    {
        IpcResponse { result: None, error: Some(message.to_string()) }
    }

    /// The JSON object for this response; absent fields are left out.
    pub fn to_json(self) -> (r: Json)
        ensures
            encodes_response(r, self),
    {
        let mut e: Vec<(String, Json)> = Vec::new();
        if let Some(v) = self.result {
            e.push(("result".to_string(), v));
        }
        if let Some(s) = self.error {
            e.push(("error".to_string(), Json::Str(s)));
        }
        Json::Object(e)
    }

    /// Reads a response from its JSON object. A present result is kept,
    /// `null` included; an `error` of `null` counts as absent.
    pub fn from_json(j: Json) -> (r: Result<IpcResponse, String>)
        ensures
            r is Ok <==> response_of(j) is Some,
            r matches Ok(resp) ==> response_of(j) == Some(resp),
    {
        match j {
            Json::Object(mut e) => {
                let ghost e0 = e@;
                let result = take_field(&mut e, "result");
                let error = take_field(&mut e, "error");
                proof {
                    reveal_strlit("result");
                    reveal_strlit("error");
                    assert("result"@[0] != "error"@[0]);
                    lemma_lookup_after_take(e0, "result"@, "error"@);
                }
                match error {
                    None => Ok(IpcResponse { result, error: None }),
                    Some(Json::Null) => Ok(IpcResponse { result, error: None }),
                    Some(Json::Str(s)) => Ok(IpcResponse { result, error: Some(s) }),
                    Some(_) => Err("Invalid response: `error` is not a string".to_string()),
                }
            },
            _ => Err("Invalid response: expected an object".to_string()),
        }
    }
}

/// Taking one key out of an object's entries leaves what every other key
/// looks up unchanged.
pub proof fn lemma_lookup_after_take(e: Seq<(String, Json)>, taken: Seq<char>, key: Seq<char>)
    requires
        taken != key,
    ensures
        crate::json::key_position(e, taken) matches Some(i) ==> lookup(e.remove(i), key)
            == lookup(e, key),
    decreases e.len(),
{
    if e.len() > 0 {
        if e[0].0@ == taken {
            assert(e.remove(0) =~= e.drop_first());
        } else {
            lemma_lookup_after_take(e.drop_first(), taken, key);
            crate::json::lemma_key_position(e.drop_first(), taken);
            if let Some(k) = crate::json::key_position(e.drop_first(), taken) {
                assert(e.remove(k + 1).drop_first() =~= e.drop_first().remove(k));
                assert(e.remove(k + 1)[0] == e[0]);
            }
        }
    }
}

/// Encoding a response and reading the object back gives the same
/// response, for each combination of present and absent result and error,
/// whatever value the result is.
pub proof fn law_response_round_trip(j: Json, resp: IpcResponse)
    requires
        encodes_response(j, resp),
    ensures
        response_of(j) == Some(resp),
{
    reveal_strlit("result");
    reveal_strlit("error");
    assert("result"@[0] != "error"@[0]);
    reveal_with_fuel(lookup, 3);
    let e = j->Object_0@;
    if e.len() == 2 {
        assert(e.drop_first()[0] == e[1]);
        assert(e.drop_first().drop_first().len() == 0);
    } else if e.len() == 1 {
        assert(e.drop_first().len() == 0);
    }
}

/// Encoding a request and reading the object back gives the same request.
pub proof fn law_request_round_trip(j: Json, req: IpcRequest)
    requires
        encodes_request(j, req),
    ensures
        request_of(j) == Some(req),
{
    reveal_strlit("method");
    reveal_strlit("params");
    assert("method"@[0] != "params"@[0]);
    reveal_with_fuel(lookup, 2);
    let e = j->Object_0@;
    assert(e.drop_first()[0] == e[1]);
    assert(field(j, "method"@) == Some(Json::Str(req.method)));
    assert(field(j, "params"@) == Some(req.params));
}

impl IpcRequest {
    /// The JSON object for this request: `method`, then `params`.
    pub fn to_json(self) -> (r: Json)
        ensures
            encodes_request(r, self),
    {
        let mut e: Vec<(String, Json)> = Vec::new();
        e.push(("method".to_string(), Json::Str(self.method)));
        e.push(("params".to_string(), self.params));
        Json::Object(e)
    }

    /// Reads a request from its JSON object.
    pub fn from_json(j: Json) -> (r: Result<IpcRequest, String>)
        ensures
            r is Ok <==> request_of(j) is Some,
            r matches Ok(req) ==> request_of(j) == Some(req),
    {
        match j {
            Json::Object(mut e) => {
                let ghost e0 = e@;
                let method = take_field(&mut e, "method");
                let params = take_field(&mut e, "params");
                proof {
                    reveal_strlit("method");
                    reveal_strlit("params");
                    assert("method"@[0] != "params"@[0]);
                    lemma_lookup_after_take(e0, "method"@, "params"@);
                }
                match (method, params) {
                    (Some(Json::Str(m)), Some(p)) => Ok(IpcRequest { method: m, params: p }),
                    (Some(Json::Str(_)), None) => Err(
                        "missing field `params`".to_string(),
                    ),
                    _ => Err("`method` is missing or not a string".to_string()),
                }
            },
            _ => Err("expected an object".to_string()),
        }
    }
}

impl ScreenshotParams {
    /// Reads the parameters of a `screenshot` request.
    pub fn from_json(j: Json) -> (r: Result<ScreenshotParams, String>)
        ensures
            r is Ok <==> screenshot_dir_of(j) is Some,
            r matches Ok(p) ==> screenshot_dir_of(j) == Some(p.output_dir),
    {
        match j {
            Json::Object(mut e) => match take_field(&mut e, "output_dir") {
                Some(Json::Str(d)) => Ok(ScreenshotParams { output_dir: d }),
                Some(_) => Err("`output_dir` is not a string".to_string()),
                None => Err("missing field `output_dir`".to_string()),
            },
            _ => Err("expected an object".to_string()),
        }
    }

    /// The JSON object for these parameters.
    pub fn to_json(self) -> (r: Json)
        ensures
            crate::json::is_single_object(r, "output_dir"@, Json::Str(self.output_dir)),
    {
        single("output_dir", Json::Str(self.output_dir))
    }
}

impl ScreenshotResult {
    /// The JSON object for this result.
    pub fn to_json(self) -> (r: Json)
        ensures
            crate::json::is_single_object(r, "path"@, Json::Str(self.path)),
    {
        single("path", Json::Str(self.path))
    }
}

} // verus!
