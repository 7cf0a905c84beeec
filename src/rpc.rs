use vstd::prelude::*;
use crate::json::{Json, JsonView};
use crate::text::{cat, owned};

verus! {

/// The input was not a JSON-RPC envelope.
pub const PARSE_ERROR: i32 = -32700;

/// No handler has the requested method name.
pub const METHOD_NOT_FOUND: i32 = -32601;

/// A required parameter is missing or malformed.
pub const INVALID_PARAMS: i32 = -32602;

/// The engine is absent or reported a failure.
pub const INTERNAL_ERROR: i32 = -32603;

/// A request envelope.
#[derive(Debug, PartialEq)]
pub struct JsonRpcRequest {
    pub jsonrpc: String,
    pub id: Option<Json>,
    pub method: String,
    pub params: Option<Json>,
}

/// An error object.
#[derive(Debug, PartialEq)]
pub struct JsonRpcError {
    pub code: i32,
    pub message: String,
    pub data: Option<Json>,
}

/// A response envelope.
#[derive(Debug, PartialEq)]
pub struct JsonRpcResponse {
    pub jsonrpc: String,
    pub id: Json,
    pub result: Option<Json>,
    pub error: Option<JsonRpcError>,
}

/// The id that a response to `request` carries: the request's own, or null.
pub open spec fn response_id(request: JsonRpcRequest) -> JsonView {
    match request.id {
        Some(id) => id@,
        None => JsonView::Null,
    }
}

impl JsonRpcError {
    pub fn new(code: i32, message: String) -> (r: JsonRpcError)
        ensures
            r.code == code,
            r.message@ == message@,
            r.data is None,
    {
        JsonRpcError { code, message, data: None }
    }

    /// An error whose message is `prefix` followed by `detail`.
    pub fn with_detail(code: i32, prefix: &str, detail: &str) -> (r: JsonRpcError)
        ensures
            r.code == code,
            r.message@ == prefix@ + detail@,
            r.data is None,
    {
        JsonRpcError { code, message: cat(owned(prefix), detail), data: None }
    }
}

impl JsonRpcResponse {
    /// The protocol tag is "2.0" and exactly one of result and error is present.
    pub open spec fn wf(&self) -> bool {
        &&& self.jsonrpc@ == "2.0"@
        &&& (self.result is Some) != (self.error is Some)
    }

    /// The response succeeded with the result `v`.
    pub open spec fn succeeded_with(&self, v: JsonView) -> bool {
        &&& self.wf()
        &&& self.result matches Some(r) && r@ == v
    }

    /// The response failed with the error code `code`.
    pub open spec fn failed_with(&self, code: i32) -> bool {
        &&& self.wf()
        &&& self.error matches Some(e) && e.code == code
    }

    pub fn success(id: Json, result: Json) -> (r: JsonRpcResponse)
        ensures
            r.wf(),
            r.id == id,
            r.result == Some(result),
    {
        JsonRpcResponse { jsonrpc: owned("2.0"), id, result: Some(result), error: None }
    }

    pub fn failure(id: Json, error: JsonRpcError) -> (r: JsonRpcResponse)
        ensures
            r.wf(),
            r.id == id,
            r.error == Some(error),
    {
        JsonRpcResponse { jsonrpc: owned("2.0"), id, result: None, error: Some(error) }
    }

    /// The answer to a line that is not a JSON-RPC envelope: a parse error with a null id,
    /// whose message carries the decoder's `detail`.
    pub fn parse_error(detail: &str) -> (r: JsonRpcResponse)
        ensures
            r.failed_with(PARSE_ERROR),
            r.id@ == JsonView::Null,
            r.error->0.message@ == "Parse error: "@ + detail@,
    {
        JsonRpcResponse::failure(
            Json::Null,
            JsonRpcError::with_detail(PARSE_ERROR, "Parse error: ", detail),
        )
    }
}

/// The model of a handler's outcome: a result, or an error's code and message.
pub open spec fn outcome(r: Result<Json, JsonRpcError>) -> Result<JsonView, (i32, Seq<char>)> {
    match r {
        Ok(j) => Ok(j@),
        Err(e) => Err((e.code, e.message@)),
    }
}

/// An error outcome carries no structured data.
pub open spec fn bare(r: Result<Json, JsonRpcError>) -> bool {
    r matches Err(e) ==> e.data is None
}

/// A handler's error with `code` and the message `message`.
pub fn fail(code: i32, message: &str) -> (r: Result<Json, JsonRpcError>)
    ensures
        outcome(r) == Err::<JsonView, (i32, Seq<char>)>((code, message@)),
        r matches Err(e) && e.data is None,
{
    Err(JsonRpcError::new(code, owned(message)))
}

} // verus!
