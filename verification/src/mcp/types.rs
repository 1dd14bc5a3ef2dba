use crate::decimal::{decimal_string, decimal_text};
use crate::json::{
    clone_opt, members_value, opt_value, push_member, value_get, value_get_str, Json, JsonValue,
};
use vstd::prelude::*;
use vstd::string::StringExecFns;

verus! {

/// Code of an invalid request: a malformed payload, a wrong protocol
/// version, a missing method.
pub const INVALID_REQUEST: i32 = -32600;

/// Code of a method that is not registered, or registered and not built.
pub const METHOD_NOT_FOUND: i32 = -32601;

/// Code of missing or invalid parameters.
pub const INVALID_PARAMS: i32 = -32602;

/// Code of a failure inside the server or one of its collaborators.
pub const INTERNAL_ERROR: i32 = -32603;

/// JSON-RPC request structure.
#[derive(Debug, Clone, PartialEq, Eq)]
pub struct McpRequest {
    pub jsonrpc: String,
    pub id: Option<Json>,
    pub method: String,
    pub params: Option<Json>,
}

/// The mathematical counterpart of [`McpRequest`].
pub struct RequestView {
    pub jsonrpc: Seq<char>,
    pub id: Option<JsonValue>,
    pub method: Seq<char>,
    pub params: Option<JsonValue>,
}

impl View for McpRequest {
    type V = RequestView;

    open spec fn view(&self) -> RequestView {
        RequestView {
            jsonrpc: self.jsonrpc@,
            id: opt_value(self.id),
            method: self.method@,
            params: opt_value(self.params),
        }
    }
}

/// JSON-RPC error structure.
#[derive(Debug, PartialEq, Eq)]
pub struct McpError {
    pub code: i32,
    pub message: String,
    pub data: Option<Json>,
}

/// The mathematical counterpart of [`McpError`].
pub struct ErrorView {
    pub code: int,
    pub message: Seq<char>,
    pub data: Option<JsonValue>,
}

impl View for McpError {
    type V = ErrorView;

    open spec fn view(&self) -> ErrorView {
        ErrorView { code: self.code as int, message: self.message@, data: opt_value(self.data) }
    }
}

/// JSON-RPC response structure.
#[derive(Debug, PartialEq, Eq)]
pub struct McpResponse {
    pub jsonrpc: String,
    pub id: Option<Json>,
    pub result: Option<Json>,
    pub error: Option<McpError>,
}

/// The mathematical counterpart of [`McpResponse`].
pub struct ResponseView {
    pub jsonrpc: Seq<char>,
    pub id: Option<JsonValue>,
    pub result: Option<JsonValue>,
    pub error: Option<ErrorView>,
}

/// The view of an error that may be absent.
pub open spec fn opt_error(e: Option<McpError>) -> Option<ErrorView> {
    match e {
        Some(e) => Some(e@),
        None => None,
    }
}

impl View for McpResponse {
    type V = ResponseView;

    open spec fn view(&self) -> ResponseView {
        ResponseView {
            jsonrpc: self.jsonrpc@,
            id: opt_value(self.id),
            result: opt_value(self.result),
            error: opt_error(self.error),
        }
    }
}

/// An error without data.
pub open spec fn plain_error(code: int, message: Seq<char>) -> ErrorView {
    ErrorView { code, message, data: None }
}

/// The message of a method that was not found.
pub open spec fn not_found_message(method: Seq<char>) -> Seq<char> {
    "Method '"@ + method + "' not found"@
}

/// How an error prints: its code in square brackets, then its message.
pub open spec fn error_text(e: ErrorView) -> Seq<char> {
    "["@ + decimal_text(e.code) + "] "@ + e.message
}

impl McpError {
    /// Invalid Request error (-32600).
    pub fn invalid_request(message: &str) -> (e: Self)
        ensures
            e@ == plain_error(-32600, message@),
    {
        McpError { code: INVALID_REQUEST, message: String::from_str(message), data: None }
    }

    /// Method Not Found error (-32601).
    pub fn method_not_found(method: &str) -> (e: Self)
        ensures
            e@ == plain_error(-32601, not_found_message(method@)),
    {
        let mut message = String::from_str("Method '");
        message.append(method);
        message.append("' not found");
        McpError { code: METHOD_NOT_FOUND, message, data: None }
    }

    /// Invalid Params error (-32602).
    pub fn invalid_params(message: &str) -> (e: Self)
        ensures
            e@ == plain_error(-32602, message@),
    {
        McpError { code: INVALID_PARAMS, message: String::from_str(message), data: None }
    }

    /// Internal Error (-32603).
    pub fn internal_error(message: &str) -> (e: Self)
        ensures
            e@ == plain_error(-32603, message@),
    {
        McpError { code: INTERNAL_ERROR, message: String::from_str(message), data: None }
    }

    /// The error as a line of text: `[code] message`.
    pub fn to_text(&self) -> (r: String)
        ensures
            r@ == error_text(self@),
    {
        let mut out = String::from_str("[");
        let code = decimal_string(self.code as i64);
        out.append(code.as_str());
        out.append("] ");
        out.append(self.message.as_str());
        out
    }
}

impl Clone for McpError {
    fn clone(&self) -> (r: Self)
        ensures
            r@ == self@,
    {
        McpError { code: self.code, message: self.message.clone(), data: clone_opt(&self.data) }
    }
}

/// A member that may be left out: absent and `null` both count as not
/// given.
pub open spec fn optional_member(doc: JsonValue, key: Seq<char>) -> Option<JsonValue> {
    match value_get(doc, key) {
        Some(JsonValue::Null) => None,
        Some(member) => Some(member),
        None => None,
    }
}

/// The request that a document holds: an object with a string `jsonrpc` and
/// a string `method`; `id` and `params` may be left out.
pub open spec fn spec_request(doc: JsonValue) -> Option<RequestView> {
    match (value_get_str(doc, "jsonrpc"@), value_get_str(doc, "method"@)) {
        (Some(jsonrpc), Some(method)) => Some(
            RequestView {
                jsonrpc,
                id: optional_member(doc, "id"@),
                method,
                params: optional_member(doc, "params"@),
            },
        ),
        _ => None,
    }
}

fn copy_optional_member(doc: &Json, key: &str) -> (r: Option<Json>)
    ensures
        opt_value(r) == optional_member(doc@, key@),
{
    match doc.get(key) {
        Some(Json::Null) => None,
        Some(member) => Some(member.clone()),
        None => None,
    }
}

impl McpRequest {
    /// Reads a request out of a document; `None` where the document is no
    /// request.
    pub fn from_json(doc: &Json) -> (r: Option<McpRequest>)
        ensures
            match r {
                Some(request) => spec_request(doc@) == Some(request@),
                None => spec_request(doc@).is_none(),
            },
    {
        let jsonrpc = match doc.get_str("jsonrpc") {
            Some(text) => String::from_str(text),
            None => {
                return None;
            },
        };
        let method = match doc.get_str("method") {
            Some(text) => String::from_str(text),
            None => {
                return None;
            },
        };
        Some(
            McpRequest {
                jsonrpc,
                id: copy_optional_member(doc, "id"),
                method,
                params: copy_optional_member(doc, "params"),
            },
        )
    }
}

/// An error as a document: `code`, `message`, and `data` where there is
/// any.
pub open spec fn error_value(e: ErrorView) -> JsonValue {
    let base = Map::<Seq<char>, JsonValue>::empty().insert("code"@, JsonValue::Int(e.code)).insert(
        "message"@,
        JsonValue::Str(e.message),
    );
    JsonValue::Object(
        match e.data {
            Some(data) => base.insert("data"@, data),
            None => base,
        },
    )
}

/// A response as a document: `jsonrpc` and `id` always, `null` standing for
/// no id; `result` and `error` only where there is one.
pub open spec fn response_value(r: ResponseView) -> JsonValue {
    let base = Map::<Seq<char>, JsonValue>::empty().insert(
        "jsonrpc"@,
        JsonValue::Str(r.jsonrpc),
    ).insert(
        "id"@,
        match r.id {
            Some(id) => id,
            None => JsonValue::Null,
        },
    );
    let with_result = match r.result {
        Some(result) => base.insert("result"@, result),
        None => base,
    };
    JsonValue::Object(
        match r.error {
            Some(e) => with_result.insert("error"@, error_value(e)),
            None => with_result,
        },
    )
}

impl McpError {
    /// The error as a document.
    pub fn to_json(&self) -> (doc: Json)
        ensures
            doc@ == error_value(self@),
    {
        let mut members: Vec<(String, Json)> = Vec::new();
        assert(members_value(members@) =~= Map::empty());
        push_member(&mut members, "code", Json::Int(self.code as i64));
        push_member(&mut members, "message", Json::Str(self.message.clone()));
        match &self.data {
            Some(data) => {
                push_member(&mut members, "data", data.clone());
            },
            None => {},
        }
        Json::Object(members)
    }
}

/// The response that carries a result.
pub open spec fn success_response(id: Option<JsonValue>, result: JsonValue) -> ResponseView {
    ResponseView { jsonrpc: "2.0"@, id, result: Some(result), error: None }
}

/// The response that carries an error.
pub open spec fn error_response(id: Option<JsonValue>, error: ErrorView) -> ResponseView {
    ResponseView { jsonrpc: "2.0"@, id, result: None, error: Some(error) }
}

impl McpResponse {
    /// The response to a request that succeeded.
    pub fn success(id: Option<Json>, result: Json) -> (r: Self)
        ensures
            r@ == success_response(opt_value(id), result@),
    {
        McpResponse { jsonrpc: String::from_str("2.0"), id, result: Some(result), error: None }
    }

    /// The response to a request that failed.
    pub fn failure(id: Option<Json>, error: McpError) -> (r: Self)
        ensures
            r@ == error_response(opt_value(id), error@),
    {
        McpResponse { jsonrpc: String::from_str("2.0"), id, result: None, error: Some(error) }
    }

    /// The response as a document.
    pub fn to_json(&self) -> (doc: Json)
        ensures
            doc@ == response_value(self@),
    {
        let mut members: Vec<(String, Json)> = Vec::new();
        assert(members_value(members@) =~= Map::empty());
        push_member(&mut members, "jsonrpc", Json::Str(self.jsonrpc.clone()));
        let id = match &self.id {
            Some(id) => id.clone(),
            None => Json::Null,
        };
        push_member(&mut members, "id", id);
        match &self.result {
            Some(result) => {
                push_member(&mut members, "result", result.clone());
            },
            None => {},
        }
        match &self.error {
            Some(e) => {
                push_member(&mut members, "error", e.to_json());
            },
            None => {},
        }
        Json::Object(members)
    }
}

} // verus!
