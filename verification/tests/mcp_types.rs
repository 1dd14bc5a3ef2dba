use cofer::json::Json;
use cofer::mcp::types::{McpError, McpRequest, McpResponse};

fn text(s: &str) -> Json {
    Json::Str(s.to_string())
}

fn object(members: Vec<(&str, Json)>) -> Json {
    Json::Object(members.into_iter().map(|(k, v)| (k.to_string(), v)).collect())
}

#[test]
fn test_mcp_request_deserialization() {
    let json_str = r#"{
            "jsonrpc": "2.0",
            "id": 1,
            "method": "test_method",
            "params": {"key": "value"}
        }"#;

    let doc = Json::parse(json_str).unwrap();
    let request = McpRequest::from_json(&doc).unwrap();
    assert_eq!(request.jsonrpc, "2.0");
    assert_eq!(request.id, Some(Json::Int(1)));
    assert_eq!(request.method, "test_method");
    assert_eq!(request.params, Some(object(vec![("key", text("value"))])));
}

#[test]
fn test_mcp_response_serialization() {
    let response = McpResponse {
        jsonrpc: "2.0".to_string(),
        id: Some(Json::Int(1)),
        result: Some(object(vec![("status", text("ok"))])),
        error: None,
    };

    let json_str = response.to_text();
    assert!(json_str.contains("\"jsonrpc\":\"2.0\""));
    assert!(json_str.contains("\"id\":1"));
    assert!(json_str.contains("\"result\""));
    assert!(!json_str.contains("\"error\""));
}

#[test]
fn test_mcp_error_serialization() {
    let response = McpResponse {
        jsonrpc: "2.0".to_string(),
        id: Some(Json::Int(1)),
        result: None,
        error: Some(McpError::invalid_request("Missing required field")),
    };

    let json_str = response.to_text();
    assert!(json_str.contains("\"error\""));
    assert!(json_str.contains("-32600"));
    assert!(!json_str.contains("\"result\""));
}

#[test]
fn test_error_constructors() {
    let err = McpError::invalid_request("test");
    assert_eq!(err.code, -32600);

    let err = McpError::method_not_found("unknown");
    assert_eq!(err.code, -32601);
    assert!(err.message.contains("unknown"));

    let err = McpError::invalid_params("bad params");
    assert_eq!(err.code, -32602);

    let err = McpError::internal_error("internal");
    assert_eq!(err.code, -32603);
}

#[test]
fn error_constructors_give_exact_errors() {
    assert_eq!(
        McpError::invalid_request("test"),
        McpError { code: -32600, message: "test".to_string(), data: None }
    );
    assert_eq!(
        McpError::method_not_found("unknown"),
        McpError { code: -32601, message: "Method 'unknown' not found".to_string(), data: None }
    );
    assert_eq!(
        McpError::invalid_params("bad params"),
        McpError { code: -32602, message: "bad params".to_string(), data: None }
    );
    assert_eq!(
        McpError::internal_error("internal"),
        McpError { code: -32603, message: "internal".to_string(), data: None }
    );
}

#[test]
fn error_prints_code_and_message() {
    assert_eq!(McpError::invalid_request("bad").to_text(), "[-32600] bad");
    let e = McpError { code: 7, message: "seven".to_string(), data: None };
    assert_eq!(e.to_text(), "[7] seven");
    let zero = McpError { code: 0, message: String::new(), data: None };
    assert_eq!(zero.to_text(), "[0] ");
    let least = McpError { code: i32::MIN, message: "m".to_string(), data: None };
    assert_eq!(least.to_text(), "[-2147483648] m");
}

#[test]
fn response_text_is_exact() {
    let ok = McpResponse::success(Some(Json::Int(3)), object(vec![("a", Json::Bool(true))]));
    assert_eq!(ok.to_text(), r#"{"id":3,"jsonrpc":"2.0","result":{"a":true}}"#);

    let failed = McpResponse::failure(None, McpError::invalid_params("Missing env_id"));
    assert_eq!(
        failed.to_text(),
        r#"{"error":{"code":-32602,"message":"Missing env_id"},"id":null,"jsonrpc":"2.0"}"#
    );

    let with_data = McpResponse::failure(
        Some(text("abc")),
        McpError { code: -32603, message: "m".to_string(), data: Some(Json::Array(vec![Json::Null])) },
    );
    assert_eq!(
        with_data.to_text(),
        r#"{"error":{"code":-32603,"data":[null],"message":"m"},"id":"abc","jsonrpc":"2.0"}"#
    );
}

#[test]
fn request_needs_version_and_method_as_strings() {
    let no_method = object(vec![("jsonrpc", text("2.0")), ("id", Json::Int(2))]);
    assert_eq!(McpRequest::from_json(&no_method), None);

    let no_version = object(vec![("method", text("initialize"))]);
    assert_eq!(McpRequest::from_json(&no_version), None);

    let numeric_method = object(vec![("jsonrpc", text("2.0")), ("method", Json::Int(1))]);
    assert_eq!(McpRequest::from_json(&numeric_method), None);

    assert_eq!(McpRequest::from_json(&Json::Array(vec![])), None);
    assert_eq!(McpRequest::from_json(&Json::Null), None);
}

#[test]
fn request_id_and_params_may_be_left_out_or_null() {
    let bare = object(vec![("jsonrpc", text("2.0")), ("method", text("m"))]);
    assert_eq!(
        McpRequest::from_json(&bare),
        Some(McpRequest {
            jsonrpc: "2.0".to_string(),
            id: None,
            method: "m".to_string(),
            params: None
        })
    );

    let nulls = object(vec![
        ("jsonrpc", text("1.0")),
        ("method", text("m")),
        ("id", Json::Null),
        ("params", Json::Null),
        ("extra", Json::Int(5)),
    ]);
    assert_eq!(
        McpRequest::from_json(&nulls),
        Some(McpRequest {
            jsonrpc: "1.0".to_string(),
            id: None,
            method: "m".to_string(),
            params: None
        })
    );

    let text_id = object(vec![
        ("jsonrpc", text("2.0")),
        ("method", text("m")),
        ("id", text("req-7")),
        ("params", Json::Array(vec![Json::Int(1)])),
    ]);
    let request = McpRequest::from_json(&text_id).unwrap();
    assert_eq!(request.id, Some(text("req-7")));
    assert_eq!(request.params, Some(Json::Array(vec![Json::Int(1)])));
}
