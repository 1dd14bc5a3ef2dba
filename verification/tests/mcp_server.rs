use cofer::json::Json;
use cofer::mcp::server::{after_read, route, LoopAction, McpServer, Route, Turn};
use cofer::mcp::transport::{frame_message, read_message, TransportError};
use cofer::mcp::types::McpResponse;

fn text(s: &str) -> Json {
    Json::Str(s.to_string())
}

fn object(members: Vec<(&str, Json)>) -> Json {
    Json::Object(members.into_iter().map(|(k, v)| (k.to_string(), v)).collect())
}

fn request(id: i64, method: &str, params: Json) -> Json {
    object(vec![
        ("jsonrpc", text("2.0")),
        ("id", Json::Int(id)),
        ("method", text(method)),
        ("params", params),
    ])
}

fn respond(server: &mut McpServer, input: &str) -> McpResponse {
    match server.handle_request(input) {
        Turn::Respond(response) => response,
        Turn::Perform(call) => panic!("expected a response, got work: {:?}", call),
    }
}

/// Sends a framed request through the whole server path and reads the framed
/// response back as a document.
fn send_jsonrpc_request(request: Json) -> Json {
    let mut server = McpServer::new();
    let incoming = frame_message(request.render().as_bytes());
    let frame = read_message(&incoming);
    let payload = frame.message.unwrap().unwrap();
    let response = respond(&mut server, &payload);
    let outgoing = frame_message(response.to_text().as_bytes());
    let reply = read_message(&outgoing);
    assert_eq!(reply.consumed, outgoing.len());
    Json::parse(&reply.message.unwrap().unwrap()).unwrap()
}

#[test]
fn test_server_creation() {
    let server = McpServer::new();
    assert!(server.has_method("initialize"));
    assert!(server.has_method("create_environment"));
    assert!(server.has_method("run_command"));
    assert!(!server.has_method("nope"));
    assert_eq!(server.registry().count(), 0);
    assert!(!server.is_busy());
}

#[test]
fn test_invalid_json_handling() {
    let mut server = McpServer::new();
    let response = respond(&mut server, "invalid json");

    assert_eq!(response.jsonrpc, "2.0");
    assert!(response.error.is_some());
    assert_eq!(response.error.unwrap().code, -32600);
}

#[test]
fn test_valid_request_structure() {
    let mut server = McpServer::new();
    let request = request(1, "initialize", object(vec![]));

    let response = respond(&mut server, &request.render());
    assert_eq!(response.jsonrpc, "2.0");
    assert_eq!(response.id, Some(Json::Int(1)));
}

#[test]
fn test_unknown_method() {
    let mut server = McpServer::new();
    let request = request(1, "unknown_method", object(vec![]));

    let response = respond(&mut server, &request.render());
    assert!(response.error.is_some());
    assert_eq!(response.error.unwrap().code, -32601);
}

#[test]
fn test_unimplemented_method() {
    let mut server = McpServer::new();
    let request = request(1, "watch-commit", object(vec![]));

    let response = respond(&mut server, &request.render());
    assert!(response.error.is_some());

    let error = response.error.unwrap();
    assert_eq!(error.code, -32601); // Unimplemented methods return MethodNotFound
    assert!(error.message.to_lowercase().contains("unimplemented"));
}

#[test]
fn test_valid_jsonrpc_request_returns_response() {
    let request = request(
        1,
        "initialize",
        object(vec![
            ("protocolVersion", text("0.1.0")),
            ("capabilities", object(vec![])),
            ("clientInfo", object(vec![("name", text("test-client")), ("version", text("0.1.0"))])),
        ]),
    );

    let response = send_jsonrpc_request(request);

    assert_eq!(response.get("jsonrpc"), Some(&text("2.0")));
    assert_eq!(response.get("id"), Some(&Json::Int(1)));
    assert!(response.get("result").is_some() || response.get("error").is_some());
}

#[test]
fn test_invalid_json_returns_parse_error() {
    let request = object(vec![("not_jsonrpc", text("missing required fields"))]);

    let response = send_jsonrpc_request(request);

    assert!(response.get("error").is_some());

    let error = response.get("error").unwrap();
    assert_eq!(error.get("code"), Some(&Json::Int(-32600))); // InvalidRequest
    assert!(error.get_str("message").unwrap().contains("Invalid"));
}

#[test]
fn test_missing_method_returns_error() {
    let request =
        object(vec![("jsonrpc", text("2.0")), ("id", Json::Int(2)), ("params", object(vec![]))]);

    let response = send_jsonrpc_request(request);

    assert!(response.get("error").is_some());

    let error = response.get("error").unwrap();
    assert_eq!(error.get("code"), Some(&Json::Int(-32600))); // InvalidRequest
}

#[test]
fn test_unimplemented_method_returns_unimplemented_error() {
    let request = request(3, "watch-commit", object(vec![]));

    let response = send_jsonrpc_request(request);

    assert!(response.get("error").is_some());

    let error = response.get("error").unwrap();
    assert_eq!(error.get("code"), Some(&Json::Int(-32601)));
    assert!(error.get_str("message").unwrap().to_lowercase().contains("unimplemented"));
}

#[test]
fn test_create_environment_method_exists() {
    let mut server = McpServer::new();
    let request = request(
        4,
        "create_environment",
        object(vec![
            ("project_root", text("/tmp/test")),
            ("env_id", text("test-env")),
            ("image", text("alpine:latest")),
        ]),
    );

    // The method exists: the server goes to work instead of refusing it.
    match server.handle_request(&request.render()) {
        Turn::Perform(_) => assert!(server.is_busy()),
        Turn::Respond(response) => {
            assert_eq!(response.jsonrpc, "2.0");
            assert_eq!(response.id, Some(Json::Int(4)));
            if let Some(error) = response.error {
                assert_ne!(error.code, -32601);
            }
        }
    }
}

#[test]
fn test_run_command_method_exists() {
    let request = request(
        5,
        "run_command",
        object(vec![
            ("env_id", text("test-env")),
            ("cmd", Json::Array(vec![text("echo"), text("hello")])),
        ]),
    );

    let response = send_jsonrpc_request(request);

    assert_eq!(response.get("jsonrpc"), Some(&text("2.0")));
    assert_eq!(response.get("id"), Some(&Json::Int(5)));

    // If error, it should not be MethodNotFound
    if let Some(error) = response.get("error") {
        assert_ne!(error.get("code"), Some(&Json::Int(-32601)));
    }
}

#[test]
fn test_mcp_server_with_content_length() {
    let request = request(
        1,
        "initialize",
        object(vec![
            ("protocolVersion", text("0.1.0")),
            ("capabilities", object(vec![])),
            ("clientInfo", object(vec![("name", text("test-client")), ("version", text("0.1.0"))])),
        ]),
    );

    let response = send_jsonrpc_request(request);

    assert_eq!(response.get("jsonrpc"), Some(&text("2.0")));
    assert_eq!(response.get("id"), Some(&Json::Int(1)));
    assert!(response.get("result").is_some() || response.get("error").is_some());

    if let Some(result) = response.get("result") {
        assert!(result.get("serverInfo").is_some());
        assert!(result.get("capabilities").is_some());
    }
}

#[test]
fn test_mcp_server_invalid_request_with_headers() {
    let request = object(vec![("not_jsonrpc", text("invalid"))]);

    let response = send_jsonrpc_request(request);

    assert_eq!(response.get("jsonrpc"), Some(&text("2.0")));
    assert!(response.get("error").is_some());
    assert_eq!(response.get("error").unwrap().get("code"), Some(&Json::Int(-32600)));
}

#[test]
fn test_mcp_server_method_not_found_with_headers() {
    let request = request(2, "unknown_method", object(vec![]));

    let response = send_jsonrpc_request(request);

    assert_eq!(response.get("jsonrpc"), Some(&text("2.0")));
    assert_eq!(response.get("id"), Some(&Json::Int(2)));
    assert!(response.get("error").is_some());
    assert_eq!(response.get("error").unwrap().get("code"), Some(&Json::Int(-32601)));
}

#[test]
fn invalid_payload_is_answered_under_a_null_id() {
    let mut server = McpServer::new();
    let response = respond(&mut server, "{ invalid json }");
    assert_eq!(response.id, None);
    assert_eq!(response.result, None);
    let error = response.error.unwrap();
    assert_eq!(error.code, -32600);
    assert!(error.message.starts_with("Invalid JSON: "));
    assert!(error.message.len() > "Invalid JSON: ".len());

    let no_envelope = respond(&mut server, "[1,2,3]");
    assert_eq!(no_envelope.id, None);
    let error = no_envelope.error.unwrap();
    assert_eq!(error.code, -32600);
    assert_eq!(error.message, "Invalid JSON: not a request envelope");
}

#[test]
fn wrong_version_is_refused_under_the_request_id() {
    let mut server = McpServer::new();
    let request = object(vec![
        ("jsonrpc", text("1.0")),
        ("id", text("abc")),
        ("method", text("initialize")),
    ]);
    let response = respond(&mut server, &request.render());
    assert_eq!(response.id, Some(text("abc")));
    assert_eq!(response.result, None);
    let error = response.error.unwrap();
    assert_eq!(error.code, -32600);
    assert_eq!(error.message, "Invalid JSON-RPC version");
}

#[test]
fn unknown_method_names_the_method() {
    let mut server = McpServer::new();
    let response = respond(&mut server, &request(9, "frobnicate", Json::Null).render());
    assert_eq!(response.id, Some(Json::Int(9)));
    let error = response.error.unwrap();
    assert_eq!(error.code, -32601);
    assert_eq!(error.message, "Method 'frobnicate' not found");
}

#[test]
fn every_unimplemented_method_says_so() {
    for method in ["watch-commit", "note-append", "up", "down"] {
        let mut server = McpServer::new();
        let response = respond(&mut server, &request(1, method, Json::Null).render());
        let error = response.error.unwrap();
        assert_eq!(error.code, -32601);
        assert_eq!(error.message, format!("Method '{}' is unimplemented", method));
    }
}

#[test]
fn initialize_returns_the_descriptor() {
    let mut server = McpServer::new();
    let response = respond(&mut server, &request(1, "initialize", Json::Null).render());
    assert_eq!(response.error, None);
    let result = response.result.unwrap();
    assert_eq!(
        result.render(),
        concat_parts(&[
            r#"{"capabilities":{"tools":["#,
            r#"{"description":"Create a new container environment","name":"create_environment"},"#,
            r#"{"description":"Execute a command in an environment","name":"run_command"}]},"#,
            r#""protocolVersion":"0.1.0","serverInfo":{"name":"cofer","version":"0.1.0"}}"#,
        ])
    );
    assert_eq!(server.registry().count(), 0);
}

fn concat_parts(parts: &[&str]) -> String {
    parts.iter().map(|p| p.to_string()).collect::<Vec<String>>().join("")
}

#[test]
fn routing_table_is_fixed() {
    assert_eq!(route("initialize"), Some(Route::Initialize));
    assert_eq!(route("create_environment"), Some(Route::CreateEnvironment));
    assert_eq!(route("run_command"), Some(Route::RunCommand));
    assert_eq!(route("watch-commit"), Some(Route::Unimplemented));
    assert_eq!(route("note-append"), Some(Route::Unimplemented));
    assert_eq!(route("up"), Some(Route::Unimplemented));
    assert_eq!(route("down"), Some(Route::Unimplemented));
    assert_eq!(route("Initialize"), None);
    assert_eq!(route(""), None);
}

#[test]
fn the_loop_stops_skips_or_processes() {
    assert_eq!(after_read(true, Ok(Some("x".to_string()))), LoopAction::Stop);
    assert_eq!(after_read(true, Err(TransportError::Truncated)), LoopAction::Stop);
    assert_eq!(after_read(false, Ok(None)), LoopAction::Stop);
    assert_eq!(after_read(false, Err(TransportError::InvalidLength)), LoopAction::Skip);
    assert_eq!(after_read(false, Err(TransportError::InvalidUtf8)), LoopAction::Skip);
    assert_eq!(after_read(false, Err(TransportError::ReadFailed)), LoopAction::Skip);
    assert_eq!(after_read(true, Err(TransportError::ReadFailed)), LoopAction::Stop);
    assert_eq!(
        after_read(false, Ok(Some("payload".to_string()))),
        LoopAction::Process("payload".to_string())
    );
}

#[test]
fn requests_on_one_stream_are_answered_in_order() {
    let mut server = McpServer::new();
    let mut stream = Vec::new();
    for (id, method) in [(1, "initialize"), (2, "nope"), (3, "up")] {
        stream.extend_from_slice(&frame_message(
            request(id, method, Json::Null).render().as_bytes(),
        ));
    }
    let mut at = 0;
    let mut ids = Vec::new();
    loop {
        let frame = read_message(&stream[at..]);
        at += frame.consumed;
        match after_read(false, frame.message) {
            LoopAction::Stop => break,
            LoopAction::Skip => continue,
            LoopAction::Process(payload) => ids.push(respond(&mut server, &payload).id),
        }
    }
    assert_eq!(ids, vec![Some(Json::Int(1)), Some(Json::Int(2)), Some(Json::Int(3))]);
    assert_eq!(at, stream.len());
}

#[test]
fn shutdown_clears_the_registry() {
    let mut server = McpServer::new();
    assert!(server.shutdown().is_empty());
    assert_eq!(server.registry().count(), 0);
    assert!(!server.is_busy());
}
