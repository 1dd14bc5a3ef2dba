use cofer::environment::handle::{EnvironmentHandle, EnvironmentStatus, Timestamp};
use cofer::environment::registry::EnvironmentRegistry;
use cofer::mcp::handlers::{CreateEnvironmentHandler, Handler, Pending, Step};
use cofer::mcp::server::ServerState;
use cofer::json::Json;
use cofer::mcp::server::{McpServer, Turn};
use cofer::mcp::types::{McpRequest, McpResponse};
use cofer::podman::engine::{EngineCall, EngineReply};

fn text(s: &str) -> Json {
    Json::Str(s.to_string())
}

fn object(members: Vec<(&str, Json)>) -> Json {
    Json::Object(members.into_iter().map(|(k, v)| (k.to_string(), v)).collect())
}

fn create_request(id: i64, params: Vec<(&str, Json)>) -> Json {
    object(vec![
        ("jsonrpc", text("2.0")),
        ("id", Json::Int(id)),
        ("method", text("create_environment")),
        ("params", object(params)),
    ])
}

/// A container engine that does everything it is asked, on a host where the
/// paths under `/nonexistent` do not exist.
fn willing_engine(call: &EngineCall) -> EngineReply {
    match call {
        EngineCall::PathExists { path } => EngineReply::Exists(!path.starts_with("/nonexistent")),
        EngineCall::Connect => EngineReply::Done,
        EngineCall::EnsureImage { .. } => EngineReply::Done,
        EngineCall::CreateContainer { name, .. } => EngineReply::Created(format!("ctr-{}", name)),
        EngineCall::StartContainer { .. } => EngineReply::Done,
        EngineCall::RemoveContainer { .. } => EngineReply::Done,
        EngineCall::ExecCommand { .. } => EngineReply::Failed("not scripted".to_string()),
    }
}

/// Runs one request to completion against an engine and returns the response
/// with every piece of work that was asked for.
fn make_request_with(
    server: &mut McpServer,
    request: Json,
    engine: &dyn Fn(&EngineCall) -> EngineReply,
) -> (McpResponse, Vec<EngineCall>) {
    let mut calls = Vec::new();
    let mut turn = server.handle_request(&request.render());
    loop {
        match turn {
            Turn::Respond(response) => return (response, calls),
            Turn::Perform(call) => {
                let reply = engine(&call);
                calls.push(call);
                turn = server.resume(reply);
            }
        }
    }
}

fn make_request(server: &mut McpServer, request: Json) -> McpResponse {
    make_request_with(server, request, &willing_engine).0
}

#[test]
fn create_environment_test_test_create_environment_success() {
    let mut server = McpServer::new();
    let project_root = "/tmp/project";

    let request = create_request(
        1,
        vec![
            ("env_id", text("test-env-1")),
            ("project_root", text(project_root)),
            ("image", text("docker.io/library/alpine:latest")),
        ],
    );

    let response = make_request(&mut server, request);

    assert!(response.result.is_some(), "Expected result, got error: {:?}", response.error);
    assert!(response.error.is_none());

    let result = response.result.unwrap();
    assert!(result.get("env_id").is_some());
    assert_eq!(result.get("env_id"), Some(&text("test-env-1")));
    assert!(result.get("container_id").is_some());
    assert!(result.get("status").is_some());
    assert_eq!(result.get("status"), Some(&text("running")));
}

#[test]
fn test_create_environment_duplicate() {
    let mut server = McpServer::new();
    let project_root = "/tmp/project";

    let request1 = create_request(
        1,
        vec![
            ("env_id", text("test-duplicate")),
            ("project_root", text(project_root)),
            ("image", text("docker.io/library/alpine:latest")),
        ],
    );

    let response1 = make_request(&mut server, request1);
    assert!(response1.result.is_some());

    // Try to create duplicate
    let request2 = create_request(
        2,
        vec![
            ("env_id", text("test-duplicate")),
            ("project_root", text(project_root)),
            ("image", text("docker.io/library/alpine:latest")),
        ],
    );

    let response2 = make_request(&mut server, request2);

    assert!(response2.error.is_some());
    assert!(response2.result.is_none());

    let error = response2.error.unwrap();
    assert_eq!(error.code, -32602); // Invalid params
    assert!(error.message.contains("already exists"));
}

#[test]
fn test_create_environment_missing_params() {
    let mut server = McpServer::new();
    let project_root = "/tmp/project";

    // Missing env_id
    let request1 = create_request(
        1,
        vec![("project_root", text(project_root)), ("image", text("alpine:latest"))],
    );

    let response1 = make_request(&mut server, request1);
    assert!(response1.error.is_some());
    assert_eq!(response1.error.unwrap().code, -32602);

    // Missing project_root
    let request2 =
        create_request(2, vec![("env_id", text("test-env")), ("image", text("alpine:latest"))]);

    let response2 = make_request(&mut server, request2);
    assert!(response2.error.is_some());
    assert_eq!(response2.error.unwrap().code, -32602);

    // Missing image
    let request3 = create_request(
        3,
        vec![("env_id", text("test-env")), ("project_root", text(project_root))],
    );

    let response3 = make_request(&mut server, request3);
    assert!(response3.error.is_some());
    assert_eq!(response3.error.unwrap().code, -32602);
}

#[test]
fn test_create_environment_invalid_path() {
    let mut server = McpServer::new();

    let request = create_request(
        1,
        vec![
            ("env_id", text("test-env")),
            ("project_root", text("/nonexistent/path/to/nowhere")),
            ("image", text("alpine:latest")),
        ],
    );

    let response = make_request(&mut server, request);

    assert!(response.error.is_some());

    let error = response.error.unwrap();
    assert!(error.message.contains("not found") || error.message.contains("does not exist"));
    assert_eq!(error.code, -32602);
    assert_eq!(error.message, "Project root does not exist: /nonexistent/path/to/nowhere");
}

#[test]
fn test_create_environment_with_env_vars() {
    let mut server = McpServer::new();

    let request = create_request(
        1,
        vec![
            ("env_id", text("test-env-vars")),
            ("project_root", text("/tmp/project")),
            ("image", text("alpine:latest")),
            (
                "env_vars",
                object(vec![
                    ("TEST_VAR", text("test_value")),
                    ("ANOTHER_VAR", text("another_value")),
                ]),
            ),
        ],
    );

    let response = make_request(&mut server, request);

    assert!(response.result.is_some());
    let result = response.result.unwrap();
    assert!(result.get("env_vars").is_some());
    assert_eq!(
        result.get("env_vars").unwrap().render(),
        r#"{"ANOTHER_VAR":"another_value","TEST_VAR":"test_value"}"#
    );
}

#[test]
fn test_create_environment_with_ports() {
    let mut server = McpServer::new();

    let request = create_request(
        1,
        vec![
            ("env_id", text("test-ports")),
            ("project_root", text("/tmp/project")),
            ("image", text("alpine:latest")),
            ("ports", Json::Array(vec![text("3000:3000"), text("8080:8080")])),
        ],
    );

    let response = make_request(&mut server, request);

    assert!(response.result.is_some());
    let result = response.result.unwrap();
    assert!(result.get("ports").is_some());
    let ports = result.get("ports").unwrap().as_array().unwrap();
    assert_eq!(ports.len(), 2);
    assert_eq!(ports, &vec![text("3000:3000"), text("8080:8080")]);
}

#[test]
fn test_create_environment_mount_path() {
    let mut server = McpServer::new();

    let request = create_request(
        1,
        vec![
            ("env_id", text("test-mount")),
            ("project_root", text("/tmp/project")),
            ("image", text("alpine:latest")),
            ("mount_path", text("/custom/workdir")),
        ],
    );

    let response = make_request(&mut server, request);

    assert!(response.result.is_some());
    let result = response.result.unwrap();
    assert_eq!(result.get("mount_path"), Some(&text("/custom/workdir")));
}

#[test]
fn test_create_environment_default_mount() {
    let mut server = McpServer::new();

    let request = create_request(
        1,
        vec![
            ("env_id", text("test-default-mount")),
            ("project_root", text("/tmp/project")),
            ("image", text("alpine:latest")),
        ],
    );

    let response = make_request(&mut server, request);

    assert!(response.result.is_some());
    let result = response.result.unwrap();
    assert_eq!(result.get("mount_path"), Some(&text("/workdir")));
}

#[test]
fn end_to_end_create_then_identical_request_is_refused() {
    let mut server = McpServer::new();
    let request = || {
        create_request(
            1,
            vec![
                ("env_id", text("e1")),
                ("project_root", text("/tmp/existing")),
                ("image", text("alpine:latest")),
            ],
        )
    };

    let first = make_request(&mut server, request());
    let result = first.result.unwrap();
    assert_eq!(result.get("status"), Some(&text("running")));
    assert_eq!(result.get("env_id"), Some(&text("e1")));

    let (second, calls) = make_request_with(&mut server, request(), &willing_engine);
    let error = second.error.unwrap();
    assert_eq!(error.code, -32602);
    assert!(error.message.contains("already exists"));
    assert_eq!(error.message, "Environment 'e1' already exists");
    // only the path was looked at; the engine was not touched
    assert_eq!(calls.len(), 1);
    assert!(matches!(calls[0], EngineCall::PathExists { .. }));
    assert_eq!(server.registry().count(), 1);
}

#[test]
fn creation_asks_for_the_steps_in_order() {
    let mut server = McpServer::new();
    let request = create_request(
        7,
        vec![
            ("env_id", text("ordered")),
            ("project_root", text("/srv/app")),
            ("image", text("alpine:3.18")),
            ("mount_path", text("/code")),
            ("env_vars", object(vec![("A", text("1")), ("skipped", Json::Int(5))])),
        ],
    );
    let (response, calls) = make_request_with(&mut server, request, &willing_engine);
    assert_eq!(response.id, Some(Json::Int(7)));
    assert_eq!(calls.len(), 5);
    match &calls[0] {
        EngineCall::PathExists { path } => assert_eq!(path, "/srv/app"),
        other => panic!("unexpected {:?}", other),
    }
    assert!(matches!(calls[1], EngineCall::Connect));
    match &calls[2] {
        EngineCall::EnsureImage { image } => assert_eq!(image, "alpine:3.18"),
        other => panic!("unexpected {:?}", other),
    }
    match &calls[3] {
        EngineCall::CreateContainer { name, image, host_path, mount_path, env_vars } => {
            assert_eq!(name, "ordered");
            assert_eq!(image, "alpine:3.18");
            assert_eq!(host_path, "/srv/app");
            assert_eq!(mount_path, "/code");
            assert_eq!(env_vars.len(), 1);
            assert_eq!(env_vars.get("A"), Some(&"1".to_string()));
        }
        other => panic!("unexpected {:?}", other),
    }
    match &calls[4] {
        EngineCall::StartContainer { container_id } => assert_eq!(container_id, "ctr-ordered"),
        other => panic!("unexpected {:?}", other),
    }

    let handle = server.registry().get("ordered").unwrap();
    assert_eq!(handle.container_id, "ctr-ordered");
    assert_eq!(handle.project_root, "/srv/app");
    assert_eq!(handle.mount_path, "/code");
    assert_eq!(handle.image, "alpine:3.18");
    assert_eq!(handle.status, EnvironmentStatus::Running);
    assert_eq!(handle.env_vars.get("A"), Some(&"1".to_string()));
    assert!(!server.is_busy());
}

#[test]
fn creation_result_is_exact_at_a_given_time() {
    let mut server = McpServer::new();
    let request = create_request(
        1,
        vec![
            ("env_id", text("timed")),
            ("project_root", text("/p")),
            ("image", text("img")),
            ("ports", Json::Array(vec![text("80:80"), Json::Int(1)])),
        ],
    );
    let now = Timestamp { seconds: 1_431_648_000, nanos: 0 };
    let mut turn = server.handle_request(&request.render());
    let response = loop {
        match turn {
            Turn::Respond(response) => break response,
            Turn::Perform(call) => turn = server.resume_at(willing_engine(&call), now),
        }
    };
    assert_eq!(
        response.to_text(),
        [
            r#"{"id":1,"jsonrpc":"2.0","result":{"container_id":"ctr-timed","#,
            r#""created_at":"2015-05-15T00:00:00+00:00","env_id":"timed","mount_path":"/workdir","#,
            r#""ports":["80:80"],"project_root":"/p","status":"running"}}"#,
        ]
        .join("")
    );
    assert_eq!(server.registry().get("timed").unwrap().created_at, now);
}

#[test]
fn a_failed_start_removes_the_container_and_reports_the_start() {
    let mut server = McpServer::new();
    let engine = |call: &EngineCall| match call {
        EngineCall::StartContainer { .. } => EngineReply::Failed("no cgroup".to_string()),
        EngineCall::RemoveContainer { .. } => EngineReply::Failed("already gone".to_string()),
        other => willing_engine(other),
    };
    let request = create_request(
        1,
        vec![("env_id", text("doomed")), ("project_root", text("/p")), ("image", text("img"))],
    );
    let (response, calls) = make_request_with(&mut server, request, &engine);
    let error = response.error.unwrap();
    assert_eq!(error.code, -32603);
    assert_eq!(error.message, "Failed to start container: no cgroup");
    assert_eq!(calls.len(), 6);
    match &calls[5] {
        EngineCall::RemoveContainer { container_id, force } => {
            assert_eq!(container_id, "ctr-doomed");
            assert!(*force);
        }
        other => panic!("unexpected {:?}", other),
    }
    assert_eq!(server.registry().count(), 0);
    assert!(!server.is_busy());
}

#[test]
fn a_failed_step_ends_the_creation_with_an_internal_error() {
    let cases: Vec<(&str, &str, usize)> = vec![
        ("connect", "Failed to connect to Podman: down", 2),
        ("image", "Failed to ensure image: down", 3),
        ("create", "Failed to create container: down", 4),
    ];
    for (failing, message, asked) in cases {
        let mut server = McpServer::new();
        let engine = |call: &EngineCall| {
            let fails = match call {
                EngineCall::Connect => failing == "connect",
                EngineCall::EnsureImage { .. } => failing == "image",
                EngineCall::CreateContainer { .. } => failing == "create",
                _ => false,
            };
            if fails {
                EngineReply::Failed("down".to_string())
            } else {
                willing_engine(call)
            }
        };
        let request = create_request(
            1,
            vec![("env_id", text("x")), ("project_root", text("/p")), ("image", text("img"))],
        );
        let (response, calls) = make_request_with(&mut server, request, &engine);
        let error = response.error.unwrap();
        assert_eq!(error.code, -32603);
        assert_eq!(error.message, message);
        assert_eq!(calls.len(), asked);
        assert_eq!(server.registry().count(), 0);
    }
}

#[test]
fn a_reply_that_does_not_fit_ends_the_creation() {
    let mut server = McpServer::new();
    let engine = |call: &EngineCall| match call {
        EngineCall::Connect => EngineReply::Exists(true),
        other => willing_engine(other),
    };
    let request = create_request(
        1,
        vec![("env_id", text("x")), ("project_root", text("/p")), ("image", text("img"))],
    );
    let (response, _) = make_request_with(&mut server, request, &engine);
    let error = response.error.unwrap();
    assert_eq!(error.code, -32603);
    assert_eq!(error.message, "Unexpected reply from the container engine");
}

#[test]
fn one_request_at_a_time() {
    let mut server = McpServer::new();
    let request = create_request(
        1,
        vec![("env_id", text("x")), ("project_root", text("/p")), ("image", text("img"))],
    );
    assert!(matches!(server.handle_request(&request.render()), Turn::Perform(_)));
    assert!(server.is_busy());
    match server.handle_request(&request.render()) {
        Turn::Respond(response) => {
            assert_eq!(response.id, Some(Json::Int(1)));
            let error = response.error.unwrap();
            assert_eq!(error.code, -32600);
            assert_eq!(error.message, "A request is still in progress");
        }
        Turn::Perform(call) => panic!("unexpected {:?}", call),
    }
    assert!(server.is_busy());
    match server.handle_request("not json") {
        Turn::Respond(response) => {
            assert_eq!(response.id, None);
            assert_eq!(response.error.unwrap().code, -32600);
        }
        Turn::Perform(call) => panic!("unexpected {:?}", call),
    }
    assert!(server.is_busy());
    // the request in progress goes on to its end
    let mut turn = server.resume(EngineReply::Exists(true));
    let response = loop {
        match turn {
            Turn::Respond(response) => break response,
            Turn::Perform(call) => turn = server.resume(willing_engine(&call)),
        }
    };
    assert_eq!(response.id, Some(Json::Int(1)));
    assert!(response.result.is_some());
    assert!(!server.is_busy());

    let mut idle = McpServer::new();
    match idle.resume(EngineReply::Done) {
        Turn::Respond(response) => {
            let error = response.error.unwrap();
            assert_eq!(error.code, -32603);
            assert_eq!(error.message, "No request is in progress");
        }
        Turn::Perform(call) => panic!("unexpected {:?}", call),
    }
}

#[test]
fn shutdown_hands_back_the_environments() {
    let mut server = McpServer::new();
    for id in ["a", "b"] {
        let request = create_request(
            1,
            vec![("env_id", text(id)), ("project_root", text("/p")), ("image", text("img"))],
        );
        assert!(make_request(&mut server, request).result.is_some());
    }
    let mut removed: Vec<String> = server.shutdown().into_iter().map(|h| h.env_id).collect();
    removed.sort();
    assert_eq!(removed, vec!["a", "b"]);
    assert_eq!(server.registry().count(), 0);
}

#[test]
fn an_id_taken_between_lookup_and_registration_is_a_refused_parameter() {
    let request = McpRequest {
        jsonrpc: "2.0".to_string(),
        id: Some(Json::Int(1)),
        method: "create_environment".to_string(),
        params: Some(object(vec![
            ("env_id", text("E")),
            ("project_root", text("/p")),
            ("image", text("img")),
        ])),
    };
    let mut registry = EnvironmentRegistry::new();
    let now = Timestamp { seconds: 10, nanos: 0 };
    let (pending, mut step) = CreateEnvironmentHandler.handle(&request, &ServerState::new());
    let mut flow = match pending {
        Some(Pending::Create(flow)) => flow,
        other => panic!("unexpected {:?}", other),
    };
    let mut asked = 0;
    let outcome = loop {
        let call = match step {
            Step::Perform(call) => call,
            Step::Finish(result) => break result,
        };
        asked += 1;
        if let EngineCall::StartContainer { .. } = &call {
            // another caller registers the id while the container starts
            let other = EnvironmentHandle::new("E", "ctr-other", "/elsewhere", "img");
            registry.register(other).unwrap();
        }
        let (next, then) = flow.advance_at(willing_engine(&call), &mut registry, now);
        step = then;
        flow = match next {
            Some(flow) => flow,
            None => match step {
                Step::Finish(result) => break result,
                Step::Perform(call) => panic!("work without a flow: {:?}", call),
            },
        };
    };
    assert_eq!(asked, 5);
    let error = outcome.unwrap_err();
    assert_eq!(error.code, -32602);
    assert!(error.message.contains("already exists"));
    assert_eq!(error.message, "Environment 'E' already exists");
    assert_eq!(registry.count(), 1);
    let kept = registry.get("E").unwrap();
    assert_eq!(kept.container_id, "ctr-other");
    assert_eq!(kept.project_root, "/elsewhere");
}
