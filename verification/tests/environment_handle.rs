use cofer::environment::handle::{EnvironmentHandle, EnvironmentStatus, Timestamp};
use cofer::environment::vars::EnvVars;
use cofer::json::Json;

fn vars_of(pairs: Vec<(&str, &str)>) -> EnvVars {
    let mut vars = EnvVars::new();
    for (name, value) in pairs {
        vars.insert(name.to_string(), value.to_string());
    }
    vars
}

#[test]
fn test_environment_handle_creation() {
    let handle =
        EnvironmentHandle::new("test-env", "container-123", "/home/user/project", "alpine:latest");

    assert_eq!(handle.env_id, "test-env");
    assert_eq!(handle.container_id, "container-123");
    assert_eq!(handle.project_root, "/home/user/project");
    assert_eq!(handle.mount_path, "/workdir");
    assert_eq!(handle.status, EnvironmentStatus::Creating);
    assert_eq!(handle.image, "alpine:latest");
    assert!(handle.env_vars.is_empty());

    // Created_at should be recent
    let now = chrono::Utc::now();
    let diff = now.timestamp() - handle.created_at.seconds;
    assert!(diff < 2);
    assert!(diff >= 0);
}

#[test]
fn test_status_updates() {
    let mut handle =
        EnvironmentHandle::new("test-env", "container-123", "/home/user/project", "alpine:latest");

    assert_eq!(handle.status, EnvironmentStatus::Creating);
    assert!(!handle.is_running());
    assert!(!handle.is_error());

    handle.set_status(EnvironmentStatus::Running);
    assert_eq!(handle.status, EnvironmentStatus::Running);
    assert!(handle.is_running());
    assert!(!handle.is_error());

    handle.set_status(EnvironmentStatus::Error("Failed".to_string()));
    assert!(!handle.is_running());
    assert!(handle.is_error());
}

#[test]
fn test_env_vars_management() {
    let mut handle =
        EnvironmentHandle::new("test-env", "container-123", "/home/user/project", "alpine:latest");

    assert!(handle.env_vars.is_empty());

    let vars = vars_of(vec![("VAR1", "value1"), ("VAR2", "value2")]);

    handle.add_env_vars(&vars);
    assert_eq!(handle.env_vars.len(), 2);
    assert_eq!(handle.env_vars.get("VAR1"), Some(&"value1".to_string()));
    assert_eq!(handle.env_vars.get("VAR2"), Some(&"value2".to_string()));

    // Add more vars
    let more_vars = vars_of(vec![("VAR3", "value3")]);

    handle.add_env_vars(&more_vars);
    assert_eq!(handle.env_vars.len(), 3);
}

#[test]
fn handle_created_at_keeps_every_field() {
    let at = Timestamp { seconds: 1_700_000_000, nanos: 5 };
    let handle = EnvironmentHandle::created_at("e", "c", "/p", "img:1", at);
    assert_eq!(handle.env_id, "e");
    assert_eq!(handle.container_id, "c");
    assert_eq!(handle.project_root, "/p");
    assert_eq!(handle.image, "img:1");
    assert_eq!(handle.created_at, at);
    assert_eq!(handle.mount_path, "/workdir");
    assert_eq!(handle.status, EnvironmentStatus::Creating);
}

#[test]
fn handle_clone_is_equal_in_every_field() {
    let mut handle = EnvironmentHandle::created_at(
        "e",
        "c",
        "/p",
        "img:1",
        Timestamp { seconds: 7, nanos: 9 },
    );
    handle.add_env_vars(&vars_of(vec![("A", "1")]));
    handle.set_status(EnvironmentStatus::Error("boom".to_string()));
    let copy = handle.clone();
    assert_eq!(copy.env_id, handle.env_id);
    assert_eq!(copy.container_id, handle.container_id);
    assert_eq!(copy.project_root, handle.project_root);
    assert_eq!(copy.mount_path, handle.mount_path);
    assert_eq!(copy.created_at, handle.created_at);
    assert_eq!(copy.status, handle.status);
    assert_eq!(copy.image, handle.image);
    assert_eq!(copy.env_vars.get("A"), Some(&"1".to_string()));
    assert_eq!(copy.env_vars.len(), 1);
}

#[test]
fn add_env_vars_replaces_a_value_that_was_set() {
    let mut handle = EnvironmentHandle::new("e", "c", "/p", "img");
    handle.add_env_vars(&vars_of(vec![("A", "1"), ("B", "2")]));
    handle.add_env_vars(&vars_of(vec![("A", "3")]));
    assert_eq!(handle.env_vars.len(), 2);
    assert_eq!(handle.env_vars.get("A"), Some(&"3".to_string()));
    assert_eq!(handle.env_vars.get("B"), Some(&"2".to_string()));
}

#[test]
fn env_vars_insert_get_remove() {
    let mut vars = EnvVars::new();
    assert!(vars.is_empty());
    assert_eq!(vars.get("A"), None);
    vars.insert("A".to_string(), "1".to_string());
    vars.insert("B".to_string(), "2".to_string());
    vars.insert("A".to_string(), "9".to_string());
    assert_eq!(vars.len(), 2);
    assert_eq!(vars.get("A"), Some(&"9".to_string()));
    vars.remove("A");
    assert_eq!(vars.len(), 1);
    assert_eq!(vars.get("A"), None);
    vars.remove("missing");
    assert_eq!(vars.len(), 1);
    let mut pairs = vars.to_pairs();
    pairs.sort();
    assert_eq!(pairs, vec![("B".to_string(), "2".to_string())]);
    let copy = vars.duplicate();
    assert_eq!(copy.get("B"), Some(&"2".to_string()));
    assert_eq!(copy.len(), 1);
}

#[test]
fn status_is_described_and_tagged() {
    assert_eq!(EnvironmentStatus::Creating.describe(), "Creating");
    assert_eq!(EnvironmentStatus::Running.describe(), "Running");
    assert_eq!(EnvironmentStatus::Stopping.describe(), "Stopping");
    assert_eq!(EnvironmentStatus::Stopped.describe(), "Stopped");
    assert_eq!(
        EnvironmentStatus::Error("bad \"x\"".to_string()).describe(),
        "Error(\"bad \\\"x\\\"\")"
    );
    assert_eq!(EnvironmentStatus::Creating.tag(), "creating");
    assert_eq!(EnvironmentStatus::Running.tag(), "running");
    assert_eq!(EnvironmentStatus::Stopping.tag(), "stopping");
    assert_eq!(EnvironmentStatus::Stopped.tag(), "stopped");
    assert_eq!(EnvironmentStatus::Error("x".to_string()).tag(), "error");
    assert!(EnvironmentStatus::Error("a".to_string())
        .same_as(&EnvironmentStatus::Error("a".to_string())));
    assert!(!EnvironmentStatus::Error("a".to_string())
        .same_as(&EnvironmentStatus::Error("b".to_string())));
    assert!(!EnvironmentStatus::Running.same_as(&EnvironmentStatus::Stopped));
}

#[test]
fn timestamp_formats_as_rfc3339() {
    let at = Timestamp { seconds: 1_431_648_000, nanos: 0 };
    assert_eq!(at.to_rfc3339(), Some("2015-05-15T00:00:00+00:00".to_string()));
    let with_nanos = Timestamp { seconds: 0, nanos: 500_000_000 };
    assert_eq!(with_nanos.to_rfc3339(), Some("1970-01-01T00:00:00.500+00:00".to_string()));
    let out_of_range = Timestamp { seconds: i64::MAX, nanos: 0 };
    assert_eq!(out_of_range.to_rfc3339(), None);
    assert_eq!(out_of_range.to_rfc3339_zulu(), None);
    assert_eq!(at.to_rfc3339_zulu(), Some("2015-05-15T00:00:00Z".to_string()));
    assert_eq!(with_nanos.to_rfc3339_zulu(), Some("1970-01-01T00:00:00.500Z".to_string()));
    let fine = Timestamp { seconds: -1, nanos: 123_456_789 };
    assert_eq!(fine.to_rfc3339_zulu(), Some("1969-12-31T23:59:59.123456789Z".to_string()));
    let far = Timestamp { seconds: 8_210_266_876_799, nanos: 0 };
    assert_eq!(far.to_rfc3339_zulu(), Some("+262142-12-31T23:59:59Z".to_string()));
    assert_eq!(far.to_rfc3339(), Some("+262142-12-31T23:59:59+00:00".to_string()));
}

#[test]
fn test_environment_handle_serialization() {
    let mut handle =
        EnvironmentHandle::new("test-env", "container-123", "/home/user/project", "alpine:latest");

    handle.add_env_vars(&vars_of(vec![("KEY", "VALUE")]));

    let json = handle.to_json().render();
    assert!(json.contains("\"env_id\":\"test-env\""));
    assert!(json.contains("\"container_id\":\"container-123\""));
    assert!(json.contains("\"mount_path\":\"/workdir\""));
    assert!(json.contains("\"status\":\"creating\""));
    assert!(json.contains("\"KEY\":\"VALUE\""));

    // Deserialize back
    let restored = EnvironmentHandle::from_json(&Json::parse(&json).unwrap()).unwrap();
    assert_eq!(restored.env_id, handle.env_id);
    assert_eq!(restored.container_id, handle.container_id);
    assert_eq!(restored.status, handle.status);
}

#[test]
fn test_environment_status_serialization() {
    let statuses = vec![
        EnvironmentStatus::Creating,
        EnvironmentStatus::Running,
        EnvironmentStatus::Stopping,
        EnvironmentStatus::Stopped,
        EnvironmentStatus::Error("test error".to_string()),
    ];

    for status in statuses {
        let json = status.to_json().render();
        let restored = EnvironmentStatus::from_json(&Json::parse(&json).unwrap()).unwrap();
        assert_eq!(status, restored);
    }

    // Check lowercase serialization
    let json = EnvironmentStatus::Running.to_json().render();
    assert_eq!(json, "\"running\"");
}

#[test]
fn a_handle_is_written_and_read_back_in_every_field() {
    let mut handle = EnvironmentHandle::created_at(
        "e",
        "c",
        "/p",
        "img:1",
        Timestamp { seconds: 1_431_648_000, nanos: 250_000_000 },
    );
    handle.mount_path = "/code".to_string();
    handle.set_status(EnvironmentStatus::Error("boom".to_string()));
    handle.add_env_vars(&vars_of(vec![("A", "1"), ("B", "2")]));
    let doc = handle.to_json();
    assert_eq!(
        doc.render(),
        [
            r#"{"container_id":"c","created_at":"2015-05-15T00:00:00.250Z","env_id":"e","#,
            r#""env_vars":{"A":"1","B":"2"},"image":"img:1","mount_path":"/code","#,
            r#""project_root":"/p","status":{"error":"boom"}}"#,
        ]
        .join("")
    );
    let back = EnvironmentHandle::from_json(&doc).unwrap();
    assert_eq!(back.env_id, "e");
    assert_eq!(back.container_id, "c");
    assert_eq!(back.project_root, "/p");
    assert_eq!(back.mount_path, "/code");
    assert_eq!(back.created_at, handle.created_at);
    assert_eq!(back.status, EnvironmentStatus::Error("boom".to_string()));
    assert_eq!(back.image, "img:1");
    assert_eq!(back.env_vars.len(), 2);
    assert_eq!(back.env_vars.get("A"), Some(&"1".to_string()));
    assert_eq!(back.env_vars.get("B"), Some(&"2".to_string()));
}

#[test]
fn a_document_that_is_no_handle_is_not_read() {
    let good = EnvironmentHandle::created_at("e", "c", "/p", "i", Timestamp { seconds: 0, nanos: 0 })
        .to_json();
    let members = match &good {
        Json::Object(members) => members.clone(),
        other => panic!("unexpected {:?}", other),
    };
    assert!(EnvironmentHandle::from_json(&good).is_some());
    for required in
        ["env_id", "container_id", "project_root", "mount_path", "created_at", "status", "image"]
    {
        let without: Vec<(String, Json)> =
            members.iter().filter(|(k, _)| k != required).cloned().collect();
        assert!(EnvironmentHandle::from_json(&Json::Object(without)).is_none(), "{}", required);
    }
    let without_vars: Vec<(String, Json)> =
        members.iter().filter(|(k, _)| k != "env_vars").cloned().collect();
    let read = EnvironmentHandle::from_json(&Json::Object(without_vars)).unwrap();
    assert!(read.env_vars.is_empty());

    let replace = |key: &str, value: Json| {
        let mut changed = members.clone();
        changed.push((key.to_string(), value));
        EnvironmentHandle::from_json(&Json::Object(changed))
    };
    assert!(replace("created_at", Json::Str("yesterday".to_string())).is_none());
    assert!(replace("status", Json::Str("RUNNING".to_string())).is_none());
    assert!(replace("env_vars", Json::Array(vec![])).is_none());
    assert!(replace(
        "env_vars",
        Json::Object(vec![("A".to_string(), Json::Int(1))])
    )
    .is_none());
    assert!(replace("env_id", Json::Int(1)).is_none());
    assert!(EnvironmentHandle::from_json(&Json::Null).is_none());
}

#[test]
fn a_document_that_is_no_status_is_not_read() {
    let object = |members: Vec<(&str, Json)>| {
        Json::Object(members.into_iter().map(|(k, v)| (k.to_string(), v)).collect())
    };
    assert_eq!(EnvironmentStatus::from_json(&Json::Str("paused".to_string())), None);
    assert_eq!(EnvironmentStatus::from_json(&Json::Str("error".to_string())), None);
    assert_eq!(EnvironmentStatus::from_json(&Json::Null), None);
    assert_eq!(EnvironmentStatus::from_json(&object(vec![])), None);
    assert_eq!(EnvironmentStatus::from_json(&object(vec![("error", Json::Int(1))])), None);
    assert_eq!(
        EnvironmentStatus::from_json(&object(vec![
            ("error", Json::Str("a".to_string())),
            ("other", Json::Null)
        ])),
        None
    );
    assert_eq!(
        EnvironmentStatus::from_json(&object(vec![
            ("error", Json::Str("a".to_string())),
            ("error", Json::Str("b".to_string()))
        ])),
        Some(EnvironmentStatus::Error("b".to_string()))
    );
}
