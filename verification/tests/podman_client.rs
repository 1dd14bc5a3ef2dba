use cofer::podman::client::{verify_connection, Ping, CONNECT_TIMEOUT_SECS, PING_TIMEOUT_SECS};

#[test]
fn a_connection_stands_when_the_ping_is_answered() {
    assert_eq!(verify_connection(&Ping::Answered), Ok(()));
    assert_eq!(
        verify_connection(&Ping::Refused("no route".to_string())),
        Err("Failed to ping Podman: no route".to_string())
    );
    assert_eq!(
        verify_connection(&Ping::TimedOut),
        Err("Podman ping timeout - service may not be running".to_string())
    );
    assert_eq!(PING_TIMEOUT_SECS, 5);
    assert_eq!(CONNECT_TIMEOUT_SECS, 120);
}
