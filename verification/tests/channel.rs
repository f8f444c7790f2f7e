use std::io;

use sozu_client::channel::{ConnectionManager, ConnectionProperties, Error};
use sozu_client::socket::{retry_decision, ErrorClass, RetryDecision, RETRY_DELAY_MS};

fn props() -> ConnectionProperties {
    ConnectionProperties::new("/run/proxy/sock".to_string(), 4096, 16384)
}

#[test]
fn connection_properties_keep_their_fields() {
    let p = props();
    assert_eq!(p.socket, "/run/proxy/sock");
    assert_eq!(p.buffer_size, 4096);
    assert_eq!(p.max_buffer_size, 16384);
    assert_eq!(p.clone(), p);
}

#[test]
fn connection_manager_keeps_its_properties() {
    let m = ConnectionManager::new(props());
    assert_eq!(m.opts, props());
}

#[test]
fn quiet_socket_is_valid() {
    let m = ConnectionManager::new(props());
    assert!(m.is_valid(Ok(None)).is_ok());
}

#[test]
fn pending_error_marks_connection_unhealthy() {
    let m = ConnectionManager::new(props());
    let pending = Ok(Some(io::Error::new(io::ErrorKind::BrokenPipe, "gone")));
    match m.is_valid(pending) {
        Err(Error::SocketError(err)) => assert_eq!(err.kind(), io::ErrorKind::BrokenPipe),
        _ => panic!("expected an unhealthy verdict carrying the error"),
    }
}

#[test]
fn failed_error_query_marks_connection_unhealthy() {
    let m = ConnectionManager::new(props());
    let pending = Err(io::Error::new(io::ErrorKind::InvalidInput, "bad query"));
    assert!(matches!(m.is_valid(pending), Err(Error::SocketError(_))));
}

#[test]
fn has_broken_mirrors_the_pending_error_state() {
    let m = ConnectionManager::new(props());
    assert!(!m.has_broken(Ok(None)));
    assert!(m.has_broken(Ok(Some(io::Error::new(io::ErrorKind::BrokenPipe, "gone")))));
    assert!(m.has_broken(Err(io::Error::new(io::ErrorKind::InvalidInput, "bad query"))));
}

#[test]
fn absent_socket_is_retried() {
    assert_eq!(retry_decision(ErrorClass::NotFound), RetryDecision::Retry);
}

#[test]
fn refused_connection_is_retried() {
    assert_eq!(
        retry_decision(ErrorClass::ConnectionRefused),
        RetryDecision::Retry
    );
}

#[test]
fn other_failures_are_not_retried() {
    assert_eq!(retry_decision(ErrorClass::Other), RetryDecision::Fail);
}

#[test]
fn retry_delay_is_a_tenth_of_a_second() {
    assert_eq!(RETRY_DELAY_MS, 100);
}
