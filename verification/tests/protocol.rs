use sozu_client::exchange_result;
use sozu_client::protocol::{
    step, Envelope, Step, STATUS_FAILURE, STATUS_OK, STATUS_PROCESSING,
};
use sozu_client::Error;

fn env(status: i32, body: &str) -> Envelope<String> {
    Envelope { status, body: body.to_string() }
}

#[test]
fn step_discards_processing() {
    let s = step(env(STATUS_PROCESSING, "progress"));
    assert!(matches!(s, Step::Continue));
}

#[test]
fn step_returns_ok_response() {
    let s = step(env(STATUS_OK, "done"));
    match s {
        Step::Success(e) => {
            assert_eq!(e.status, STATUS_OK);
            assert_eq!(e.body, "done");
        }
        _ => panic!("expected success"),
    }
}

#[test]
fn step_returns_failure_response() {
    let s = step(env(STATUS_FAILURE, "reason"));
    match s {
        Step::RemoteFailure(e) => {
            assert_eq!(e.status, STATUS_FAILURE);
            assert_eq!(e.body, "reason");
        }
        _ => panic!("expected remote failure"),
    }
}

#[test]
fn step_rejects_unknown_status() {
    let s = step(env(7, "garbage"));
    assert!(matches!(s, Step::InvalidStatus(7)));
}

#[test]
fn processing_then_ok_returns_final_response() {
    let resps = vec![
        env(STATUS_PROCESSING, "one"),
        env(STATUS_PROCESSING, "two"),
        env(STATUS_PROCESSING, "three"),
        env(STATUS_OK, "final"),
    ];
    match exchange_result(resps) {
        Some(Ok(e)) => {
            assert_eq!(e.status, STATUS_OK);
            assert_eq!(e.body, "final");
        }
        _ => panic!("expected the final ok response"),
    }
}

#[test]
fn processing_then_failure_wraps_that_response() {
    let resps = vec![env(STATUS_PROCESSING, "one"), env(STATUS_FAILURE, "why")];
    match exchange_result(resps) {
        Some(Err(Error::Failure(e))) => {
            assert_eq!(e.status, STATUS_FAILURE);
            assert_eq!(e.body, "why");
        }
        _ => panic!("expected a remote failure"),
    }
}

#[test]
fn invalid_status_fails_without_reading_on() {
    let resps = vec![
        env(STATUS_PROCESSING, "one"),
        env(-3, "garbage"),
        env(STATUS_OK, "never reached"),
    ];
    match exchange_result(resps) {
        Some(Err(Error::InvalidStatusCode(code))) => assert_eq!(code, -3),
        _ => panic!("expected an invalid status error"),
    }
}

#[test]
fn only_processing_yields_no_verdict() {
    let resps = vec![env(STATUS_PROCESSING, "one"), env(STATUS_PROCESSING, "two")];
    assert!(exchange_result(resps).is_none());
}

#[test]
fn empty_sequence_yields_no_verdict() {
    let resps: Vec<Envelope<String>> = Vec::new();
    assert!(exchange_result(resps).is_none());
}

#[test]
fn into_verdict_maps_each_terminal_state() {
    assert!(Step::<u32>::Continue.into_verdict().is_none());
    match Step::Success(Envelope { status: STATUS_OK, body: 5u32 }).into_verdict() {
        Some(Ok(e)) => assert_eq!(e.body, 5),
        _ => panic!("expected success"),
    }
    match Step::RemoteFailure(Envelope { status: STATUS_FAILURE, body: 9u32 }).into_verdict() {
        Some(Err(Error::Failure(e))) => assert_eq!(e.body, 9),
        _ => panic!("expected failure"),
    }
    match Step::<u32>::InvalidStatus(42).into_verdict() {
        Some(Err(Error::InvalidStatusCode(c))) => assert_eq!(c, 42),
        _ => panic!("expected invalid status"),
    }
}
