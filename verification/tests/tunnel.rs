use htmx_axum_russh_games::backoff::BackoffSchedule;
use htmx_axum_russh_games::client::{ClientAction, ClientEvent, TunnelClient};
use htmx_axum_russh_games::session::{
    ConnectAction, ConnectAttempt, ConnectEvent, ConnectFailure, SessionFailure,
};
use htmx_axum_russh_games::unwrap_infallible;

#[test]
fn backoff_yields_five_increasing_delays() {
    let mut schedule = BackoffSchedule::new();
    assert_eq!(schedule.next_delay(), Some(2));
    assert_eq!(schedule.next_delay(), Some(4));
    assert_eq!(schedule.next_delay(), Some(6));
    assert_eq!(schedule.next_delay(), Some(8));
    assert_eq!(schedule.next_delay(), Some(10));
    assert_eq!(schedule.next_delay(), None);
    assert_eq!(schedule.next_delay(), None);
}

#[test]
fn three_failures_then_connect_reaches_authentication() {
    let mut attempt = ConnectAttempt::new();
    let mut delays: Vec<u64> = Vec::new();
    for _ in 0..3 {
        match attempt.step(ConnectEvent::TransportFailure) {
            ConnectAction::RetryAfter { delay_seconds } => delays.push(delay_seconds),
            other => panic!("expected a retry delay, got {:?}", other),
        }
    }
    assert_eq!(delays, vec![2, 4, 6]);
    assert_eq!(attempt.step(ConnectEvent::Connected), ConnectAction::Authenticate);
    assert_eq!(attempt.step(ConnectEvent::AuthAccepted), ConnectAction::Proceed);
}

#[test]
fn seven_failures_fail_after_exactly_five_delays() {
    let mut attempt = ConnectAttempt::new();
    let mut delays: Vec<u64> = Vec::new();
    let mut failures: Vec<ConnectFailure> = Vec::new();
    for _ in 0..7 {
        match attempt.step(ConnectEvent::TransportFailure) {
            ConnectAction::RetryAfter { delay_seconds } => delays.push(delay_seconds),
            ConnectAction::Fail(failure) => failures.push(failure),
            ConnectAction::Ignore => {}
            other => panic!("unexpected action {:?}", other),
        }
    }
    assert_eq!(delays, vec![2, 4, 6, 8, 10]);
    assert_eq!(failures, vec![ConnectFailure::RetriesExhausted]);
}

#[test]
fn auth_rejection_is_fatal_and_not_retried() {
    let mut attempt = ConnectAttempt::new();
    assert_eq!(attempt.step(ConnectEvent::Connected), ConnectAction::Authenticate);
    assert_eq!(
        attempt.step(ConnectEvent::AuthRejected),
        ConnectAction::Fail(ConnectFailure::AuthenticationRejected)
    );
    assert_eq!(attempt.step(ConnectEvent::TransportFailure), ConnectAction::Ignore);
}

#[test]
fn auth_transport_break_is_fatal() {
    let mut attempt = ConnectAttempt::new();
    assert_eq!(attempt.step(ConnectEvent::Connected), ConnectAction::Authenticate);
    assert_eq!(
        attempt.step(ConnectEvent::AuthBroken),
        ConnectAction::Fail(ConnectFailure::AuthenticationBroken)
    );
}

#[test]
fn auth_rejection_restarts_with_fresh_schedule_and_no_delay() {
    let mut client = TunnelClient::new();
    // Burn two delays of the first cycle's schedule before authenticating.
    assert_eq!(
        client.step(ClientEvent::Connect(ConnectEvent::TransportFailure)),
        ClientAction::RetryAfter { delay_seconds: 2 }
    );
    assert_eq!(
        client.step(ClientEvent::Connect(ConnectEvent::TransportFailure)),
        ClientAction::RetryAfter { delay_seconds: 4 }
    );
    assert_eq!(
        client.step(ClientEvent::Connect(ConnectEvent::Connected)),
        ClientAction::Authenticate
    );
    // The rejection restarts at once: no delay in the returned action.
    assert_eq!(
        client.step(ClientEvent::Connect(ConnectEvent::AuthRejected)),
        ClientAction::Restart(ConnectFailure::AuthenticationRejected)
    );
    // The new cycle's schedule is fresh: its first delay is 2 again, not 6.
    assert_eq!(
        client.step(ClientEvent::Connect(ConnectEvent::TransportFailure)),
        ClientAction::RetryAfter { delay_seconds: 2 }
    );
}

#[test]
fn full_cycle_ends_in_reconnect() {
    let mut client = TunnelClient::new();
    assert_eq!(
        client.step(ClientEvent::Connect(ConnectEvent::Connected)),
        ClientAction::Authenticate
    );
    assert_eq!(
        client.step(ClientEvent::Connect(ConnectEvent::AuthAccepted)),
        ClientAction::StartForwarding
    );
    assert_eq!(
        client.step(ClientEvent::ForwardingEnded(Ok(0))),
        ClientAction::Disconnect
    );
    assert_eq!(
        client.step(ClientEvent::Disconnected { graceful: true }),
        ClientAction::Reconnect
    );
    // The next cycle begins with a fresh schedule.
    assert_eq!(
        client.step(ClientEvent::Connect(ConnectEvent::TransportFailure)),
        ClientAction::RetryAfter { delay_seconds: 2 }
    );
}

#[test]
fn failed_graceful_disconnect_still_reconnects() {
    let mut client = TunnelClient::new();
    assert_eq!(
        client.step(ClientEvent::Connect(ConnectEvent::Connected)),
        ClientAction::Authenticate
    );
    assert_eq!(
        client.step(ClientEvent::Connect(ConnectEvent::AuthAccepted)),
        ClientAction::StartForwarding
    );
    assert_eq!(
        client.step(ClientEvent::ForwardingEnded(Err(SessionFailure::ProtocolViolation))),
        ClientAction::Disconnect
    );
    // The disconnect attempt fails; a new connect cycle still begins.
    assert_eq!(
        client.step(ClientEvent::Disconnected { graceful: false }),
        ClientAction::Reconnect
    );
    assert_eq!(
        client.step(ClientEvent::Connect(ConnectEvent::Connected)),
        ClientAction::Authenticate
    );
}

#[test]
fn retries_exhausted_also_restarts_with_fresh_schedule() {
    let mut client = TunnelClient::new();
    for expected in [2u64, 4, 6, 8, 10] {
        assert_eq!(
            client.step(ClientEvent::Connect(ConnectEvent::TransportFailure)),
            ClientAction::RetryAfter { delay_seconds: expected }
        );
    }
    assert_eq!(
        client.step(ClientEvent::Connect(ConnectEvent::TransportFailure)),
        ClientAction::Restart(ConnectFailure::RetriesExhausted)
    );
    assert_eq!(
        client.step(ClientEvent::Connect(ConnectEvent::TransportFailure)),
        ClientAction::RetryAfter { delay_seconds: 2 }
    );
}

#[test]
fn unwrap_infallible_returns_the_value() {
    let result: Result<i32, std::convert::Infallible> = Ok(5);
    assert_eq!(unwrap_infallible(result), 5);
}
