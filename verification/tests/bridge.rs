use htmx_axum_russh_games::bridge::{BridgeState, ForwardedConnection};
use htmx_axum_russh_games::session::{forwarding_step, ForwardAction, SessionEvent};

/// A stub request service: echoes the request path as the response body.
fn echo_path_service(request: &[u8]) -> Vec<u8> {
    let text = String::from_utf8(request.to_vec()).expect("request is not text");
    let path = text.split_whitespace().nth(1).expect("request has no path");
    let mut response = b"HTTP/1.1 200 OK\r\n\r\n".to_vec();
    response.extend_from_slice(path.as_bytes());
    response
}

/// Drives one full request/response exchange over a connection's queues,
/// the way a bridge task does, and returns the bytes written back to the
/// channel.
fn serve_one_request(conn: &mut ForwardedConnection, request: &[u8]) -> Vec<u8> {
    conn.receive(request.to_vec());
    let delivered = conn.take_inbound();
    let response = echo_path_service(&delivered);
    assert!(conn.send(response));
    conn.take_outbound()
}

#[test]
fn request_bytes_round_trip_unmodified() {
    let mut conn = ForwardedConnection::new(String::from("203.0.113.9"), 40001);
    let payload = b"GET /scores HTTP/1.1\r\nHost: example\r\n\r\n";
    conn.receive(payload.to_vec());
    let delivered = conn.take_inbound();
    assert_eq!(delivered, payload.to_vec());
}

#[test]
fn response_bytes_round_trip_unmodified() {
    let mut conn = ForwardedConnection::new(String::from("203.0.113.9"), 40001);
    let response = b"HTTP/1.1 200 OK\r\n\r\nhello";
    assert!(conn.send(response.to_vec()));
    let written = conn.take_outbound();
    assert_eq!(written, response.to_vec());
}

#[test]
fn chunked_arrival_keeps_byte_order() {
    let mut conn = ForwardedConnection::new(String::from("203.0.113.9"), 40001);
    conn.receive(b"GET /a".to_vec());
    conn.receive(b"b HTT".to_vec());
    conn.receive(b"P/1.1\r\n\r\n".to_vec());
    assert_eq!(conn.take_inbound(), b"GET /ab HTTP/1.1\r\n\r\n".to_vec());
}

#[test]
fn channel_break_mid_request_is_a_connection_error() {
    let mut conn = ForwardedConnection::new(String::from("203.0.113.9"), 40001);
    conn.receive(b"GET /slow HT".to_vec());
    conn.channel_broken();
    assert_eq!(conn.state(), BridgeState::Broken);
    // A response written after the break is refused, not a crash.
    assert!(!conn.send(b"HTTP/1.1 200 OK\r\n\r\n".to_vec()));
    assert!(conn.take_outbound().is_empty());
    // The bytes that had arrived are still there, untouched.
    assert_eq!(conn.take_inbound(), b"GET /slow HT".to_vec());
}

#[test]
fn slow_connection_does_not_hold_up_the_fast_one() {
    let mut slow = ForwardedConnection::new(String::from("203.0.113.9"), 40001);
    let mut fast = ForwardedConnection::new(String::from("203.0.113.10"), 40002);
    // The slow service has taken its request but not yet answered.
    slow.receive(b"GET /slow HTTP/1.1\r\n\r\n".to_vec());
    let slow_request = slow.take_inbound();
    // The fast exchange completes from start to finish meanwhile.
    let fast_written = serve_one_request(&mut fast, b"GET /fast HTTP/1.1\r\n\r\n");
    fast.channel_closed();
    assert_eq!(fast_written, b"HTTP/1.1 200 OK\r\n\r\n/fast".to_vec());
    assert_eq!(fast.state(), BridgeState::Closed);
    // The slow connection is untouched by the fast one's completion.
    assert_eq!(slow.state(), BridgeState::Serving);
    let slow_response = echo_path_service(&slow_request);
    assert!(slow.send(slow_response));
    assert_eq!(slow.take_outbound(), b"HTTP/1.1 200 OK\r\n\r\n/slow".to_vec());
}

#[test]
fn three_concurrent_connections_have_no_crosstalk() {
    let opens = [
        (String::from("198.51.100.1"), 40001u32, &b"GET /alpha HTTP/1.1\r\n\r\n"[..]),
        (String::from("198.51.100.2"), 40002u32, &b"GET /beta HTTP/1.1\r\n\r\n"[..]),
        (String::from("198.51.100.3"), 40003u32, &b"GET /gamma HTTP/1.1\r\n\r\n"[..]),
    ];
    let mut connections: Vec<ForwardedConnection> = Vec::new();
    for (address, port, _) in &opens {
        // The session's wait loop sees the open and spawns a bridge for it.
        let action = forwarding_step(SessionEvent::ConnectionOpened {
            originator_address: address.clone(),
            originator_port: *port,
        });
        match action {
            ForwardAction::SpawnBridge { originator_address, originator_port } => {
                connections.push(ForwardedConnection::new(originator_address, originator_port));
            }
            other => panic!("expected a bridge to be spawned, got {:?}", other),
        }
    }
    // Interleave the three exchanges: all requests arrive before any reply.
    for (conn, (_, _, request)) in connections.iter_mut().zip(&opens) {
        conn.receive(request.to_vec());
    }
    let mut written: Vec<Vec<u8>> = Vec::new();
    for conn in connections.iter_mut() {
        let delivered = conn.take_inbound();
        let response = echo_path_service(&delivered);
        assert!(conn.send(response));
        written.push(conn.take_outbound());
    }
    assert_eq!(connections[0].originator_port(), 40001);
    assert_eq!(connections[1].originator_port(), 40002);
    assert_eq!(connections[2].originator_port(), 40003);
    assert_eq!(written[0], b"HTTP/1.1 200 OK\r\n\r\n/alpha".to_vec());
    assert_eq!(written[1], b"HTTP/1.1 200 OK\r\n\r\n/beta".to_vec());
    assert_eq!(written[2], b"HTTP/1.1 200 OK\r\n\r\n/gamma".to_vec());
}

#[test]
fn originator_metadata_is_kept() {
    let conn = ForwardedConnection::new(String::from("203.0.113.7"), 51234);
    assert_eq!(conn.originator_address().as_str(), "203.0.113.7");
    assert_eq!(conn.originator_port(), 51234);
}
