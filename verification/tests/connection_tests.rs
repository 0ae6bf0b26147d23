use burrow_client::connection::{
    heartbeat_frame, next_backoff, on_received, on_send_error, session_outcome, AttemptOutcome,
    NextStep, ReaderStep, SessionEnd, TunnelClient, WriterQueue, WriterStep, WriterTurn,
    HEARTBEAT_INTERVAL_SECS, INITIAL_BACKOFF_MS, MAX_BACKOFF_MS, MAX_RECONNECT_ATTEMPTS,
    WRITER_QUEUE_CAPACITY,
};
use burrow_client::events::ConnectionStatus;
use burrow_client::state::TunnelConfig;
use burrow_client::ws_proxy::WsMessage;

fn client() -> TunnelClient {
    TunnelClient::new("tunnel.example", 443, "localhost", "brw_token".to_string())
}

#[test]
fn constants_of_the_policy() {
    assert_eq!(MAX_RECONNECT_ATTEMPTS, 10);
    assert_eq!(INITIAL_BACKOFF_MS, 1000);
    assert_eq!(MAX_BACKOFF_MS, 60_000);
    assert_eq!(HEARTBEAT_INTERVAL_SECS, 25);
    assert_eq!(WRITER_QUEUE_CAPACITY, 256);
}

#[test]
fn server_url_has_scheme_port_and_path() {
    assert_eq!(client().server_url(), "wss://tunnel.example:443/tunnel/ws");
    assert_eq!(client().token(), "brw_token");
}

#[test]
fn backoff_grows_by_half_up_to_the_cap() {
    let expected = [1000u64, 1500, 2250, 3375, 5062, 7593, 11389, 17083, 25624, 38436, 57654, 60000, 60000];
    let mut t = INITIAL_BACKOFF_MS;
    for want in expected {
        assert_eq!(t, want);
        t = next_backoff(t);
    }
    assert_eq!(next_backoff(0), 0);
    assert_eq!(next_backoff(1), 1);
    assert_eq!(next_backoff(3), 4);
    assert_eq!(next_backoff(40_000), 60_000);
    assert_eq!(next_backoff(u64::MAX), 60_000);
}

#[test]
fn first_attempt_connects_later_ones_reconnect() {
    let mut c = client();
    assert_eq!(c.begin_attempt(), ConnectionStatus::Connecting);
    let next = c.attempt_ended(AttemptOutcome::ConnectFailed);
    assert_eq!(
        next,
        NextStep::Retry {
            status: ConnectionStatus::Reconnecting {
                attempt: 1,
                reason: "Failed to connect to server".to_string(),
                next_retry_secs: 1,
            },
            delay_ms: 1000,
        }
    );
    assert_eq!(
        c.begin_attempt(),
        ConnectionStatus::Reconnecting {
            attempt: 2,
            reason: "Failed to connect to server".to_string(),
            next_retry_secs: 0,
        }
    );
}

#[test]
fn reconnect_preserves_intent() {
    let mut c = client();
    c.track_tunnel(TunnelConfig::Http { local_port: 8080, subdomain: Some("foo".to_string()) });
    assert_eq!(c.begin_attempt(), ConnectionStatus::Connecting);
    let first = c.start_session();
    assert_eq!(first.status, ConnectionStatus::Connected);
    assert_eq!(first.frames.len(), 1);

    // The server goes away.
    let next = c.attempt_ended(session_outcome(SessionEnd::Reader));
    assert_eq!(
        next,
        NextStep::Retry {
            status: ConnectionStatus::Reconnecting {
                attempt: 1,
                reason: "Connection lost".to_string(),
                next_retry_secs: 1,
            },
            delay_ms: 1000,
        }
    );
    c.begin_attempt();
    let second = c.start_session();
    let texts: Vec<String> = second.frames.iter().map(|f| f.to_json()).collect();
    assert_eq!(
        texts,
        vec![
            r#"{"type":"register_tunnel","token":"brw_token","local_host":"localhost","local_port":8080,"requested_subdomain":"foo"}"#
                .to_string()
        ]
    );
    // The fresh dispatcher knows nothing of the old connection but the pending registration.
    assert_eq!(second.dispatcher.state().pending_tunnel(0).map(|p| p.local_port), Some(8080));
    assert_eq!(second.dispatcher.state().pending_tunnel(1), None);
}

#[test]
fn every_intent_is_registered_again_in_order() {
    let mut c = client();
    c.track_tunnel(TunnelConfig::Http { local_port: 1, subdomain: None });
    c.track_tunnel(TunnelConfig::Tcp { local_port: 2 });
    c.track_tunnel(TunnelConfig::Http { local_port: 3, subdomain: Some("x".to_string()) });
    let start = c.start_session();
    let texts: Vec<String> = start.frames.iter().map(|f| f.to_json()).collect();
    assert_eq!(
        texts,
        vec![
            r#"{"type":"register_tunnel","token":"brw_token","local_host":"localhost","local_port":1}"#,
            r#"{"type":"register_tcp_tunnel","local_port":2}"#,
            r#"{"type":"register_tunnel","token":"brw_token","local_host":"localhost","local_port":3,"requested_subdomain":"x"}"#,
        ]
    );
    let state = start.dispatcher.state();
    assert_eq!(state.pending_tunnel(0).map(|p| p.local_port), Some(1));
    assert_eq!(state.pending_tunnel(1).map(|p| p.local_port), Some(3));
    assert_eq!(state.pending_tunnel(2), None);
}

#[test]
fn backoff_exhaustion() {
    let mut c = client();
    let mut delays = Vec::new();
    let mut last = None;
    for attempt in 1..=10u32 {
        let status = c.begin_attempt();
        if attempt == 1 {
            assert_eq!(status, ConnectionStatus::Connecting);
        } else {
            assert!(matches!(status, ConnectionStatus::Reconnecting { attempt: a, .. } if a == attempt));
        }
        match c.attempt_ended(AttemptOutcome::ConnectFailed) {
            NextStep::Retry { status, delay_ms } => {
                assert!(attempt < 10);
                assert!(matches!(status, ConnectionStatus::Reconnecting { attempt: a, .. } if a == attempt));
                delays.push(delay_ms);
            }
            other => last = Some(other),
        }
    }
    assert_eq!(delays, vec![1000, 1500, 2250, 3375, 5062, 7593, 11389, 17083, 25624]);
    assert_eq!(
        last,
        Some(NextStep::GiveUp {
            status: ConnectionStatus::Disconnected {
                reason: "Failed after 10 attempts: Failed to connect to server".to_string(),
            },
            reason: "Failed to connect to server".to_string(),
        })
    );
}

#[test]
fn a_connection_resets_the_backoff() {
    let mut c = client();
    c.begin_attempt();
    c.attempt_ended(AttemptOutcome::ConnectFailed);
    c.begin_attempt();
    c.attempt_ended(AttemptOutcome::ConnectFailed);
    c.begin_attempt();
    c.start_session();
    match c.attempt_ended(AttemptOutcome::ConnectionLost) {
        NextStep::Retry { delay_ms, status } => {
            assert_eq!(delay_ms, 1000);
            assert_eq!(
                status,
                ConnectionStatus::Reconnecting {
                    attempt: 3,
                    reason: "Connection lost".to_string(),
                    next_retry_secs: 1,
                }
            );
        }
        other => panic!("unexpected step {:?}", other),
    }
}

#[test]
fn shutdown_stops_in_good_order() {
    let mut c = client();
    c.begin_attempt();
    c.start_session();
    assert_eq!(session_outcome(SessionEnd::Shutdown), AttemptOutcome::Shutdown);
    assert_eq!(
        c.attempt_ended(AttemptOutcome::Shutdown),
        NextStep::Stop {
            status: ConnectionStatus::Disconnected { reason: "Connection closed".to_string() }
        }
    );
}

#[test]
fn any_task_ending_means_the_connection_is_lost() {
    for end in [SessionEnd::Writer, SessionEnd::Heartbeat, SessionEnd::Reader, SessionEnd::Commands] {
        assert_eq!(session_outcome(end), AttemptOutcome::ConnectionLost);
    }
}

#[test]
fn reader_answers_pings_and_stops_on_close() {
    assert_eq!(
        on_received(Ok(WsMessage::Text("{}".to_string()))),
        ReaderStep::Dispatch("{}".to_string())
    );
    assert_eq!(
        on_received(Ok(WsMessage::Ping(vec![1, 2, 3]))),
        ReaderStep::Reply(WsMessage::Pong(vec![1, 2, 3]))
    );
    assert_eq!(on_received(Ok(WsMessage::Pong(vec![1]))), ReaderStep::Ignore);
    assert_eq!(on_received(Ok(WsMessage::Binary(vec![1]))), ReaderStep::Ignore);
    assert_eq!(on_received(Ok(WsMessage::Frame)), ReaderStep::Ignore);
    assert_eq!(on_received(Ok(WsMessage::Close(None))), ReaderStep::Stop);
    assert_eq!(on_received(Err("reset".to_string())), ReaderStep::Stop);
}

#[test]
fn writer_goes_on_only_when_the_connection_is_closing() {
    assert_eq!(on_send_error("Trying to work with closing connection"), WriterStep::Continue);
    assert_eq!(on_send_error("closing"), WriterStep::Continue);
    assert_eq!(on_send_error("Connection reset by peer"), WriterStep::Stop);
    assert_eq!(on_send_error("Closing"), WriterStep::Stop);
    assert_eq!(on_send_error(""), WriterStep::Stop);
}

#[test]
fn heartbeat_frame_text() {
    assert_eq!(heartbeat_frame().to_json(), r#"{"type":"heartbeat"}"#);
}

#[test]
fn status_labels() {
    assert_eq!(ConnectionStatus::Connecting.to_string(), "Connecting");
    assert_eq!(ConnectionStatus::Connected.to_string(), "Connected");
    assert_eq!(
        ConnectionStatus::Reconnecting { attempt: 3, reason: "x".to_string(), next_retry_secs: 2 }
            .to_string(),
        "Reconnecting (3)"
    );
    assert_eq!(ConnectionStatus::Disconnected { reason: "x".to_string() }.to_string(), "Disconnected");
}

#[test]
fn the_writer_serves_its_queues_in_turn() {
    let mut turn = WriterTurn::new();
    assert_eq!(turn.first(), WriterQueue::Raw);
    assert_eq!(turn.pick(true, true), Some(WriterQueue::Raw));
    assert_eq!(turn.pick(false, true), Some(WriterQueue::Text));
    assert_eq!(turn.pick(false, false), None);
    turn.served(WriterQueue::Raw);
    assert_eq!(turn.first(), WriterQueue::Text);
    assert_eq!(turn.pick(true, true), Some(WriterQueue::Text));
    assert_eq!(turn.pick(true, false), Some(WriterQueue::Raw));
    turn.served(WriterQueue::Text);
    assert_eq!(turn.pick(true, true), Some(WriterQueue::Raw));
    assert_eq!(turn.last, Some(WriterQueue::Text));
}
