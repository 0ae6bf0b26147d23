use burrow_client::decode::MalformedFrame;
use burrow_client::dispatch::{Action, Dispatcher, BAD_GATEWAY, FALLBACK_LOCAL_PORT};
use burrow_client::events::{
    RequestEvent, ResponseEvent, TcpTunnelEvent, TuiCommand, TuiEvent, TunnelEvent,
};
use burrow_client::http_proxy::HttpResponse;
use burrow_client::ids::{RequestId, TcpId, TcpTunnelId, TunnelId, WsId};
use burrow_client::messages::{IncomingMessage, OutgoingMessage};
use burrow_client::state::TunnelConfig;
use burrow_client::ws_proxy::WsMessage;

fn rid(s: &str) -> RequestId {
    RequestId(s.to_string())
}

fn registered_http(port: u16) -> Dispatcher {
    let mut d = Dispatcher::new("localhost");
    d.register("brw_t", &TunnelConfig::Http { local_port: port, subdomain: None });
    let actions = d
        .handle_frame(
            r#"{"type":"tunnel_registered","tunnel_id":"t1","subdomain":"foo","full_url":"https://foo.example"}"#,
            0,
        )
        .unwrap();
    assert_eq!(
        actions,
        vec![Action::Notify(TuiEvent::TunnelRegistered(TunnelEvent {
            full_url: "https://foo.example".to_string(),
            local_port: port,
        }))]
    );
    d
}

fn get_request(d: &mut Dispatcher, tunnel: &str) -> Vec<Action> {
    let text = format!(
        r#"{{"type":"tunnel_request","request_id":"r1","tunnel_id":"{}","method":"GET","path":"/hi","query_string":"","headers":[["accept","*/*"]],"body":null}}"#,
        tunnel
    );
    d.handle_frame(&text, 1700000000).unwrap()
}

#[test]
fn http_happy_path() {
    let mut d = registered_http(8080);
    assert_eq!(d.state().find_tunnel_port(&TunnelId("t1".to_string())), Some(8080));
    let actions = get_request(&mut d, "t1");
    assert_eq!(
        actions,
        vec![
            Action::Notify(TuiEvent::RequestReceived(RequestEvent {
                request_id: rid("r1"),
                method: "GET".to_string(),
                path: "/hi".to_string(),
                query_string: String::new(),
                headers: vec![("accept".to_string(), "*/*".to_string())],
                body: None,
                timestamp: 1700000000,
                client_ip: None,
            })),
            Action::ForwardHttp {
                request_id: rid("r1"),
                local_host: "localhost".to_string(),
                local_port: 8080,
                method: "GET".to_string(),
                path: "/hi".to_string(),
                query_string: String::new(),
                headers: vec![("accept".to_string(), "*/*".to_string())],
                body: None,
            },
        ]
    );
    let response = HttpResponse {
        status: 200,
        headers: vec![("content-type".to_string(), "text/plain".to_string())],
        body: Some(b"pong".to_vec()),
    };
    let actions = d.http_completed(&rid("r1"), Ok(response), 12);
    assert_eq!(actions.len(), 2);
    assert_eq!(
        actions[0],
        Action::Notify(TuiEvent::ResponseSent(ResponseEvent {
            request_id: rid("r1"),
            status: 200,
            headers: vec![("content-type".to_string(), "text/plain".to_string())],
            body: Some(b"pong".to_vec()),
            duration_ms: 12,
        }))
    );
    match &actions[1] {
        Action::Send(frame) => assert_eq!(
            frame.to_json(),
            r#"{"type":"tunnel_response","request_id":"r1","status":200,"headers":[["content-type","text/plain"]],"body":"pong"}"#
        ),
        other => panic!("unexpected action {:?}", other),
    }
}

#[test]
fn origin_down_gives_bad_gateway() {
    let mut d = registered_http(8080);
    get_request(&mut d, "t1");
    let actions = d.http_completed(&rid("r1"), Err("connection refused".to_string()), 3);
    assert_eq!(BAD_GATEWAY, 502);
    assert_eq!(
        actions,
        vec![
            Action::Notify(TuiEvent::ResponseSent(ResponseEvent {
                request_id: rid("r1"),
                status: 502,
                headers: vec![("content-type".to_string(), "text/plain".to_string())],
                body: Some(b"Bad Gateway: connection refused".to_vec()),
                duration_ms: 3,
            })),
            Action::Send(OutgoingMessage::TunnelResponse {
                request_id: rid("r1"),
                status: 502,
                headers: vec![("content-type".to_string(), "text/plain".to_string())],
                body: Some("Bad Gateway: connection refused".to_string()),
                body_encoding: None,
            }),
        ]
    );
}

#[test]
fn a_request_gets_one_response_only() {
    let mut d = registered_http(8080);
    get_request(&mut d, "t1");
    let ok = || HttpResponse { status: 204, headers: vec![], body: None };
    assert_eq!(d.http_completed(&rid("r1"), Ok(ok()), 1).len(), 2);
    assert_eq!(d.http_completed(&rid("r1"), Ok(ok()), 1), vec![]);
    assert_eq!(d.http_completed(&rid("never-seen"), Ok(ok()), 1), vec![]);
    get_request(&mut d, "t1");
    get_request(&mut d, "t1");
    assert_eq!(d.http_completed(&rid("r1"), Ok(ok()), 1).len(), 2);
    assert_eq!(d.http_completed(&rid("r1"), Ok(ok()), 1).len(), 2);
    assert_eq!(d.http_completed(&rid("r1"), Ok(ok()), 1), vec![]);
}

#[test]
fn unknown_tunnel_falls_back_to_port_3000() {
    let mut d = registered_http(8080);
    let actions = get_request(&mut d, "nope");
    assert_eq!(FALLBACK_LOCAL_PORT, 3000);
    match &actions[1] {
        Action::ForwardHttp { local_port, local_host, .. } => {
            assert_eq!(*local_port, 3000);
            assert_eq!(local_host, "localhost");
        }
        other => panic!("unexpected action {:?}", other),
    }
    let actions =
        d.http_completed(&rid("r1"), Ok(HttpResponse { status: 200, headers: vec![], body: None }), 1);
    assert_eq!(actions.len(), 2);
}

#[test]
fn empty_request_body_is_zero_length_bytes() {
    let mut d = registered_http(8080);
    let actions = d
        .handle_frame(
            r#"{"type":"tunnel_request","request_id":"r1","tunnel_id":"t1","method":"POST","path":"/","query_string":"a=1","headers":[["x"],["a","b","c"]],"body":"","client_ip":"10.0.0.1"}"#,
            5,
        )
        .unwrap();
    match &actions[1] {
        Action::ForwardHttp { body, headers, query_string, .. } => {
            assert_eq!(body, &Some(vec![]));
            assert_eq!(headers, &vec![("a".to_string(), "b".to_string())]);
            assert_eq!(query_string, "a=1");
        }
        other => panic!("unexpected action {:?}", other),
    }
    match &actions[0] {
        Action::Notify(TuiEvent::RequestReceived(e)) => {
            assert_eq!(e.client_ip.as_deref(), Some("10.0.0.1"));
            assert_eq!(e.body, Some(vec![]));
        }
        other => panic!("unexpected action {:?}", other),
    }
}

#[test]
fn request_body_with_malformed_base64_is_absent() {
    let mut d = registered_http(8080);
    let actions = d
        .handle_frame(
            r#"{"type":"tunnel_request","request_id":"r1","tunnel_id":"t1","method":"POST","path":"/","query_string":"","headers":[],"body":"!!","body_encoding":"base64"}"#,
            5,
        )
        .unwrap();
    match &actions[1] {
        Action::ForwardHttp { body, .. } => assert_eq!(body, &None),
        other => panic!("unexpected action {:?}", other),
    }
}

#[test]
fn registration_without_pending_entry_uses_port_zero() {
    let mut d = Dispatcher::new("127.0.0.1");
    let actions = d.handle_message(
        IncomingMessage::TunnelRegistered {
            tunnel_id: TunnelId("t9".to_string()),
            subdomain: "s".to_string(),
            full_url: "u".to_string(),
        },
        0,
    );
    assert_eq!(
        actions,
        vec![Action::Notify(TuiEvent::TunnelRegistered(TunnelEvent {
            full_url: "u".to_string(),
            local_port: 0,
        }))]
    );
    assert_eq!(d.state().find_tunnel_port(&TunnelId("t9".to_string())), Some(0));
}

#[test]
fn confirmations_pair_with_registrations_in_order() {
    let mut d = Dispatcher::new("localhost");
    d.register("k", &TunnelConfig::Http { local_port: 1111, subdomain: None });
    d.register("k", &TunnelConfig::Tcp { local_port: 9 });
    d.register("k", &TunnelConfig::Http { local_port: 2222, subdomain: Some("b".to_string()) });
    for (id, port) in [("a", 1111u16), ("b", 2222u16)] {
        d.handle_message(
            IncomingMessage::TunnelRegistered {
                tunnel_id: TunnelId(id.to_string()),
                subdomain: String::new(),
                full_url: String::new(),
            },
            0,
        );
        assert_eq!(d.state().find_tunnel_port(&TunnelId(id.to_string())), Some(port));
    }
}

#[test]
fn tcp_echo() {
    let mut d = Dispatcher::new("localhost");
    let frame = d.register("k", &TunnelConfig::Tcp { local_port: 7777 });
    assert_eq!(frame.to_json(), r#"{"type":"register_tcp_tunnel","local_port":7777}"#);
    let actions = d
        .handle_frame(
            r#"{"type":"tcp_tunnel_registered","tcp_tunnel_id":"T","server_port":15000,"local_port":7777}"#,
            0,
        )
        .unwrap();
    assert_eq!(
        actions,
        vec![Action::Notify(TuiEvent::TcpTunnelRegistered(TcpTunnelEvent {
            server_port: 15000,
            local_port: 7777,
        }))]
    );
    let actions =
        d.handle_frame(r#"{"type":"tcp_connect","tcp_id":"c1","tcp_tunnel_id":"T"}"#, 0).unwrap();
    let c1 = TcpId("c1".to_string());
    assert_eq!(actions, vec![Action::ConnectTcp { tcp_id: c1.clone(), local_port: 7777 }]);

    // Data that comes before the local socket is connected has nowhere to go.
    let data = r#"{"type":"tcp_data","tcp_id":"c1","data":"QUJD","data_encoding":"base64"}"#;
    assert_eq!(d.handle_frame(data, 0).unwrap(), vec![]);

    let actions = d.tcp_opened(&c1);
    assert_eq!(actions, vec![Action::Send(OutgoingMessage::tcp_connected(&c1))]);
    assert!(d.state().has_tcp_connection(&c1));

    assert_eq!(
        d.handle_frame(data, 0).unwrap(),
        vec![Action::TcpToLocal { tcp_id: c1.clone(), data: b"ABC".to_vec() }]
    );

    let step = burrow_client::tcp_proxy::on_read(&c1, Ok(b"ABC".to_vec()));
    assert!(!step.finished);
    assert_eq!(
        step.frame.unwrap().to_json(),
        r#"{"type":"tcp_data","tcp_id":"c1","data":"QUJD","data_encoding":"base64"}"#
    );
    let step = burrow_client::tcp_proxy::on_read(&c1, Ok(vec![]));
    assert!(step.finished);
    assert_eq!(
        step.frame.unwrap().to_json(),
        r#"{"type":"tcp_close","tcp_id":"c1","reason":"closed"}"#
    );
    d.tcp_ended(&c1);
    assert!(!d.state().has_tcp_connection(&c1));
    assert_eq!(d.handle_frame(data, 0).unwrap(), vec![]);
}

#[test]
fn tcp_connect_for_unknown_tunnel_is_dropped() {
    let mut d = Dispatcher::new("localhost");
    let actions = d.handle_message(
        IncomingMessage::TcpConnect {
            tcp_id: TcpId("c1".to_string()),
            tcp_tunnel_id: TcpTunnelId("T".to_string()),
        },
        0,
    );
    assert_eq!(actions, vec![]);
}

#[test]
fn tcp_data_decoding_is_best_effort() {
    let mut d = Dispatcher::new("localhost");
    let c = TcpId("c".to_string());
    d.tcp_opened(&c);
    let bad = IncomingMessage::TcpData {
        tcp_id: c.clone(),
        data: "%%%".to_string(),
        data_encoding: Some("base64".to_string()),
    };
    assert_eq!(
        d.handle_message(bad, 0),
        vec![Action::TcpToLocal { tcp_id: c.clone(), data: vec![] }]
    );
    let raw = IncomingMessage::TcpData { tcp_id: c.clone(), data: "héllo".to_string(), data_encoding: None };
    assert_eq!(
        d.handle_message(raw, 0),
        vec![Action::TcpToLocal { tcp_id: c.clone(), data: "héllo".as_bytes().to_vec() }]
    );
    let other = IncomingMessage::TcpData {
        tcp_id: c.clone(),
        data: "QUJD".to_string(),
        data_encoding: Some("gzip".to_string()),
    };
    assert_eq!(
        d.handle_message(other, 0),
        vec![Action::TcpToLocal { tcp_id: c.clone(), data: b"QUJD".to_vec() }]
    );
}

#[test]
fn tcp_close_lets_the_flow_go_once() {
    let mut d = Dispatcher::new("localhost");
    let c = TcpId("c".to_string());
    d.tcp_opened(&c);
    let close = || IncomingMessage::TcpClose { tcp_id: TcpId("c".to_string()), reason: None };
    assert_eq!(d.handle_message(close(), 0), vec![Action::DropTcp { tcp_id: c.clone() }]);
    assert_eq!(d.handle_message(close(), 0), vec![]);
}

#[test]
fn tcp_dial_failure_is_reported() {
    let d = Dispatcher::new("localhost");
    let actions = d.tcp_open_failed(&TcpId("c1".to_string()), "refused");
    match &actions[..] {
        [Action::Send(frame)] => assert_eq!(
            frame.to_json(),
            r#"{"type":"tcp_close","tcp_id":"c1","reason":"Connection failed: refused"}"#
        ),
        other => panic!("unexpected actions {:?}", other),
    }
}

#[test]
fn ws_text_echo() {
    let mut d = registered_http(8080);
    let actions = d
        .handle_frame(
            r#"{"type":"ws_upgrade","ws_id":"w1","tunnel_id":"t1","path":"/ws","headers":[["cookie","s=1"]]}"#,
            0,
        )
        .unwrap();
    let w1 = WsId("w1".to_string());
    assert_eq!(
        actions,
        vec![Action::OpenWebSocket {
            ws_id: w1.clone(),
            local_host: "localhost".to_string(),
            local_port: 8080,
            path: "/ws".to_string(),
            headers: vec![vec!["cookie".to_string(), "s=1".to_string()]],
        }]
    );
    let frame = r#"{"type":"ws_frame","ws_id":"w1","opcode":"text","data":"hi"}"#;
    assert_eq!(d.handle_frame(frame, 0).unwrap(), vec![]);

    let actions = d.ws_opened(&w1);
    match &actions[..] {
        [Action::Send(m)] => {
            assert_eq!(m.to_json(), r#"{"type":"ws_upgraded","ws_id":"w1","headers":[]}"#)
        }
        other => panic!("unexpected actions {:?}", other),
    }
    assert_eq!(
        d.handle_frame(frame, 0).unwrap(),
        vec![Action::WsToLocal { ws_id: w1.clone(), message: WsMessage::Text("hi".to_string()) }]
    );
    let step = burrow_client::ws_proxy::from_local(&w1, WsMessage::Text("hi".to_string()));
    assert!(!step.finished);
    assert_eq!(
        step.frame.unwrap().to_json(),
        r#"{"type":"ws_frame","ws_id":"w1","opcode":"text","data":"hi"}"#
    );
}

#[test]
fn ws_frame_payloads() {
    let mut d = Dispatcher::new("localhost");
    let w = WsId("w".to_string());
    d.ws_opened(&w);
    let frame = |opcode: &str, data: &str, enc: Option<&str>| IncomingMessage::WsFrame {
        ws_id: WsId("w".to_string()),
        opcode: opcode.to_string(),
        data: data.to_string(),
        data_encoding: enc.map(|e| e.to_string()),
    };
    let to_local = |m: WsMessage| vec![Action::WsToLocal { ws_id: WsId("w".to_string()), message: m }];
    assert_eq!(
        d.handle_message(frame("binary", "AAEC", Some("base64")), 0),
        to_local(WsMessage::Binary(vec![0, 1, 2]))
    );
    assert_eq!(
        d.handle_message(frame("binary", "not base64!", Some("base64")), 0),
        to_local(WsMessage::Binary(b"not base64!".to_vec()))
    );
    assert_eq!(d.handle_message(frame("ping", "p", None), 0), to_local(WsMessage::Ping(b"p".to_vec())));
    assert_eq!(d.handle_message(frame("pong", "", None), 0), to_local(WsMessage::Pong(vec![])));
    assert_eq!(
        d.handle_message(frame("close", "x", None), 0),
        to_local(WsMessage::Close(Some((1000, String::new()))))
    );
    assert_eq!(
        d.handle_message(frame("continuation", "zz", None), 0),
        to_local(WsMessage::Binary(b"zz".to_vec()))
    );
    assert_eq!(
        d.handle_message(frame("text", "/w==", Some("base64")), 0),
        to_local(WsMessage::Text("\u{fffd}".to_string()))
    );
}

#[test]
fn ws_close_defaults_to_normal_closure() {
    let mut d = Dispatcher::new("localhost");
    let w = WsId("w1".to_string());
    d.ws_opened(&w);
    let actions = d.handle_frame(r#"{"type":"ws_close","ws_id":"w1"}"#, 0).unwrap();
    assert_eq!(
        actions,
        vec![Action::CloseWebSocket {
            ws_id: w.clone(),
            message: WsMessage::Close(Some((1000, String::new()))),
        }]
    );
    assert!(!d.state().has_ws_proxy(&w));
    assert_eq!(d.handle_frame(r#"{"type":"ws_close","ws_id":"w1"}"#, 0).unwrap(), vec![]);

    d.ws_opened(&w);
    let actions =
        d.handle_frame(r#"{"type":"ws_close","ws_id":"w1","code":4000,"reason":"bye"}"#, 0).unwrap();
    assert_eq!(
        actions,
        vec![Action::CloseWebSocket {
            ws_id: w.clone(),
            message: WsMessage::Close(Some((4000, "bye".to_string()))),
        }]
    );
}

#[test]
fn ws_dial_failure_closes_with_1011() {
    let d = Dispatcher::new("localhost");
    let actions = d.ws_open_failed(&WsId("w1".to_string()), "refused");
    match &actions[..] {
        [Action::Send(frame)] => assert_eq!(
            frame.to_json(),
            r#"{"type":"ws_close","ws_id":"w1","code":1011,"reason":"Local connection failed: refused"}"#
        ),
        other => panic!("unexpected actions {:?}", other),
    }
}

#[test]
fn heartbeat_and_error_ask_for_nothing() {
    let mut d = Dispatcher::new("localhost");
    assert_eq!(d.handle_frame(r#"{"type":"heartbeat"}"#, 0).unwrap(), vec![]);
    assert_eq!(
        d.handle_frame(r#"{"type":"error","code":"E","message":"m"}"#, 0).unwrap(),
        vec![]
    );
}

#[test]
fn malformed_frame_changes_nothing() {
    let mut d = registered_http(8080);
    assert_eq!(d.handle_frame("{", 0), Err(MalformedFrame::NotJson));
    assert_eq!(d.handle_frame(r#"{"type":"nope"}"#, 0), Err(MalformedFrame::UnknownTag));
    assert_eq!(d.state().find_tunnel_port(&TunnelId("t1".to_string())), Some(8080));
}

#[test]
fn commands_register_and_give_the_intent() {
    let mut d = Dispatcher::new("localhost");
    let (config, frame) = d.handle_command(
        "brw_t",
        TuiCommand::AddHttpTunnel { local_port: 8080, subdomain: Some("foo".to_string()) },
    );
    assert_eq!(config, TunnelConfig::Http { local_port: 8080, subdomain: Some("foo".to_string()) });
    assert_eq!(
        frame.to_json(),
        r#"{"type":"register_tunnel","token":"brw_t","local_host":"localhost","local_port":8080,"requested_subdomain":"foo"}"#
    );
    assert_eq!(d.state().pending_tunnel(0).map(|p| p.local_port), Some(8080));
    assert_eq!(d.state().pending_tunnel(1), None);
    let (config, frame) = d.handle_command("brw_t", TuiCommand::AddTcpTunnel { local_port: 22 });
    assert_eq!(config, TunnelConfig::Tcp { local_port: 22 });
    assert_eq!(frame, OutgoingMessage::register_tcp_tunnel(22));
}

#[test]
fn flows_keep_their_order_under_interleaving() {
    let mut d = Dispatcher::new("localhost");
    let a = TcpId("a".to_string());
    let b = TcpId("b".to_string());
    d.tcp_opened(&a);
    d.tcp_opened(&b);
    let chunk = |id: &str, s: &str| IncomingMessage::TcpData {
        tcp_id: TcpId(id.to_string()),
        data: s.to_string(),
        data_encoding: None,
    };
    let mut got_a = Vec::new();
    let mut got_b = Vec::new();
    for (id, s) in [("a", "1"), ("b", "x"), ("b", "y"), ("a", "2"), ("c", "?"), ("a", "3"), ("b", "z")] {
        for action in d.handle_message(chunk(id, s), 0) {
            match action {
                Action::TcpToLocal { tcp_id, data } if tcp_id == a => got_a.push(data),
                Action::TcpToLocal { tcp_id, data } if tcp_id == b => got_b.push(data),
                other => panic!("unexpected action {:?}", other),
            }
        }
    }
    assert_eq!(got_a, vec![b"1".to_vec(), b"2".to_vec(), b"3".to_vec()]);
    assert_eq!(got_b, vec![b"x".to_vec(), b"y".to_vec(), b"z".to_vec()]);
}

#[test]
fn ws_flows_keep_their_order_under_interleaving() {
    let mut d = Dispatcher::new("localhost");
    let a = WsId("a".to_string());
    let b = WsId("b".to_string());
    d.ws_opened(&a);
    d.ws_opened(&b);
    let frame = |id: &str, s: &str| IncomingMessage::WsFrame {
        ws_id: WsId(id.to_string()),
        opcode: "text".to_string(),
        data: s.to_string(),
        data_encoding: None,
    };
    let mut got_a = Vec::new();
    let mut got_b = Vec::new();
    for (id, s) in [("b", "x"), ("a", "1"), ("a", "2"), ("b", "y"), ("zz", "?"), ("a", "3")] {
        for action in d.handle_message(frame(id, s), 0) {
            match action {
                Action::WsToLocal { ws_id, message } if ws_id == a => got_a.push(message),
                Action::WsToLocal { ws_id, message } if ws_id == b => got_b.push(message),
                other => panic!("unexpected action {:?}", other),
            }
        }
    }
    let text = |s: &str| WsMessage::Text(s.to_string());
    assert_eq!(got_a, vec![text("1"), text("2"), text("3")]);
    assert_eq!(got_b, vec![text("x"), text("y")]);
}
