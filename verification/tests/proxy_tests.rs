use burrow_client::http_proxy::{
    digest_response, is_hop_by_hop, plan_request, request_headers, response_headers, set_header,
    target_url, HttpRequest, HttpResponse,
};
use burrow_client::ids::{TcpId, WsId};
use burrow_client::messages::OutgoingMessage;
use burrow_client::tcp_proxy;
use burrow_client::ws_proxy::{
    close_frame, connect_plan, from_local, local_url, next_state, step_event, to_local,
    upgrade_headers, FlowEvent, FlowState, FlowStep, WsMessage,
};

fn h(name: &str, value: &str) -> (String, String) {
    (name.to_string(), value.to_string())
}

#[test]
fn target_url_with_and_without_query() {
    assert_eq!(target_url("localhost", 8080, "/hi", ""), "http://localhost:8080/hi");
    assert_eq!(target_url("127.0.0.1", 3000, "/a/b", "x=1&y=2"), "http://127.0.0.1:3000/a/b?x=1&y=2");
    assert_eq!(target_url("h", 0, "", ""), "http://h:0");
    assert_eq!(target_url("h", 65535, "/", "q"), "http://h:65535/?q");
}

#[test]
fn hop_by_hop_names_in_any_case() {
    for name in [
        "connection",
        "Keep-Alive",
        "PROXY-AUTHENTICATE",
        "proxy-authorization",
        "TE",
        "Trailers",
        "Transfer-Encoding",
        "upgrade",
    ] {
        assert!(is_hop_by_hop(name), "{}", name);
    }
    for name in ["host", "content-type", "", "connection ", "tee", "\u{212a}eep-alive", "upgradé"] {
        assert!(!is_hop_by_hop(name), "{}", name);
    }
}

#[test]
fn request_headers_drop_hop_by_hop_host_and_invalid() {
    let headers = vec![
        h("Accept", "*/*"),
        h("Host", "foo.example"),
        h("Connection", "keep-alive"),
        h("bad name", "x"),
        h("x-bad-value", "line\nbreak"),
        h("X-Tab", "a\tb"),
        h("x-utf8", "héllo"),
        h("", "empty"),
        h("accept", "text/html"),
    ];
    assert_eq!(
        request_headers(&headers),
        vec![h("Accept", "text/html"), h("X-Tab", "a\tb"), h("x-utf8", "héllo")]
    );
}

#[test]
fn a_later_header_takes_the_place_of_an_earlier_one() {
    let mut headers = vec![h("a", "1"), h("b", "2")];
    set_header(&mut headers, &"B".to_string(), &"3".to_string());
    set_header(&mut headers, &"c".to_string(), &"4".to_string());
    set_header(&mut headers, &"A".to_string(), &"5".to_string());
    assert_eq!(headers, vec![h("a", "5"), h("b", "3"), h("c", "4")]);
}

#[test]
fn plan_request_builds_the_one_request() {
    let planned = plan_request(
        "localhost",
        8080,
        "POST",
        "/submit",
        "a=1",
        &vec![h("content-type", "text/plain"), h("te", "trailers")],
        Some(b"body".to_vec()),
    );
    assert_eq!(
        planned,
        Ok(HttpRequest {
            url: "http://localhost:8080/submit?a=1".to_string(),
            method: "POST".to_string(),
            headers: vec![h("content-type", "text/plain")],
            body: Some(b"body".to_vec()),
        })
    );
}

#[test]
fn plan_request_refuses_a_method_that_is_none() {
    assert_eq!(
        plan_request("localhost", 8080, "GE T", "/", "", &vec![], None),
        Err("invalid HTTP method".to_string())
    );
    assert_eq!(
        plan_request("localhost", 8080, "", "/", "", &vec![], None),
        Err("invalid HTTP method".to_string())
    );
    assert!(plan_request("localhost", 8080, "PURGE", "/", "", &vec![], None).is_ok());
}

#[test]
fn response_headers_drop_hop_by_hop_and_unreadable_values() {
    let raw = vec![
        ("content-type".to_string(), b"text/plain".to_vec()),
        ("transfer-encoding".to_string(), b"chunked".to_vec()),
        ("x-bin".to_string(), vec![0xff, 0xfe]),
        ("host".to_string(), b"kept".to_vec()),
        ("x-ctl".to_string(), vec![b'a', 0x01]),
        ("x-empty".to_string(), vec![]),
    ];
    assert_eq!(
        response_headers(&raw),
        vec![h("content-type", "text/plain"), h("host", "kept"), h("x-empty", "")]
    );
}

#[test]
fn empty_response_body_is_absent() {
    assert_eq!(
        digest_response(200, &vec![], Some(vec![])),
        HttpResponse { status: 200, headers: vec![], body: None }
    );
    assert_eq!(
        digest_response(404, &vec![], None),
        HttpResponse { status: 404, headers: vec![], body: None }
    );
    assert_eq!(
        digest_response(301, &vec![("location".to_string(), b"/x".to_vec())], Some(b"moved".to_vec())),
        HttpResponse { status: 301, headers: vec![h("location", "/x")], body: Some(b"moved".to_vec()) }
    );
}

#[test]
fn ws_url_and_mirrored_headers() {
    assert_eq!(local_url("localhost", 8080, "/ws"), "ws://localhost:8080/ws");
    let rows = vec![
        vec!["Cookie".to_string(), "s=1".to_string()],
        vec!["user-agent".to_string(), "x".to_string()],
        vec!["AUTHORIZATION".to_string(), "Bearer t".to_string(), "extra".to_string()],
        vec!["cookie".to_string()],
        vec![],
        vec!["cookie".to_string(), "bad\r\nvalue".to_string()],
        vec!["COOKIE".to_string(), "s=2".to_string()],
    ];
    assert_eq!(upgrade_headers(&rows), vec![h("Cookie", "s=2"), h("AUTHORIZATION", "Bearer t")]);
    let plan = connect_plan("127.0.0.1", 9, "/", &rows);
    assert_eq!(plan.url, "ws://127.0.0.1:9/");
    assert_eq!(plan.headers.len(), 2);
}

#[test]
fn ws_frames_for_the_local_socket() {
    assert_eq!(to_local("text", b"hi".to_vec()), WsMessage::Text("hi".to_string()));
    assert_eq!(to_local("text", vec![b'a', 0xff]), WsMessage::Text("a\u{fffd}".to_string()));
    assert_eq!(to_local("binary", vec![1]), WsMessage::Binary(vec![1]));
    assert_eq!(to_local("ping", vec![2]), WsMessage::Ping(vec![2]));
    assert_eq!(to_local("pong", vec![3]), WsMessage::Pong(vec![3]));
    assert_eq!(to_local("close", vec![4]), WsMessage::Close(Some((1000, String::new()))));
    assert_eq!(to_local("TEXT", vec![5]), WsMessage::Binary(vec![5]));
    assert_eq!(close_frame(None, None), WsMessage::Close(Some((1000, String::new()))));
    assert_eq!(
        close_frame(Some(1001), Some("away".to_string())),
        WsMessage::Close(Some((1001, "away".to_string())))
    );
}

#[test]
fn ws_frames_for_the_server() {
    let w = WsId("w1".to_string());
    let json = |m: WsMessage| {
        let step = from_local(&w, m);
        (step.frame.map(|f| f.to_json()), step.finished)
    };
    assert_eq!(
        json(WsMessage::Binary(vec![0, 255])),
        (
            Some(r#"{"type":"ws_frame","ws_id":"w1","opcode":"binary","data":"AP8=","data_encoding":"base64"}"#.to_string()),
            false
        )
    );
    assert_eq!(
        json(WsMessage::Ping(b"p".to_vec())),
        (
            Some(r#"{"type":"ws_frame","ws_id":"w1","opcode":"ping","data":"cA==","data_encoding":"base64"}"#.to_string()),
            false
        )
    );
    assert_eq!(
        json(WsMessage::Pong(vec![])),
        (
            Some(r#"{"type":"ws_frame","ws_id":"w1","opcode":"pong","data":"","data_encoding":"base64"}"#.to_string()),
            false
        )
    );
    assert_eq!(
        json(WsMessage::Close(None)),
        (Some(r#"{"type":"ws_close","ws_id":"w1","code":1000,"reason":""}"#.to_string()), true)
    );
    assert_eq!(
        json(WsMessage::Close(Some((1001, "bye".to_string())))),
        (Some(r#"{"type":"ws_close","ws_id":"w1","code":1001,"reason":"bye"}"#.to_string()), true)
    );
    assert_eq!(json(WsMessage::Frame), (None, true));
}

#[test]
fn tcp_reads() {
    let c = TcpId("c1".to_string());
    assert_eq!(tcp_proxy::local_address(7777), "localhost:7777");
    assert_eq!(tcp_proxy::READ_BUFFER_SIZE, 8192);
    assert_eq!(tcp_proxy::FLOW_QUEUE_CAPACITY, 64);
    let step = tcp_proxy::on_read(&c, Err("broken pipe".to_string()));
    assert!(step.finished);
    assert_eq!(step.frame, Some(OutgoingMessage::tcp_close(&c, "broken pipe")));
    let step = tcp_proxy::on_read(&c, Ok(vec![0xff]));
    assert!(!step.finished);
    assert_eq!(step.frame, Some(OutgoingMessage::tcp_data(&c, &[0xff])));
}

#[test]
fn the_life_of_a_flow() {
    assert_eq!(next_state(FlowState::Connecting, FlowEvent::DialSucceeded), FlowState::Open);
    assert_eq!(next_state(FlowState::Connecting, FlowEvent::DialFailed), FlowState::Failed);
    assert_eq!(next_state(FlowState::Connecting, FlowEvent::CloseSeen), FlowState::Connecting);
    assert_eq!(next_state(FlowState::Open, FlowEvent::CloseSeen), FlowState::Closing);
    assert_eq!(next_state(FlowState::Open, FlowEvent::Fault), FlowState::Failed);
    assert_eq!(next_state(FlowState::Open, FlowEvent::DialSucceeded), FlowState::Open);
    assert_eq!(next_state(FlowState::Closing, FlowEvent::Fault), FlowState::Closing);
    assert_eq!(next_state(FlowState::Failed, FlowEvent::CloseSeen), FlowState::Failed);
    for state in [FlowState::Connecting, FlowState::Open, FlowState::Closing, FlowState::Failed, FlowState::Closed] {
        assert_eq!(next_state(state, FlowEvent::Finished), FlowState::Closed);
    }
    for event in [FlowEvent::DialSucceeded, FlowEvent::DialFailed, FlowEvent::CloseSeen, FlowEvent::Fault, FlowEvent::Finished] {
        assert_eq!(next_state(FlowState::Closed, event), FlowState::Closed);
    }
    let w = WsId("w".to_string());
    assert_eq!(step_event(&from_local(&w, WsMessage::Text("x".to_string()))), None);
    assert_eq!(step_event(&from_local(&w, WsMessage::Close(None))), Some(FlowEvent::CloseSeen));
    assert_eq!(step_event(&FlowStep { frame: None, finished: true }), Some(FlowEvent::Fault));
}
