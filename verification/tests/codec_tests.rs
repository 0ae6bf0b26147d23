use burrow_client::decode::MalformedFrame;
use burrow_client::ids::{RequestId, TcpId, TcpTunnelId, TunnelId, WsId};
use burrow_client::json::Json;
use burrow_client::messages::{IncomingMessage, OutgoingMessage};

#[test]
fn heartbeat_is_an_empty_object_with_its_tag() {
    assert_eq!(OutgoingMessage::heartbeat().to_json(), r#"{"type":"heartbeat"}"#);
}

#[test]
fn register_tunnel_with_and_without_subdomain() {
    let m = OutgoingMessage::register_tunnel("brw_x", "localhost", 8080, Some("foo".to_string()));
    assert_eq!(
        m.to_json(),
        r#"{"type":"register_tunnel","token":"brw_x","local_host":"localhost","local_port":8080,"requested_subdomain":"foo"}"#
    );
    let m = OutgoingMessage::register_tunnel("brw_x", "localhost", 0, None);
    assert_eq!(
        m.to_json(),
        r#"{"type":"register_tunnel","token":"brw_x","local_host":"localhost","local_port":0}"#
    );
}

#[test]
fn tunnel_response_text_body_has_no_encoding_tag() {
    let m = OutgoingMessage::tunnel_response(
        &RequestId("r1".to_string()),
        200,
        vec![("content-type".to_string(), "text/plain".to_string())],
        Some(b"pong".to_vec()),
    );
    assert_eq!(
        m.to_json(),
        r#"{"type":"tunnel_response","request_id":"r1","status":200,"headers":[["content-type","text/plain"]],"body":"pong"}"#
    );
}

#[test]
fn tunnel_response_binary_body_is_base64() {
    let m = OutgoingMessage::tunnel_response(
        &RequestId("r2".to_string()),
        65535,
        vec![("a".to_string(), "1".to_string()), ("b".to_string(), "2".to_string())],
        Some(vec![0xff, 0x00]),
    );
    assert_eq!(
        m.to_json(),
        r#"{"type":"tunnel_response","request_id":"r2","status":65535,"headers":[["a","1"],["b","2"]],"body":"/wA=","body_encoding":"base64"}"#
    );
}

#[test]
fn tunnel_response_without_body_or_headers() {
    let m = OutgoingMessage::tunnel_response(&RequestId("r".to_string()), 204, vec![], None);
    assert_eq!(
        m.to_json(),
        r#"{"type":"tunnel_response","request_id":"r","status":204,"headers":[]}"#
    );
}

#[test]
fn strings_are_escaped_by_the_json_rules() {
    let m = OutgoingMessage::tcp_close(&TcpId("c\"1".to_string()), "line\nbreak\\");
    assert_eq!(m.to_json(), r#"{"type":"tcp_close","tcp_id":"c\"1","reason":"line\nbreak\\"}"#);
}

#[test]
fn tcp_frames() {
    let id = TcpId("c1".to_string());
    assert_eq!(
        OutgoingMessage::tcp_connected(&id).to_json(),
        r#"{"type":"tcp_connected","tcp_id":"c1"}"#
    );
    assert_eq!(
        OutgoingMessage::tcp_data(&id, b"ABC").to_json(),
        r#"{"type":"tcp_data","tcp_id":"c1","data":"QUJD","data_encoding":"base64"}"#
    );
    assert_eq!(
        OutgoingMessage::register_tcp_tunnel(7777).to_json(),
        r#"{"type":"register_tcp_tunnel","local_port":7777}"#
    );
}

#[test]
fn ws_frames() {
    let id = WsId("w1".to_string());
    let m = OutgoingMessage::WsUpgraded { ws_id: id.clone(), headers: vec![] };
    assert_eq!(m.to_json(), r#"{"type":"ws_upgraded","ws_id":"w1","headers":[]}"#);
    let m = OutgoingMessage::WsFrame {
        ws_id: id.clone(),
        opcode: "text".to_string(),
        data: "hi".to_string(),
        data_encoding: None,
    };
    assert_eq!(m.to_json(), r#"{"type":"ws_frame","ws_id":"w1","opcode":"text","data":"hi"}"#);
    let m = OutgoingMessage::WsClose { ws_id: id, code: 1011, reason: "x".to_string() };
    assert_eq!(m.to_json(), r#"{"type":"ws_close","ws_id":"w1","code":1011,"reason":"x"}"#);
}

#[test]
fn incoming_tunnel_request_with_optional_members_absent() {
    let text = r#"{"type":"tunnel_request","request_id":"r1","tunnel_id":"t1","method":"GET","path":"/hi","query_string":"","headers":[["accept","*/*"]],"body":null,"extra":[1,2.5,{"a":-1}]}"#;
    assert_eq!(
        IncomingMessage::from_json(text),
        Ok(IncomingMessage::TunnelRequest {
            request_id: RequestId("r1".to_string()),
            tunnel_id: TunnelId("t1".to_string()),
            method: "GET".to_string(),
            path: "/hi".to_string(),
            query_string: String::new(),
            headers: vec![vec!["accept".to_string(), "*/*".to_string()]],
            body: None,
            body_encoding: None,
            client_ip: None,
        })
    );
}

#[test]
fn incoming_messages_of_each_kind() {
    assert_eq!(
        IncomingMessage::from_json(
            r#"{"type":"tunnel_registered","tunnel_id":"t1","subdomain":"foo","full_url":"https://foo.example"}"#
        ),
        Ok(IncomingMessage::TunnelRegistered {
            tunnel_id: TunnelId("t1".to_string()),
            subdomain: "foo".to_string(),
            full_url: "https://foo.example".to_string(),
        })
    );
    assert_eq!(
        IncomingMessage::from_json(
            r#"{"type":"tcp_tunnel_registered","tcp_tunnel_id":"T","server_port":15000,"local_port":7777}"#
        ),
        Ok(IncomingMessage::TcpTunnelRegistered {
            tcp_tunnel_id: TcpTunnelId("T".to_string()),
            server_port: 15000,
            local_port: 7777,
        })
    );
    assert_eq!(
        IncomingMessage::from_json(r#"{"tcp_tunnel_id":"T","tcp_id":"c1","type":"tcp_connect"}"#),
        Ok(IncomingMessage::TcpConnect {
            tcp_id: TcpId("c1".to_string()),
            tcp_tunnel_id: TcpTunnelId("T".to_string()),
        })
    );
    assert_eq!(
        IncomingMessage::from_json(
            r#"{"type":"tcp_data","tcp_id":"c1","data":"QUJD","data_encoding":"base64"}"#
        ),
        Ok(IncomingMessage::TcpData {
            tcp_id: TcpId("c1".to_string()),
            data: "QUJD".to_string(),
            data_encoding: Some("base64".to_string()),
        })
    );
    assert_eq!(
        IncomingMessage::from_json(r#"{"type":"tcp_close","tcp_id":"c1"}"#),
        Ok(IncomingMessage::TcpClose { tcp_id: TcpId("c1".to_string()), reason: None })
    );
    assert_eq!(
        IncomingMessage::from_json(
            r#"{"type":"ws_upgrade","ws_id":"w1","tunnel_id":"t1","path":"/ws","headers":[["cookie","s=1"]]}"#
        ),
        Ok(IncomingMessage::WsUpgrade {
            ws_id: WsId("w1".to_string()),
            tunnel_id: TunnelId("t1".to_string()),
            path: "/ws".to_string(),
            headers: vec![vec!["cookie".to_string(), "s=1".to_string()]],
        })
    );
    assert_eq!(
        IncomingMessage::from_json(r#"{"type":"ws_frame","ws_id":"w1","opcode":"text","data":"hi"}"#),
        Ok(IncomingMessage::WsFrame {
            ws_id: WsId("w1".to_string()),
            opcode: "text".to_string(),
            data: "hi".to_string(),
            data_encoding: None,
        })
    );
    assert_eq!(
        IncomingMessage::from_json(r#"{"type":"heartbeat"}"#),
        Ok(IncomingMessage::Heartbeat)
    );
    assert_eq!(
        IncomingMessage::from_json(r#"{"type":"error","code":"E1","message":"boom"}"#),
        Ok(IncomingMessage::Error { code: "E1".to_string(), message: "boom".to_string() })
    );
}

#[test]
fn ws_close_members_are_optional() {
    assert_eq!(
        IncomingMessage::from_json(r#"{"type":"ws_close","ws_id":"w1"}"#),
        Ok(IncomingMessage::WsClose { ws_id: WsId("w1".to_string()), code: None, reason: None })
    );
    assert_eq!(
        IncomingMessage::from_json(r#"{"type":"ws_close","ws_id":"w1","code":1001,"reason":"bye"}"#),
        Ok(IncomingMessage::WsClose {
            ws_id: WsId("w1".to_string()),
            code: Some(1001),
            reason: Some("bye".to_string()),
        })
    );
}

#[test]
fn each_malformed_frame_error() {
    assert_eq!(IncomingMessage::from_json("{not json"), Err(MalformedFrame::NotJson));
    assert_eq!(IncomingMessage::from_json(""), Err(MalformedFrame::NotJson));
    assert_eq!(IncomingMessage::from_json("[1,2]"), Err(MalformedFrame::MissingTag));
    assert_eq!(IncomingMessage::from_json(r#"{"tcp_id":"c1"}"#), Err(MalformedFrame::MissingTag));
    assert_eq!(IncomingMessage::from_json(r#"{"type":7}"#), Err(MalformedFrame::MissingTag));
    assert_eq!(
        IncomingMessage::from_json(r#"{"type":"tunnel_destroyed"}"#),
        Err(MalformedFrame::UnknownTag)
    );
    assert_eq!(
        IncomingMessage::from_json(r#"{"type":"tcp_connect","tcp_id":"c1"}"#),
        Err(MalformedFrame::BadField)
    );
    assert_eq!(
        IncomingMessage::from_json(
            r#"{"type":"tcp_tunnel_registered","tcp_tunnel_id":"T","server_port":65536,"local_port":1}"#
        ),
        Err(MalformedFrame::BadField)
    );
    assert_eq!(
        IncomingMessage::from_json(
            r#"{"type":"tcp_tunnel_registered","tcp_tunnel_id":"T","server_port":-1,"local_port":1}"#
        ),
        Err(MalformedFrame::BadField)
    );
    assert_eq!(
        IncomingMessage::from_json(
            r#"{"type":"ws_upgrade","ws_id":"w","tunnel_id":"t","path":"/","headers":[["a",1]]}"#
        ),
        Err(MalformedFrame::BadField)
    );
    assert_eq!(
        IncomingMessage::from_json(r#"{"type":"ws_close","ws_id":"w1","reason":5}"#),
        Err(MalformedFrame::BadField)
    );
}

#[test]
fn json_parse_gives_the_document_tree() {
    assert_eq!(
        Json::parse(r#"{"a":[1,"x",null,true,-2,1.5]}"#),
        Some(Json::Object(vec![(
            "a".to_string(),
            Json::Array(vec![
                Json::Number(Some(1)),
                Json::Str("x".to_string()),
                Json::Null,
                Json::Bool(true),
                Json::Number(None),
                Json::Number(None),
            ])
        )]))
    );
    assert_eq!(Json::parse("nope"), None);
}

#[test]
fn decode_reads_a_tree_built_by_hand() {
    let j = Json::Object(vec![
        ("tcp_id".to_string(), Json::Str("c9".to_string())),
        ("type".to_string(), Json::Str("tcp_close".to_string())),
        ("reason".to_string(), Json::Str("done".to_string())),
    ]);
    assert_eq!(
        IncomingMessage::decode(&j),
        Ok(IncomingMessage::TcpClose {
            tcp_id: TcpId("c9".to_string()),
            reason: Some("done".to_string()),
        })
    );
}

#[test]
fn unknown_members_are_ignored() {
    let with = r#"{"type":"tcp_close","tcp_id":"c1","reason":"r","extra":{"deep":[1,2,3]},"zzz":null}"#;
    let without = r#"{"type":"tcp_close","tcp_id":"c1","reason":"r"}"#;
    assert_eq!(IncomingMessage::from_json(with), IncomingMessage::from_json(without));
    assert!(IncomingMessage::from_json(with).is_ok());
}
