use burrow_client::events::{
    ConnectionStatus, RequestEvent, ResponseEvent, TcpTunnelEvent, TuiCommand, TuiEvent, TunnelEvent,
};
use burrow_client::ids::RequestId;
use burrow_client::tui::{
    handle_key, AddTunnelField, App, Key, TunnelType, ViewMode, COMMAND_CHANNEL_CAPACITY,
    EVENT_CHANNEL_CAPACITY, MAX_REQUESTS,
};
use burrow_client::ui::{
    format_body, format_headers, get_header_value, method_color, status_color, status_text,
    truncate_path, truncate_string, Tone,
};

fn request(id: &str) -> TuiEvent {
    TuiEvent::RequestReceived(RequestEvent {
        request_id: RequestId(id.to_string()),
        method: "GET".to_string(),
        path: "/".to_string(),
        query_string: String::new(),
        headers: vec![],
        body: None,
        timestamp: 1,
        client_ip: None,
    })
}

fn ids(app: &App) -> Vec<String> {
    app.requests.iter().map(|r| r.id.to_string()).collect()
}

#[test]
fn starts_on_the_tunnel_list() {
    let app = App::new();
    assert_eq!(app.view_mode, ViewMode::TunnelList);
    assert_eq!(app.connection_status, ConnectionStatus::Connecting);
    assert_eq!(app.table_state, None);
    assert!(!app.should_quit);
    assert!(!app.is_connected() && !app.is_reconnecting() && !app.is_disconnected());
    assert_eq!(TunnelType::default(), TunnelType::Http);
    assert_eq!(EVENT_CHANNEL_CAPACITY, 256);
    assert_eq!(COMMAND_CHANNEL_CAPACITY, 64);
    assert_eq!(MAX_REQUESTS, 1000);
}

#[test]
fn requests_are_logged_newest_first_and_selection_follows() {
    let mut app = App::new();
    app.handle_event(request("a"));
    assert_eq!(app.table_state, Some(0));
    app.handle_event(request("b"));
    app.handle_event(request("c"));
    assert_eq!(ids(&app), vec!["c", "b", "a"]);
    assert_eq!(app.table_state, Some(2));
    app.previous();
    assert_eq!(app.table_state, Some(1));
    app.previous();
    app.previous();
    assert_eq!(app.table_state, Some(0));
    app.next();
    app.next();
    app.next();
    assert_eq!(app.table_state, Some(2));
    app.go_to_top();
    assert_eq!(app.table_state, Some(0));
    app.go_to_bottom();
    assert_eq!(app.table_state, Some(2));
    app.clear();
    assert_eq!(app.table_state, None);
    assert!(app.requests.is_empty());
    app.next();
    app.go_to_bottom();
    assert_eq!(app.table_state, None);
}

#[test]
fn the_log_keeps_a_thousand_requests() {
    let mut app = App::new();
    for i in 0..1001 {
        app.handle_event(request(&i.to_string()));
    }
    assert_eq!(app.requests.len(), 1000);
    assert_eq!(app.requests[0].id.to_string(), "1000");
    assert_eq!(app.requests[999].id.to_string(), "1");
    assert_eq!(app.table_state, Some(999));
}

#[test]
fn a_response_completes_the_first_request_with_its_id() {
    let mut app = App::new();
    app.handle_event(request("a"));
    app.handle_event(request("b"));
    app.handle_event(request("a"));
    app.handle_event(TuiEvent::ResponseSent(ResponseEvent {
        request_id: RequestId("a".to_string()),
        status: 201,
        headers: vec![("x".to_string(), "y".to_string())],
        body: Some(b"ok".to_vec()),
        duration_ms: 9,
    }));
    assert_eq!(app.requests[0].status, Some(201));
    assert_eq!(app.requests[0].response_headers, vec![("x".to_string(), "y".to_string())]);
    assert_eq!(app.requests[0].response_body, Some(b"ok".to_vec()));
    assert_eq!(app.requests[0].duration_ms, Some(9));
    assert_eq!(app.requests[1].status, None);
    assert_eq!(app.requests[2].status, None);
    app.handle_event(TuiEvent::ResponseSent(ResponseEvent {
        request_id: RequestId("zzz".to_string()),
        status: 500,
        headers: vec![],
        body: None,
        duration_ms: 0,
    }));
    assert_eq!(ids(&app), vec!["a", "b", "a"]);
}

#[test]
fn tunnels_are_listed_and_cleared_while_reconnecting() {
    let mut app = App::new();
    app.handle_event(TuiEvent::TunnelRegistered(TunnelEvent {
        full_url: "https://foo".to_string(),
        local_port: 1,
    }));
    app.handle_event(TuiEvent::TcpTunnelRegistered(TcpTunnelEvent { server_port: 2, local_port: 3 }));
    app.handle_event(TuiEvent::ConnectionStatus(ConnectionStatus::Connected));
    assert!(app.is_connected());
    assert_eq!(app.tunnels.len(), 1);
    app.tunnel_next();
    assert_eq!(app.tunnel_list_state, Some(0));
    app.tunnel_next();
    app.tunnel_next();
    assert_eq!(app.tunnel_list_state, Some(1));
    app.tunnel_previous();
    assert_eq!(app.tunnel_list_state, Some(0));
    app.handle_event(TuiEvent::ConnectionStatus(ConnectionStatus::Reconnecting {
        attempt: 1,
        reason: "x".to_string(),
        next_retry_secs: 1,
    }));
    assert!(app.is_reconnecting());
    assert!(app.tunnels.is_empty() && app.tcp_tunnels.is_empty());
    app.handle_event(TuiEvent::ConnectionStatus(ConnectionStatus::Disconnected {
        reason: "x".to_string(),
    }));
    assert!(app.is_disconnected());
}

#[test]
fn the_form_takes_a_port_and_a_subdomain() {
    let mut app = App::new();
    app.handle_event(TuiEvent::ConnectionStatus(ConnectionStatus::Connected));
    assert_eq!(handle_key(&mut app, Key::Char('a')), None);
    assert_eq!(app.view_mode, ViewMode::AddTunnel);
    assert_eq!(app.add_tunnel_field, AddTunnelField::Port);
    for c in "8x0806".chars() {
        handle_key(&mut app, Key::Char(c));
    }
    assert_eq!(app.add_tunnel_port, "80806");
    handle_key(&mut app, Key::Backspace);
    assert_eq!(app.add_tunnel_port, "8080");
    handle_key(&mut app, Key::Tab);
    assert_eq!(app.add_tunnel_field, AddTunnelField::Subdomain);
    for c in "My_App-1é".chars() {
        handle_key(&mut app, Key::Char(c));
    }
    assert_eq!(app.add_tunnel_subdomain, "myapp-1");
    let cmd = handle_key(&mut app, Key::Enter);
    assert_eq!(
        cmd,
        Some(TuiCommand::AddHttpTunnel { local_port: 8080, subdomain: Some("myapp-1".to_string()) })
    );
    assert_eq!(app.view_mode, ViewMode::AddTunnel);
    app.command_sent();
    assert_eq!(app.view_mode, ViewMode::TunnelList);
}

#[test]
fn the_form_refuses_a_missing_port() {
    let mut app = App::new();
    app.enter_add_tunnel();
    assert_eq!(app.form_submit(), None);
    assert_eq!(app.add_tunnel_error.as_deref(), Some("Invalid port number"));
    app.form_input_char('0');
    assert_eq!(app.add_tunnel_error, None);
    assert_eq!(app.form_submit(), None);
    assert_eq!(app.add_tunnel_error.as_deref(), Some("Invalid port number"));
    app.add_tunnel_port = "70000".to_string();
    assert_eq!(app.form_submit(), None);
    app.add_tunnel_port = "22".to_string();
    app.form_prev_field();
    assert_eq!(app.add_tunnel_field, AddTunnelField::TunnelType);
    handle_key(&mut app, Key::Char(' '));
    assert_eq!(app.add_tunnel_type, TunnelType::Tcp);
    assert_eq!(app.form_submit(), Some(TuiCommand::AddTcpTunnel { local_port: 22 }));
    app.command_failed();
    assert_eq!(app.add_tunnel_error.as_deref(), Some("Failed to send command"));
    assert_eq!(app.view_mode, ViewMode::AddTunnel);
}

#[test]
fn the_focus_walks_the_fields() {
    let mut app = App::new();
    app.enter_add_tunnel();
    app.form_next_field();
    assert_eq!(app.add_tunnel_field, AddTunnelField::Subdomain);
    app.form_input_char('a');
    app.form_toggle_type();
    assert_eq!(app.add_tunnel_type, TunnelType::Tcp);
    assert_eq!(app.add_tunnel_field, AddTunnelField::Port);
    assert_eq!(app.add_tunnel_subdomain, "");
    app.form_next_field();
    assert_eq!(app.add_tunnel_field, AddTunnelField::TunnelType);
    app.form_prev_field();
    assert_eq!(app.add_tunnel_field, AddTunnelField::Port);
    app.form_toggle_type();
    assert_eq!(app.add_tunnel_type, TunnelType::Http);
    app.form_next_field();
    app.form_next_field();
    assert_eq!(app.add_tunnel_field, AddTunnelField::TunnelType);
    app.form_prev_field();
    assert_eq!(app.add_tunnel_field, AddTunnelField::Subdomain);
    for _ in 0..40 {
        app.form_input_char('a');
    }
    assert_eq!(app.add_tunnel_subdomain.len(), 32);
}

#[test]
fn keys_move_between_the_views() {
    let mut app = App::new();
    handle_key(&mut app, Key::Char('a'));
    assert_eq!(app.view_mode, ViewMode::TunnelList);
    handle_key(&mut app, Key::Enter);
    assert_eq!(app.view_mode, ViewMode::RequestList);
    handle_key(&mut app, Key::Enter);
    assert_eq!(app.view_mode, ViewMode::RequestList);
    app.handle_event(request("a"));
    handle_key(&mut app, Key::Char('j'));
    handle_key(&mut app, Key::Enter);
    assert_eq!(app.view_mode, ViewMode::RequestDetail);
    handle_key(&mut app, Key::Other);
    assert_eq!(app.view_mode, ViewMode::RequestDetail);
    handle_key(&mut app, Key::Esc);
    assert_eq!(app.view_mode, ViewMode::RequestList);
    handle_key(&mut app, Key::Char('c'));
    assert!(app.requests.is_empty());
    handle_key(&mut app, Key::Esc);
    assert_eq!(app.view_mode, ViewMode::TunnelList);
    app.back();
    assert_eq!(app.view_mode, ViewMode::TunnelList);
    assert!(!app.should_quit);
    handle_key(&mut app, Key::Char('q'));
    assert!(app.should_quit);
}

#[test]
fn status_phrases_and_colours() {
    assert_eq!(status_text(200), "OK");
    assert_eq!(status_text(404), "Not Found");
    assert_eq!(status_text(502), "Bad Gateway");
    assert_eq!(status_text(418), "");
    assert_eq!(method_color("GET"), Tone::Green);
    assert_eq!(method_color("POST"), Tone::Blue);
    assert_eq!(method_color("PUT"), Tone::Yellow);
    assert_eq!(method_color("PATCH"), Tone::Yellow);
    assert_eq!(method_color("DELETE"), Tone::Red);
    assert_eq!(method_color("get"), Tone::White);
    assert_eq!(status_color(None), Tone::Gray);
    assert_eq!(status_color(Some(100)), Tone::Gray);
    assert_eq!(status_color(Some(204)), Tone::Green);
    assert_eq!(status_color(Some(302)), Tone::Cyan);
    assert_eq!(status_color(Some(404)), Tone::Yellow);
    assert_eq!(status_color(Some(503)), Tone::Red);
}

#[test]
fn long_texts_are_cut_with_three_dots() {
    assert_eq!(truncate_string("short", 10), "short");
    assert_eq!(truncate_string("exactly10!", 10), "exactly10!");
    assert_eq!(truncate_string("this is too long", 10), "this is...");
    assert_eq!(truncate_path("/a/very/long/path", 8), "/a/ve...");
    assert_eq!(truncate_string("ééééé", 6), "é...");
    assert_eq!(truncate_string("abcdef", 2), "...");
    assert_eq!(truncate_string("", 0), "");
}

#[test]
fn headers_are_listed_with_credentials_masked() {
    assert_eq!(format_headers(&vec![]), "  (none)");
    let long = "x".repeat(61);
    let headers = vec![
        ("Accept".to_string(), "*/*".to_string()),
        ("Authorization".to_string(), "Bearer secret".to_string()),
        ("X-Long".to_string(), long),
    ];
    assert_eq!(
        format_headers(&headers),
        format!("  Accept: */*\n  Authorization: ***\n  X-Long: {}...", "x".repeat(57))
    );
    assert_eq!(get_header_value(&headers, "accept"), Some("*/*".to_string()));
    assert_eq!(get_header_value(&headers, "AUTHORIZATION"), Some("Bearer secret".to_string()));
    assert_eq!(get_header_value(&headers, "user-agent"), None);
}

#[test]
fn bodies_are_shown_as_text_json_or_a_count() {
    assert_eq!(format_body(&b"plain text".to_vec()), "plain text");
    assert_eq!(format_body(&br#"{"a":1}"#.to_vec()), "{\n  \"a\": 1\n}");
    assert_eq!(format_body(&vec![0xff, 0xfe, 0x00]), "[Binary data: 3 bytes]");
    assert_eq!(format_body(&vec![]), "");
}
