//! The state of the terminal interface: the lists it shows, what is selected,
//! the form for a new tunnel, and what each key and each event does to them.
//! Drawing and reading the keyboard are the caller's.

use vstd::prelude::*;
use vstd::string::*;
use vstd::utf8::*;

use crate::events::{
    ConnectionStatus, ConnectionStatusModel, RequestEventModel, ResponseEventModel, TcpTunnelEvent,
    TuiCommand, TuiCommandModel, TuiEvent, TuiEventModel, TunnelEvent, TunnelEventModel,
};
use crate::ids::RequestId;
use crate::messages::{Headers, HeadersModel};
use crate::text::{lower_char, parse_u16, parse_u16_spec, string_pop, string_push, to_ascii_lower};

verus! {

/// How many events may wait for the interface.
pub const EVENT_CHANNEL_CAPACITY: usize = 256;

/// How many commands may wait for the connection.
pub const COMMAND_CHANNEL_CAPACITY: usize = 64;

/// How many requests the log keeps.
pub const MAX_REQUESTS: usize = 1000;

/// A logged request, with its response once there is one.
#[derive(Debug, Clone, PartialEq, Eq)]
pub struct RequestLog {
    pub id: RequestId,
    pub method: String,
    pub path: String,
    pub query_string: String,
    pub request_headers: Headers,
    pub request_body: Option<Vec<u8>>,
    pub status: Option<u16>,
    pub response_headers: Headers,
    pub response_body: Option<Vec<u8>>,
    pub duration_ms: Option<u64>,
    /// When the request arrived, in seconds since the epoch.
    pub timestamp: u64,
    pub client_ip: Option<String>,
}

/// The model of a [`RequestLog`].
pub struct RequestLogModel {
    pub id: Seq<char>,
    pub method: Seq<char>,
    pub path: Seq<char>,
    pub query_string: Seq<char>,
    pub request_headers: HeadersModel,
    pub request_body: Option<Seq<u8>>,
    pub status: Option<u16>,
    pub response_headers: HeadersModel,
    pub response_body: Option<Seq<u8>>,
    pub duration_ms: Option<u64>,
    pub timestamp: u64,
    pub client_ip: Option<Seq<char>>,
}

impl View for RequestLog {
    type V = RequestLogModel;

    open spec fn view(&self) -> RequestLogModel {
        RequestLogModel {
            id: self.id@,
            method: self.method@,
            path: self.path@,
            query_string: self.query_string@,
            request_headers: self.request_headers.deep_view(),
            request_body: self.request_body.deep_view(),
            status: self.status,
            response_headers: self.response_headers.deep_view(),
            response_body: self.response_body.deep_view(),
            duration_ms: self.duration_ms,
            timestamp: self.timestamp,
            client_ip: self.client_ip.deep_view(),
        }
    }
}

impl DeepView for RequestLog {
    type V = RequestLogModel;

    open spec fn deep_view(&self) -> RequestLogModel {
        self@
    }
}

/// What the interface shows.
#[derive(Debug, Clone, Copy, PartialEq, Eq, Structural)]
pub enum ViewMode {
    TunnelList,
    AddTunnel,
    RequestList,
    RequestDetail,
}

/// The kind of tunnel that the form asks for.
#[derive(Debug, Clone, Copy, PartialEq, Eq, Structural)]
pub enum TunnelType {
    Http,
    Tcp,
}

impl Default for TunnelType {
    fn default() -> (r: Self)
        ensures
            r == TunnelType::Http,
    {
        TunnelType::Http
    }
}

/// The field of the form that has the focus.
#[derive(Debug, Clone, Copy, PartialEq, Eq, Structural)]
pub enum AddTunnelField {
    TunnelType,
    Port,
    Subdomain,
}

/// A key, as far as the interface tells keys apart.
#[derive(Debug, Clone, Copy, PartialEq, Eq, Structural)]
pub enum Key {
    Char(char),
    Up,
    Down,
    Enter,
    Esc,
    Tab,
    BackTab,
    Backspace,
    Other,
}

/// The state of the interface.
pub struct App {
    pub tunnels: Vec<TunnelEvent>,
    pub tcp_tunnels: Vec<TcpTunnelEvent>,
    /// The logged requests, newest first.
    pub requests: Vec<RequestLog>,
    /// The selected row of the request list.
    pub table_state: Option<usize>,
    /// The selected row of the tunnel list.
    pub tunnel_list_state: Option<usize>,
    pub view_mode: ViewMode,
    pub connection_status: ConnectionStatus,
    pub should_quit: bool,
    max_requests: usize,
    pub add_tunnel_type: TunnelType,
    pub add_tunnel_port: String,
    pub add_tunnel_subdomain: String,
    pub add_tunnel_field: AddTunnelField,
    pub add_tunnel_error: Option<String>,
}

/// The model of an [`App`].
pub struct AppModel {
    pub tunnels: Seq<TunnelEventModel>,
    pub tcp_tunnels: Seq<TcpTunnelEvent>,
    pub requests: Seq<RequestLogModel>,
    pub table_state: Option<usize>,
    pub tunnel_list_state: Option<usize>,
    pub view_mode: ViewMode,
    pub connection_status: ConnectionStatusModel,
    pub should_quit: bool,
    pub max_requests: usize,
    pub add_tunnel_type: TunnelType,
    pub add_tunnel_port: Seq<char>,
    pub add_tunnel_subdomain: Seq<char>,
    pub add_tunnel_field: AddTunnelField,
    pub add_tunnel_error: Option<Seq<char>>,
}

impl View for App {
    type V = AppModel;

    closed spec fn view(&self) -> AppModel {
        AppModel {
            tunnels: self.tunnels.deep_view(),
            tcp_tunnels: self.tcp_tunnels.deep_view(),
            requests: self.requests.deep_view(),
            table_state: self.table_state,
            tunnel_list_state: self.tunnel_list_state,
            view_mode: self.view_mode,
            connection_status: self.connection_status@,
            should_quit: self.should_quit,
            max_requests: self.max_requests,
            add_tunnel_type: self.add_tunnel_type,
            add_tunnel_port: self.add_tunnel_port@,
            add_tunnel_subdomain: self.add_tunnel_subdomain@,
            add_tunnel_field: self.add_tunnel_field,
            add_tunnel_error: self.add_tunnel_error.deep_view(),
        }
    }
}

/// The interface as it starts.
pub open spec fn initial_app() -> AppModel {
    AppModel {
        tunnels: Seq::empty(),
        tcp_tunnels: Seq::empty(),
        requests: Seq::empty(),
        table_state: None,
        tunnel_list_state: None,
        view_mode: ViewMode::TunnelList,
        connection_status: ConnectionStatusModel::Connecting,
        should_quit: false,
        max_requests: MAX_REQUESTS,
        add_tunnel_type: TunnelType::Http,
        add_tunnel_port: Seq::empty(),
        add_tunnel_subdomain: Seq::empty(),
        add_tunnel_field: AddTunnelField::Port,
        add_tunnel_error: None,
    }
}

/// The selection one row down in a list of `len` rows: it stops at the last
/// row, starts at the first, and an empty list has none to move.
pub open spec fn step_down(selected: Option<usize>, len: nat) -> Option<usize> {
    if len == 0 {
        selected
    } else {
        match selected {
            Some(i) => if i >= len - 1 {
                Some(i)
            } else {
                Some((i + 1) as usize)
            },
            None => Some(0),
        }
    }
}

/// The selection one row up: it stops at the first row, and starts there.
pub open spec fn step_up(selected: Option<usize>, len: nat) -> Option<usize> {
    if len == 0 {
        selected
    } else {
        match selected {
            Some(i) => if i == 0 {
                Some(0)
            } else {
                Some((i - 1) as usize)
            },
            None => Some(0),
        }
    }
}

/// The number of rows of the tunnel list, as far as a `usize` counts.
pub open spec fn tunnel_rows(a: AppModel) -> nat {
    if a.tunnels.len() + a.tcp_tunnels.len() > usize::MAX {
        usize::MAX as nat
    } else {
        a.tunnels.len() + a.tcp_tunnels.len()
    }
}

/// Where `back` leads from a view.
pub open spec fn view_behind(mode: ViewMode) -> ViewMode {
    match mode {
        ViewMode::RequestDetail => ViewMode::RequestList,
        ViewMode::RequestList => ViewMode::TunnelList,
        ViewMode::AddTunnel => ViewMode::TunnelList,
        ViewMode::TunnelList => ViewMode::TunnelList,
    }
}

/// The form, emptied and opened.
pub open spec fn add_tunnel_opened(a: AppModel) -> AppModel {
    AppModel {
        add_tunnel_type: TunnelType::Http,
        add_tunnel_port: Seq::empty(),
        add_tunnel_subdomain: Seq::empty(),
        add_tunnel_field: AddTunnelField::Port,
        add_tunnel_error: None,
        view_mode: ViewMode::AddTunnel,
        ..a
    }
}

/// The field after this one; a TCP tunnel has no subdomain field.
pub open spec fn field_after(field: AddTunnelField, kind: TunnelType) -> AddTunnelField {
    match field {
        AddTunnelField::TunnelType => AddTunnelField::Port,
        AddTunnelField::Port => if kind == TunnelType::Http {
            AddTunnelField::Subdomain
        } else {
            AddTunnelField::TunnelType
        },
        AddTunnelField::Subdomain => AddTunnelField::TunnelType,
    }
}

/// The field before this one.
pub open spec fn field_before(field: AddTunnelField, kind: TunnelType) -> AddTunnelField {
    match field {
        AddTunnelField::TunnelType => if kind == TunnelType::Http {
            AddTunnelField::Subdomain
        } else {
            AddTunnelField::Port
        },
        AddTunnelField::Port => AddTunnelField::TunnelType,
        AddTunnelField::Subdomain => AddTunnelField::Port,
    }
}

/// The form after its kind was toggled: a TCP tunnel loses the subdomain,
/// and the focus leaves the subdomain field.
pub open spec fn type_toggled(a: AppModel) -> AppModel {
    if a.add_tunnel_type == TunnelType::Http {
        AppModel {
            add_tunnel_type: TunnelType::Tcp,
            add_tunnel_subdomain: Seq::empty(),
            add_tunnel_field: if a.add_tunnel_field == AddTunnelField::Subdomain {
                AddTunnelField::Port
            } else {
                a.add_tunnel_field
            },
            ..a
        }
    } else {
        AppModel { add_tunnel_type: TunnelType::Http, ..a }
    }
}

/// A decimal digit.
pub open spec fn is_digit(c: char) -> bool {
    '0' <= c <= '9'
}

/// A character of a subdomain: an ASCII letter, a digit or the hyphen.
pub open spec fn is_subdomain_char(c: char) -> bool {
    is_digit(c) || 'a' <= c <= 'z' || 'A' <= c <= 'Z' || c == '-'
}

/// The form after a character was typed: the port takes digits, up to five
/// bytes; the subdomain takes letters, digits and hyphens, in lower case, up
/// to thirty-two bytes; any key clears the error.
pub open spec fn char_typed(a: AppModel, c: char) -> AppModel {
    match a.add_tunnel_field {
        AddTunnelField::Port => AppModel {
            add_tunnel_port: if is_digit(c) && encode_utf8(a.add_tunnel_port).len() < 5 {
                a.add_tunnel_port.push(c)
            } else {
                a.add_tunnel_port
            },
            add_tunnel_error: None,
            ..a
        },
        AddTunnelField::Subdomain => AppModel {
            add_tunnel_subdomain: if is_subdomain_char(c) && encode_utf8(a.add_tunnel_subdomain).len()
                < 32 {
                a.add_tunnel_subdomain.push(lower_char(c))
            } else {
                a.add_tunnel_subdomain
            },
            add_tunnel_error: None,
            ..a
        },
        AddTunnelField::TunnelType => AppModel { add_tunnel_error: None, ..a },
    }
}

/// A text without its last character.
pub open spec fn without_last(s: Seq<char>) -> Seq<char> {
    if s.len() > 0 {
        s.drop_last()
    } else {
        s
    }
}

/// The form after the backspace key.
pub open spec fn backspaced(a: AppModel) -> AppModel {
    match a.add_tunnel_field {
        AddTunnelField::Port => AppModel {
            add_tunnel_port: without_last(a.add_tunnel_port),
            add_tunnel_error: None,
            ..a
        },
        AddTunnelField::Subdomain => AppModel {
            add_tunnel_subdomain: without_last(a.add_tunnel_subdomain),
            add_tunnel_error: None,
            ..a
        },
        AddTunnelField::TunnelType => AppModel { add_tunnel_error: None, ..a },
    }
}

/// The port that the form holds, where it is a port: a number from 1 to 65535.
pub open spec fn form_port(a: AppModel) -> Option<u16> {
    match parse_u16_spec(a.add_tunnel_port) {
        Some(p) => if p > 0 {
            Some(p)
        } else {
            None
        },
        None => None,
    }
}

/// The command that the form stands for, and the form after it was
/// submitted: a form without a port shows an error and gives no command.
pub open spec fn submitted(a: AppModel) -> (AppModel, Option<TuiCommandModel>) {
    match form_port(a) {
        None => (AppModel { add_tunnel_error: Some("Invalid port number"@), ..a }, None),
        Some(port) => (
            a,
            Some(
                if a.add_tunnel_type == TunnelType::Http {
                    TuiCommandModel::AddHttpTunnel {
                        local_port: port,
                        subdomain: if a.add_tunnel_subdomain.len() == 0 {
                            None
                        } else {
                            Some(a.add_tunnel_subdomain)
                        },
                    }
                } else {
                    TuiCommandModel::AddTcpTunnel { local_port: port }
                },
            ),
        ),
    }
}

/// The log entry of a request that has just arrived.
pub open spec fn fresh_log(req: RequestEventModel) -> RequestLogModel {
    RequestLogModel {
        id: req.request_id,
        method: req.method,
        path: req.path,
        query_string: req.query_string,
        request_headers: req.headers,
        request_body: req.body,
        status: None,
        response_headers: Seq::empty(),
        response_body: None,
        duration_ms: None,
        timestamp: req.timestamp,
        client_ip: req.client_ip,
    }
}

/// The place of the first logged request with this identifier, or the
/// length of the log where there is none.
pub open spec fn log_index(requests: Seq<RequestLogModel>, id: Seq<char>) -> int
    decreases requests.len(),
{
    if requests.len() == 0 {
        0
    } else if requests[0].id == id {
        0
    } else {
        1 + log_index(requests.drop_first(), id)
    }
}

/// The interface after a request arrived: the request is first in the log,
/// the oldest entry leaves a full log, and the selection stays on the entry
/// it was on, or goes to the first where there was none.
pub open spec fn request_received(a: AppModel, req: RequestEventModel) -> AppModel {
    let inserted = a.requests.insert(0, fresh_log(req));
    let requests = if inserted.len() > a.max_requests {
        inserted.drop_last()
    } else {
        inserted
    };
    AppModel {
        requests,
        table_state: match a.table_state {
            None => if requests.len() > 0 {
                Some(0)
            } else {
                None
            },
            Some(selected) => if selected + 1 < requests.len() {
                Some((selected + 1) as usize)
            } else {
                Some(selected)
            },
        },
        ..a
    }
}

/// The interface after a response went back: the first logged request with
/// its identifier gets the status, the headers, the body and the duration.
pub open spec fn response_sent(a: AppModel, resp: ResponseEventModel) -> AppModel {
    let at = log_index(a.requests, resp.request_id);
    if at < a.requests.len() {
        AppModel {
            requests: a.requests.update(
                at,
                RequestLogModel {
                    status: Some(resp.status),
                    response_headers: resp.headers,
                    response_body: resp.body,
                    duration_ms: Some(resp.duration_ms),
                    ..a.requests[at]
                },
            ),
            ..a
        }
    } else {
        a
    }
}

/// The interface after an event from the connection.
pub open spec fn event_handled(a: AppModel, event: TuiEventModel) -> AppModel {
    match event {
        TuiEventModel::TunnelRegistered(tunnel) => AppModel { tunnels: a.tunnels.push(tunnel), ..a },
        TuiEventModel::TcpTunnelRegistered(tunnel) => AppModel {
            tcp_tunnels: a.tcp_tunnels.push(tunnel),
            ..a
        },
        TuiEventModel::RequestReceived(req) => request_received(a, req),
        TuiEventModel::ResponseSent(resp) => response_sent(a, resp),
        TuiEventModel::ConnectionStatus(status) => if status is Reconnecting {
            AppModel {
                tunnels: Seq::empty(),
                tcp_tunnels: Seq::empty(),
                connection_status: status,
                ..a
            }
        } else {
            AppModel { connection_status: status, ..a }
        },
    }
}

/// The interface after a key, and the command to send to the connection, if
/// the key submitted the form.
pub open spec fn key_handled(a: AppModel, key: Key) -> (AppModel, Option<TuiCommandModel>) {
    match a.view_mode {
        ViewMode::TunnelList => (
            if key == Key::Char('q') {
                AppModel { should_quit: true, ..a }
            } else if key == Key::Char('a') && a.connection_status is Connected {
                add_tunnel_opened(a)
            } else if key == Key::Char('j') || key == Key::Down {
                AppModel { tunnel_list_state: step_down(a.tunnel_list_state, tunnel_rows(a)), ..a }
            } else if key == Key::Char('k') || key == Key::Up {
                AppModel { tunnel_list_state: step_up(a.tunnel_list_state, tunnel_rows(a)), ..a }
            } else if key == Key::Enter {
                AppModel { view_mode: ViewMode::RequestList, ..a }
            } else {
                a
            },
            None,
        ),
        ViewMode::AddTunnel => {
            if key == Key::Esc {
                (AppModel { view_mode: view_behind(a.view_mode), ..a }, None)
            } else if key == Key::Tab || key == Key::Down {
                (
                    AppModel {
                        add_tunnel_field: field_after(a.add_tunnel_field, a.add_tunnel_type),
                        ..a
                    },
                    None,
                )
            } else if key == Key::BackTab || key == Key::Up {
                (
                    AppModel {
                        add_tunnel_field: field_before(a.add_tunnel_field, a.add_tunnel_type),
                        ..a
                    },
                    None,
                )
            } else if key == Key::Char(' ') && a.add_tunnel_field == AddTunnelField::TunnelType {
                (type_toggled(a), None)
            } else if key is Char {
                (char_typed(a, key->Char_0), None)
            } else if key == Key::Backspace {
                (backspaced(a), None)
            } else if key == Key::Enter {
                submitted(a)
            } else {
                (a, None)
            }
        },
        ViewMode::RequestList => (
            if key == Key::Char('q') {
                AppModel { should_quit: true, ..a }
            } else if key == Key::Char('j') || key == Key::Down {
                AppModel { table_state: step_down(a.table_state, a.requests.len()), ..a }
            } else if key == Key::Char('k') || key == Key::Up {
                AppModel { table_state: step_up(a.table_state, a.requests.len()), ..a }
            } else if key == Key::Char('g') {
                if a.requests.len() > 0 {
                    AppModel { table_state: Some(0), ..a }
                } else {
                    a
                }
            } else if key == Key::Char('G') {
                if a.requests.len() > 0 {
                    AppModel { table_state: Some((a.requests.len() - 1) as usize), ..a }
                } else {
                    a
                }
            } else if key == Key::Char('c') {
                AppModel { requests: Seq::empty(), table_state: None, ..a }
            } else if key == Key::Enter {
                if a.table_state is Some {
                    AppModel { view_mode: ViewMode::RequestDetail, ..a }
                } else {
                    a
                }
            } else if key == Key::Esc {
                AppModel { view_mode: view_behind(a.view_mode), ..a }
            } else {
                a
            },
            None,
        ),
        ViewMode::RequestDetail => (
            if key == Key::Char('q') {
                AppModel { should_quit: true, ..a }
            } else if key == Key::Esc || key == Key::Enter {
                AppModel { view_mode: view_behind(a.view_mode), ..a }
            } else {
                a
            },
            None,
        ),
    }
}

fn select_down(selected: Option<usize>, len: usize) -> (r: Option<usize>)
    ensures
        r == step_down(selected, len as nat),
{
    if len == 0 {
        return selected;
    }
    match selected {
        Some(i) => if i >= len - 1 {
            Some(i)
        } else {
            Some(i + 1)
        },
        None => Some(0),
    }
}

fn select_up(selected: Option<usize>, len: usize) -> (r: Option<usize>)
    ensures
        r == step_up(selected, len as nat),
{
    if len == 0 {
        return selected;
    }
    match selected {
        Some(i) => if i == 0 {
            Some(0)
        } else {
            Some(i - 1)
        },
        None => Some(0),
    }
}

fn char_is_digit(c: char) -> (r: bool)
    ensures
        r == is_digit(c),
{
    '0' <= c && c <= '9'
}

fn char_is_subdomain(c: char) -> (r: bool)
    ensures
        r == is_subdomain_char(c),
{
    char_is_digit(c) || ('a' <= c && c <= 'z') || ('A' <= c && c <= 'Z') || c == '-'
}

impl App {
    /// The interface as it starts: nothing listed, the tunnel list shown,
    /// the connection being made.
    pub fn new() -> (r: Self)
        ensures
            r@ == initial_app(),
    {
        let r = App {
            tunnels: Vec::new(),
            tcp_tunnels: Vec::new(),
            requests: Vec::new(),
            table_state: None,
            tunnel_list_state: None,
            view_mode: ViewMode::TunnelList,
            connection_status: ConnectionStatus::Connecting,
            should_quit: false,
            max_requests: MAX_REQUESTS,
            add_tunnel_type: TunnelType::Http,
            add_tunnel_port: String::new(),
            add_tunnel_subdomain: String::new(),
            add_tunnel_field: AddTunnelField::Port,
            add_tunnel_error: None,
        };
        proof {
            assert(r.tunnels.deep_view() =~= Seq::empty());
            assert(r.tcp_tunnels.deep_view() =~= Seq::empty());
            assert(r.requests.deep_view() =~= Seq::empty());
        }
        r
    }

    /// Moves the selection of the request list one row down.
    pub fn next(&mut self)
        ensures
            final(self)@ == (AppModel {
                table_state: step_down(old(self)@.table_state, old(self)@.requests.len()),
                ..old(self)@
            }),
    {
        self.table_state = select_down(self.table_state, self.requests.len());
    }

    /// Moves the selection of the request list one row up.
    pub fn previous(&mut self)
        ensures
            final(self)@ == (AppModel {
                table_state: step_up(old(self)@.table_state, old(self)@.requests.len()),
                ..old(self)@
            }),
    {
        self.table_state = select_up(self.table_state, self.requests.len());
    }

    /// Selects the first request, if there is one.
    pub fn go_to_top(&mut self)
        ensures
            final(self)@ == if old(self)@.requests.len() > 0 {
                AppModel { table_state: Some(0), ..old(self)@ }
            } else {
                old(self)@
            },
    {
        if self.requests.len() > 0 {
            self.table_state = Some(0);
        }
    }

    /// Selects the last request, if there is one.
    pub fn go_to_bottom(&mut self)
        ensures
            final(self)@ == if old(self)@.requests.len() > 0 {
                AppModel {
                    table_state: Some((old(self)@.requests.len() - 1) as usize),
                    ..old(self)@
                }
            } else {
                old(self)@
            },
    {
        if self.requests.len() > 0 {
            self.table_state = Some(self.requests.len() - 1);
        }
    }

    /// Shows the selected request, if one is selected.
    pub fn enter_request_detail(&mut self)
        ensures
            final(self)@ == if old(self)@.table_state is Some {
                AppModel { view_mode: ViewMode::RequestDetail, ..old(self)@ }
            } else {
                old(self)@
            },
    {
        if self.table_state.is_some() {
            self.view_mode = ViewMode::RequestDetail;
        }
    }

    /// Goes back one view.
    pub fn back(&mut self)
        ensures
            final(self)@ == (AppModel {
                view_mode: view_behind(old(self)@.view_mode),
                ..old(self)@
            }),
    {
        self.view_mode = match self.view_mode {
            ViewMode::RequestDetail => ViewMode::RequestList,
            ViewMode::RequestList => ViewMode::TunnelList,
            ViewMode::AddTunnel => ViewMode::TunnelList,
            ViewMode::TunnelList => ViewMode::TunnelList,
        };
    }

    /// Empties the request log.
    pub fn clear(&mut self)
        ensures
            final(self)@ == (AppModel { requests: Seq::empty(), table_state: None, ..old(self)@ }),
    {
        self.requests.clear();
        self.table_state = None;
        assert(self.requests.deep_view() =~= Seq::empty());
    }

    fn tunnel_row_count(&self) -> (r: usize)
        ensures
            r == tunnel_rows(self@),
    {
        self.tunnels.len().saturating_add(self.tcp_tunnels.len())
    }

    /// Moves the selection of the tunnel list one row down.
    pub fn tunnel_next(&mut self)
        ensures
            final(self)@ == (AppModel {
                tunnel_list_state: step_down(old(self)@.tunnel_list_state, tunnel_rows(old(self)@)),
                ..old(self)@
            }),
    {
        let total = self.tunnel_row_count();
        self.tunnel_list_state = select_down(self.tunnel_list_state, total);
    }

    /// Moves the selection of the tunnel list one row up.
    pub fn tunnel_previous(&mut self)
        ensures
            final(self)@ == (AppModel {
                tunnel_list_state: step_up(old(self)@.tunnel_list_state, tunnel_rows(old(self)@)),
                ..old(self)@
            }),
    {
        let total = self.tunnel_row_count();
        self.tunnel_list_state = select_up(self.tunnel_list_state, total);
    }

    /// Opens the form for a new tunnel, emptied.
    pub fn enter_add_tunnel(&mut self)
        ensures
            final(self)@ == add_tunnel_opened(old(self)@),
    {
        self.add_tunnel_type = TunnelType::Http;
        self.add_tunnel_port = String::new();
        self.add_tunnel_subdomain = String::new();
        self.add_tunnel_field = AddTunnelField::Port;
        self.add_tunnel_error = None;
        self.view_mode = ViewMode::AddTunnel;
    }

    /// Shows the request list.
    pub fn view_tunnel_requests(&mut self)
        ensures
            final(self)@ == (AppModel { view_mode: ViewMode::RequestList, ..old(self)@ }),
    {
        self.view_mode = ViewMode::RequestList;
    }

    /// `true` exactly when the connection is given up or closed.
    pub fn is_disconnected(&self) -> (r: bool)
        ensures
            r == (self@.connection_status is Disconnected),
    {
        match self.connection_status {
            ConnectionStatus::Disconnected { .. } => true,
            _ => false,
        }
    }

    /// `true` exactly while the connection is being made again.
    pub fn is_reconnecting(&self) -> (r: bool)
        ensures
            r == (self@.connection_status is Reconnecting),
    {
        match self.connection_status {
            ConnectionStatus::Reconnecting { .. } => true,
            _ => false,
        }
    }

    /// `true` exactly while the connection is live.
    pub fn is_connected(&self) -> (r: bool)
        ensures
            r == (self@.connection_status is Connected),
    {
        match self.connection_status {
            ConnectionStatus::Connected => true,
            _ => false,
        }
    }

    /// Moves the focus of the form to the next field.
    pub fn form_next_field(&mut self)
        ensures
            final(self)@ == (AppModel {
                add_tunnel_field: field_after(
                    old(self)@.add_tunnel_field,
                    old(self)@.add_tunnel_type,
                ),
                ..old(self)@
            }),
    {
        self.add_tunnel_field = match self.add_tunnel_field {
            AddTunnelField::TunnelType => AddTunnelField::Port,
            AddTunnelField::Port => {
                if self.add_tunnel_type == TunnelType::Http {
                    AddTunnelField::Subdomain
                } else {
                    AddTunnelField::TunnelType
                }
            },
            AddTunnelField::Subdomain => AddTunnelField::TunnelType,
        };
    }

    /// Moves the focus of the form to the field before.
    pub fn form_prev_field(&mut self)
        ensures
            final(self)@ == (AppModel {
                add_tunnel_field: field_before(
                    old(self)@.add_tunnel_field,
                    old(self)@.add_tunnel_type,
                ),
                ..old(self)@
            }),
    {
        self.add_tunnel_field = match self.add_tunnel_field {
            AddTunnelField::TunnelType => {
                if self.add_tunnel_type == TunnelType::Http {
                    AddTunnelField::Subdomain
                } else {
                    AddTunnelField::Port
                }
            },
            AddTunnelField::Port => AddTunnelField::TunnelType,
            AddTunnelField::Subdomain => AddTunnelField::Port,
        };
    }

    /// Toggles the kind of tunnel that the form asks for.
    pub fn form_toggle_type(&mut self)
        ensures
            final(self)@ == type_toggled(old(self)@),
    {
        self.add_tunnel_type = match self.add_tunnel_type {
            TunnelType::Http => TunnelType::Tcp,
            TunnelType::Tcp => TunnelType::Http,
        };
        if self.add_tunnel_type == TunnelType::Tcp {
            self.add_tunnel_subdomain = String::new();
            if self.add_tunnel_field == AddTunnelField::Subdomain {
                self.add_tunnel_field = AddTunnelField::Port;
            }
        }
    }

    /// Takes a typed character into the field that has the focus.
    pub fn form_input_char(&mut self, c: char)
        ensures
            final(self)@ == char_typed(old(self)@, c),
    {
        match self.add_tunnel_field {
            AddTunnelField::Port => {
                if char_is_digit(c) && self.add_tunnel_port.as_str().as_bytes().len() < 5 {
                    string_push(&mut self.add_tunnel_port, c);
                }
            },
            AddTunnelField::Subdomain => {
                if char_is_subdomain(c) && self.add_tunnel_subdomain.as_str().as_bytes().len() < 32 {
                    string_push(&mut self.add_tunnel_subdomain, to_ascii_lower(c));
                }
            },
            AddTunnelField::TunnelType => {},
        }
        self.add_tunnel_error = None;
    }

    /// Takes the last character off the field that has the focus.
    pub fn form_backspace(&mut self)
        ensures
            final(self)@ == backspaced(old(self)@),
    {
        match self.add_tunnel_field {
            AddTunnelField::Port => {
                string_pop(&mut self.add_tunnel_port);
            },
            AddTunnelField::Subdomain => {
                string_pop(&mut self.add_tunnel_subdomain);
            },
            AddTunnelField::TunnelType => {},
        }
        self.add_tunnel_error = None;
    }

    /// Reads the form. A form with a port gives the command to send to the
    /// connection; the caller sends it and reports with [`App::command_sent`]
    /// or [`App::command_failed`]. A form without one shows an error.
    pub fn form_submit(&mut self) -> (r: Option<TuiCommand>)
        ensures
            (final(self)@, r.deep_view()) == submitted(old(self)@),
    {
        let port = match parse_u16(self.add_tunnel_port.as_str()) {
            Some(p) => p,
            None => 0,
        };
        if port == 0 {
            self.add_tunnel_error = Some(String::from_str("Invalid port number"));
            return None;
        }
        let cmd = match self.add_tunnel_type {
            TunnelType::Http => {
                let subdomain = if self.add_tunnel_subdomain.as_str().is_empty() {
                    None
                } else {
                    Some(self.add_tunnel_subdomain.clone())
                };
                TuiCommand::AddHttpTunnel { local_port: port, subdomain }
            },
            TunnelType::Tcp => TuiCommand::AddTcpTunnel { local_port: port },
        };
        Some(cmd)
    }

    /// The command of the form went to the connection: back to the tunnel list.
    pub fn command_sent(&mut self)
        ensures
            final(self)@ == (AppModel { view_mode: ViewMode::TunnelList, ..old(self)@ }),
    {
        self.view_mode = ViewMode::TunnelList;
    }

    /// The command of the form could not be sent: the form says so.
    pub fn command_failed(&mut self)
        ensures
            final(self)@ == (AppModel {
                add_tunnel_error: Some("Failed to send command"@),
                ..old(self)@
            }),
    {
        self.add_tunnel_error = Some(String::from_str("Failed to send command"));
    }

    fn find_log(&self, id: &RequestId) -> (r: usize)
        ensures
            r == log_index(self@.requests, id@),
            r <= self.requests.len(),
    {
        let ghost s = self.requests.deep_view();
        let mut i: usize = 0;
        assert(s.skip(0) =~= s);
        while i < self.requests.len()
            invariant
                i <= self.requests.len(),
                s == self.requests.deep_view(),
                s.len() == self.requests.len(),
                log_index(s, id@) == i + log_index(s.skip(i as int), id@),
            decreases self.requests.len() - i,
        {
            proof {
                assert(s.skip(i as int).drop_first() =~= s.skip(i + 1));
                assert(s.skip(i as int)[0] == self.requests@[i as int]@);
            }
            if self.requests[i].id.same(id) {
                return i;
            }
            i += 1;
        }
        i
    }

    /// Takes in an event from the connection.
    pub fn handle_event(&mut self, event: TuiEvent)
        ensures
            final(self)@ == event_handled(old(self)@, event@),
    {
        match event {
            TuiEvent::TunnelRegistered(tunnel) => {
                let ghost before = self.tunnels.deep_view();
                self.tunnels.push(tunnel);
                assert(self.tunnels.deep_view() =~= before.push(tunnel@));
            },
            TuiEvent::TcpTunnelRegistered(tunnel) => {
                let ghost before = self.tcp_tunnels.deep_view();
                self.tcp_tunnels.push(tunnel);
                assert(self.tcp_tunnels.deep_view() =~= before.push(tunnel));
            },
            TuiEvent::RequestReceived(req) => {
                let ghost before = self.requests.deep_view();
                let log = RequestLog {
                    id: req.request_id,
                    method: req.method,
                    path: req.path,
                    query_string: req.query_string,
                    request_headers: req.headers,
                    request_body: req.body,
                    status: None,
                    response_headers: Vec::new(),
                    response_body: None,
                    duration_ms: None,
                    timestamp: req.timestamp,
                    client_ip: req.client_ip,
                };
                assert(log.response_headers.deep_view() =~= Seq::empty());
                self.requests.insert(0, log);
                assert(self.requests.deep_view() =~= before.insert(0, fresh_log(req@)));
                if self.requests.len() > self.max_requests {
                    let ghost full = self.requests.deep_view();
                    self.requests.pop();
                    assert(self.requests.deep_view() =~= full.drop_last());
                }
                match self.table_state {
                    None => {
                        if self.requests.len() > 0 {
                            self.table_state = Some(0);
                        }
                    },
                    Some(selected) => {
                        if selected < usize::MAX && selected + 1 < self.requests.len() {
                            self.table_state = Some(selected + 1);
                        }
                    },
                }
            },
            TuiEvent::ResponseSent(resp) => {
                let at = self.find_log(&resp.request_id);
                if at < self.requests.len() {
                    let ghost before = self.requests.deep_view();
                    let mut log = self.requests.remove(at);
                    log.status = Some(resp.status);
                    log.response_headers = resp.headers;
                    log.response_body = resp.body;
                    log.duration_ms = Some(resp.duration_ms);
                    self.requests.insert(at, log);
                    assert(self.requests.deep_view() =~= before.update(
                        at as int,
                        RequestLogModel {
                            status: Some(resp.status),
                            response_headers: resp@.headers,
                            response_body: resp@.body,
                            duration_ms: Some(resp.duration_ms),
                            ..before[at as int]
                        },
                    ));
                }
            },
            TuiEvent::ConnectionStatus(status) => {
                let reconnecting = match status {
                    ConnectionStatus::Reconnecting { .. } => true,
                    _ => false,
                };
                if reconnecting {
                    self.tunnels.clear();
                    self.tcp_tunnels.clear();
                    assert(self.tunnels.deep_view() =~= Seq::empty());
                    assert(self.tcp_tunnels.deep_view() =~= Seq::empty());
                }
                self.connection_status = status;
            },
        }
    }
}

/// Takes in a key. The command, if any, is for the caller to send to the
/// connection and to report with [`App::command_sent`] or
/// [`App::command_failed`].
pub fn handle_key(app: &mut App, key: Key) -> (r: Option<TuiCommand>)
    ensures
        (final(app)@, r.deep_view()) == key_handled(old(app)@, key),
{
    match app.view_mode {
        ViewMode::TunnelList => {
            match key {
                Key::Char('q') => {
                    app.should_quit = true;
                },
                Key::Char('a') => {
                    if app.is_connected() {
                        app.enter_add_tunnel();
                    }
                },
                Key::Char('j') | Key::Down => app.tunnel_next(),
                Key::Char('k') | Key::Up => app.tunnel_previous(),
                Key::Enter => app.view_tunnel_requests(),
                _ => {},
            }
            None
        },
        ViewMode::AddTunnel => {
            match key {
                Key::Esc => {
                    app.back();
                    None
                },
                Key::Tab | Key::Down => {
                    app.form_next_field();
                    None
                },
                Key::BackTab | Key::Up => {
                    app.form_prev_field();
                    None
                },
                Key::Char(c) => {
                    if c == ' ' && app.add_tunnel_field == AddTunnelField::TunnelType {
                        app.form_toggle_type();
                    } else {
                        app.form_input_char(c);
                    }
                    None
                },
                Key::Backspace => {
                    app.form_backspace();
                    None
                },
                Key::Enter => app.form_submit(),
                _ => None,
            }
        },
        ViewMode::RequestList => {
            match key {
                Key::Char('q') => {
                    app.should_quit = true;
                },
                Key::Char('j') | Key::Down => app.next(),
                Key::Char('k') | Key::Up => app.previous(),
                Key::Char('g') => app.go_to_top(),
                Key::Char('G') => app.go_to_bottom(),
                Key::Char('c') => app.clear(),
                Key::Enter => app.enter_request_detail(),
                Key::Esc => app.back(),
                _ => {},
            }
            None
        },
        ViewMode::RequestDetail => {
            match key {
                Key::Char('q') => {
                    app.should_quit = true;
                },
                Key::Esc | Key::Enter => app.back(),
                _ => {},
            }
            None
        },
    }
}

} // verus!
