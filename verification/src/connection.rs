//! The connection supervisor: what the agent keeps across connections, when
//! it tries again and when it gives up, and what a fresh connection starts
//! with. The caller dials, runs the connection's tasks and sleeps.

use vstd::prelude::*;
use vstd::string::*;

use crate::dispatch::{
    fresh_dispatcher, registration_frame, with_pending, Dispatcher, DispatcherModel,
};
use crate::events::{ConnectionStatus, ConnectionStatusModel};
use crate::messages::{OutgoingMessage, OutgoingModel};
use crate::state::{fresh_state, ClientStateModel, TunnelConfig, TunnelConfigModel};
use crate::text::{decimal, has_substring, push_decimal, str_contains};
use crate::ws_proxy::{WsMessage, WsMessageModel};

verus! {

/// How many attempts are made before the agent gives up.
pub const MAX_RECONNECT_ATTEMPTS: u32 = 10;

/// The wait before the first retry, in milliseconds.
pub const INITIAL_BACKOFF_MS: u64 = 1000;

/// The longest wait before a retry, in milliseconds.
pub const MAX_BACKOFF_MS: u64 = 60_000;

/// The time between two heartbeats of the agent, in seconds.
pub const HEARTBEAT_INTERVAL_SECS: u64 = 25;

/// How many frames may wait in each of the writer's two queues.
pub const WRITER_QUEUE_CAPACITY: usize = 256;

/// The wait that follows a wait of `t` milliseconds: one and a half times
/// as long, rounded down, and no longer than the cap.
pub open spec fn next_backoff_spec(t: u64) -> u64 {
    if t * 3 / 2 >= MAX_BACKOFF_MS {
        MAX_BACKOFF_MS
    } else {
        (t * 3 / 2) as u64
    }
}

/// The wait before the `k`-th retry in a row, counted from one.
pub open spec fn backoff_at(k: nat) -> u64
    decreases k,
{
    if k <= 1 {
        INITIAL_BACKOFF_MS
    } else {
        next_backoff_spec(backoff_at((k - 1) as nat))
    }
}

/// Computes the wait that follows a wait of `t` milliseconds.
pub fn next_backoff(t: u64) -> (r: u64)
    ensures
        r == next_backoff_spec(t),
        r <= MAX_BACKOFF_MS,
{
    if t >= MAX_BACKOFF_MS {
        MAX_BACKOFF_MS
    } else {
        let grown = t + t / 2;
        if grown >= MAX_BACKOFF_MS {
            MAX_BACKOFF_MS
        } else {
            grown
        }
    }
}

/// The waits follow `t(k+1) = min(cap, floor(1.5 * t(k)))` from
/// `t(1) = 1000 ms`, with `cap = 60000 ms`.
pub proof fn lemma_backoff_sequence(k: nat)
    requires
        k >= 1,
    ensures
        backoff_at(1) == 1000,
        backoff_at(k + 1) == if backoff_at(k) * 3 / 2 <= 60000 {
            backoff_at(k) * 3 / 2
        } else {
            60000
        },
        1000 <= backoff_at(k) <= 60000,
    decreases k,
{
    if k > 1 {
        lemma_backoff_sequence((k - 1) as nat);
    }
}

/// How an attempt ended.
#[derive(Debug, Clone, Copy, PartialEq, Eq, Structural)]
pub enum AttemptOutcome {
    /// The agent was told to shut down.
    Shutdown,
    /// The control endpoint could not be dialled.
    ConnectFailed,
    /// One of the connection's tasks ended while the connection was live.
    ConnectionLost,
}

/// The task of a live connection that ended first.
#[derive(Debug, Clone, Copy, PartialEq, Eq, Structural)]
pub enum SessionEnd {
    Writer,
    Heartbeat,
    Reader,
    Commands,
    /// No task ended: the shutdown signal came.
    Shutdown,
}

/// What the end of a live connection means: the shutdown signal ends the
/// agent in good order; a task that ends means that the connection is lost.
pub fn session_outcome(end: SessionEnd) -> (r: AttemptOutcome)
    ensures
        r == if end == SessionEnd::Shutdown {
            AttemptOutcome::Shutdown
        } else {
            AttemptOutcome::ConnectionLost
        },
{
    match end {
        SessionEnd::Shutdown => AttemptOutcome::Shutdown,
        _ => AttemptOutcome::ConnectionLost,
    }
}

/// The reason that a failed attempt is reported with.
pub open spec fn failure_reason(outcome: AttemptOutcome) -> Seq<char> {
    match outcome {
        AttemptOutcome::ConnectFailed => "Failed to connect to server"@,
        _ => "Connection lost"@,
    }
}

/// What the supervisor does next.
#[derive(Debug, Clone, PartialEq, Eq)]
pub enum NextStep {
    /// The agent ends in good order, after publishing `status`.
    Stop { status: ConnectionStatus },
    /// Publish `status`, sleep `delay_ms` milliseconds, and try again.
    Retry { status: ConnectionStatus, delay_ms: u64 },
    /// Publish `status` and end with the error `reason`.
    GiveUp { status: ConnectionStatus, reason: String },
}

/// The model of a [`NextStep`].
pub enum NextStepModel {
    Stop { status: ConnectionStatusModel },
    Retry { status: ConnectionStatusModel, delay_ms: u64 },
    GiveUp { status: ConnectionStatusModel, reason: Seq<char> },
}

impl View for NextStep {
    type V = NextStepModel;

    open spec fn view(&self) -> NextStepModel {
        match *self {
            NextStep::Stop { status } => NextStepModel::Stop { status: status@ },
            NextStep::Retry { status, delay_ms } => NextStepModel::Retry {
                status: status@,
                delay_ms,
            },
            NextStep::GiveUp { status, reason } => NextStepModel::GiveUp {
                status: status@,
                reason: reason@,
            },
        }
    }
}

/// The supervisor of the control connection.
pub struct TunnelClient {
    server_host: String,
    server_port: u16,
    local_host: String,
    token: String,
    registered_tunnels: Vec<TunnelConfig>,
    last_error: Option<String>,
    attempt: u32,
    backoff_ms: u64,
}

/// The model of a [`TunnelClient`].
pub struct TunnelClientModel {
    pub server_host: Seq<char>,
    pub server_port: u16,
    pub local_host: Seq<char>,
    pub token: Seq<char>,
    /// The tunnels that the agent wants to have, in the order in which they
    /// were asked for.
    pub registered_tunnels: Seq<TunnelConfigModel>,
    /// The reason of the last failed attempt.
    pub last_error: Option<Seq<char>>,
    /// How many attempts were begun.
    pub attempt: u32,
    /// The wait before the next retry, in milliseconds.
    pub backoff_ms: u64,
}

impl View for TunnelClient {
    type V = TunnelClientModel;

    closed spec fn view(&self) -> TunnelClientModel {
        TunnelClientModel {
            server_host: self.server_host@,
            server_port: self.server_port,
            local_host: self.local_host@,
            token: self.token@,
            registered_tunnels: self.registered_tunnels.deep_view(),
            last_error: self.last_error.deep_view(),
            attempt: self.attempt,
            backoff_ms: self.backoff_ms,
        }
    }
}

/// The URL of the control endpoint.
pub open spec fn server_url_spec(server_host: Seq<char>, server_port: u16) -> Seq<char> {
    "wss://"@ + server_host + ":"@ + decimal(server_port as nat) + "/tunnel/ws"@
}

/// The status that the beginning of an attempt publishes, and the supervisor
/// after it: the first attempt connects, every later one reconnects, with the
/// reason of the last failure.
pub open spec fn begin_attempt_spec(c: TunnelClientModel) -> (TunnelClientModel, ConnectionStatusModel) {
    let attempt = if c.attempt < u32::MAX {
        (c.attempt + 1) as u32
    } else {
        c.attempt
    };
    (
        TunnelClientModel { attempt, ..c },
        if attempt == 1 {
            ConnectionStatusModel::Connecting
        } else {
            ConnectionStatusModel::Reconnecting {
                attempt,
                reason: match c.last_error {
                    Some(reason) => reason,
                    None => Seq::<char>::empty(),
                },
                next_retry_secs: 0,
            }
        },
    )
}

/// The reason that giving up is reported with.
pub open spec fn exhausted_reason(attempt: u32, reason: Seq<char>) -> Seq<char> {
    "Failed after "@ + decimal(attempt as nat) + " attempts: "@ + reason
}

/// What the end of an attempt leads to, and the supervisor after it.
pub open spec fn attempt_ended_spec(c: TunnelClientModel, outcome: AttemptOutcome) -> (
    TunnelClientModel,
    NextStepModel,
) {
    if outcome == AttemptOutcome::Shutdown {
        (
            c,
            NextStepModel::Stop {
                status: ConnectionStatusModel::Disconnected { reason: "Connection closed"@ },
            },
        )
    } else {
        let reason = failure_reason(outcome);
        if c.attempt >= MAX_RECONNECT_ATTEMPTS {
            (
                TunnelClientModel { last_error: Some(reason), ..c },
                NextStepModel::GiveUp {
                    status: ConnectionStatusModel::Disconnected {
                        reason: exhausted_reason(c.attempt, reason),
                    },
                    reason,
                },
            )
        } else {
            (
                TunnelClientModel {
                    last_error: Some(reason),
                    backoff_ms: next_backoff_spec(c.backoff_ms),
                    ..c
                },
                NextStepModel::Retry {
                    status: ConnectionStatusModel::Reconnecting {
                        attempt: c.attempt,
                        reason,
                        next_retry_secs: c.backoff_ms / 1000,
                    },
                    delay_ms: c.backoff_ms,
                },
            )
        }
    }
}

/// The registrations that a fresh connection starts with: one for each
/// tunnel intent, in order.
pub open spec fn registration_frames(
    token: Seq<char>,
    local_host: Seq<char>,
    configs: Seq<TunnelConfigModel>,
) -> Seq<OutgoingModel> {
    Seq::new(configs.len(), |i: int| registration_frame(token, local_host, configs[i]))
}

/// The registry after the registrations for `configs` were sent.
pub open spec fn with_all_pending(state: ClientStateModel, configs: Seq<TunnelConfigModel>) -> ClientStateModel
    decreases configs.len(),
{
    if configs.len() == 0 {
        state
    } else {
        with_pending(with_all_pending(state, configs.drop_last()), configs.last())
    }
}

/// What a fresh connection starts with.
pub struct SessionStart {
    /// The status to publish.
    pub status: ConnectionStatus,
    /// The connection's dispatcher, with the registrations below pending.
    pub dispatcher: Dispatcher,
    /// The registrations to send first, in order.
    pub frames: Vec<OutgoingMessage>,
}

impl TunnelClient {
    /// A supervisor that has made no attempt yet and tracks no tunnel.
    pub fn new(server_host: &str, server_port: u16, local_host: &str, token: String) -> (r: Self)
        ensures
            r@ == (TunnelClientModel {
                server_host: server_host@,
                server_port,
                local_host: local_host@,
                token: token@,
                registered_tunnels: Seq::empty(),
                last_error: None,
                attempt: 0,
                backoff_ms: INITIAL_BACKOFF_MS,
            }),
    {
        let r = TunnelClient {
            server_host: server_host.to_string(),
            server_port,
            local_host: local_host.to_string(),
            token,
            registered_tunnels: Vec::new(),
            last_error: None,
            attempt: 0,
            backoff_ms: INITIAL_BACKOFF_MS,
        };
        assert(r.registered_tunnels.deep_view() =~= Seq::empty());
        r
    }

    /// The URL of the control endpoint: `wss://{host}:{port}/tunnel/ws`.
    pub fn server_url(&self) -> (r: String)
        ensures
            r@ == server_url_spec(self@.server_host, self@.server_port),
    {
        let mut url = String::from_str("wss://");
        url.append(self.server_host.as_str());
        url.append(":");
        push_decimal(&mut url, self.server_port as u64);
        url.append("/tunnel/ws");
        url
    }

    /// The token that registrations are authenticated with.
    pub fn token(&self) -> (r: &str)
        ensures
            r@ == self@.token,
    {
        self.token.as_str()
    }

    /// Keeps a tunnel intent, to be asserted again on every connection.
    pub fn track_tunnel(&mut self, config: TunnelConfig)
        ensures
            final(self)@ == (TunnelClientModel {
                registered_tunnels: old(self)@.registered_tunnels.push(config@),
                ..old(self)@
            }),
    {
        let ghost before = self.registered_tunnels.deep_view();
        self.registered_tunnels.push(config);
        assert(self.registered_tunnels.deep_view() =~= before.push(config@));
    }

    /// Begins an attempt and says which status to publish.
    pub fn begin_attempt(&mut self) -> (status: ConnectionStatus)
        ensures
            (final(self)@, status@) == begin_attempt_spec(old(self)@),
    {
        if self.attempt < u32::MAX {
            self.attempt = self.attempt + 1;
        }
        if self.attempt == 1 {
            ConnectionStatus::Connecting
        } else {
            ConnectionStatus::Reconnecting {
                attempt: self.attempt,
                reason: match &self.last_error {
                    Some(reason) => reason.clone(),
                    None => String::new(),
                },
                next_retry_secs: 0,
            }
        }
    }

    /// Starts a connection that was just made: the wait before a retry is
    /// back at its first value, and every tunnel intent is registered anew,
    /// in order, each registration pending in the fresh dispatcher.
    pub fn start_session(&mut self) -> (r: SessionStart)
        ensures
            final(self)@ == (TunnelClientModel { backoff_ms: INITIAL_BACKOFF_MS, ..old(self)@ }),
            r.status@ == ConnectionStatusModel::Connected,
            r.frames.deep_view() == registration_frames(
                old(self)@.token,
                old(self)@.local_host,
                old(self)@.registered_tunnels,
            ),
            r.dispatcher@ == (DispatcherModel {
                state: with_all_pending(
                    fresh_dispatcher(old(self)@.local_host).state,
                    old(self)@.registered_tunnels,
                ),
                ..fresh_dispatcher(old(self)@.local_host)
            }),
    {
        self.backoff_ms = INITIAL_BACKOFF_MS;
        let mut dispatcher = Dispatcher::new(self.local_host.as_str());
        let mut frames: Vec<OutgoingMessage> = Vec::new();
        let ghost configs = self.registered_tunnels.deep_view();
        let ghost fresh = fresh_dispatcher(self.local_host@);
        let mut i: usize = 0;
        assert(configs.take(0) =~= Seq::empty());
        while i < self.registered_tunnels.len()
            invariant
                i <= self.registered_tunnels.len(),
                configs == self.registered_tunnels.deep_view(),
                configs.len() == self.registered_tunnels.len(),
                fresh == fresh_dispatcher(self.local_host@),
                dispatcher@ == (DispatcherModel {
                    state: with_all_pending(fresh.state, configs.take(i as int)),
                    ..fresh
                }),
                dispatcher@.state.local_host == self.local_host@,
                frames.len() == i,
                forall|k: int|
                    0 <= k < i ==> #[trigger] frames@[k]@ == registration_frame(
                        self.token@,
                        self.local_host@,
                        configs[k],
                    ),
            decreases self.registered_tunnels.len() - i,
        {
            proof {
                assert(configs.take(i + 1).drop_last() =~= configs.take(i as int));
                assert(configs.take(i + 1).last() == self.registered_tunnels@[i as int]@);
            }
            let frame = dispatcher.register(self.token.as_str(), &self.registered_tunnels[i]);
            frames.push(frame);
            i += 1;
        }
        proof {
            assert(configs.take(i as int) =~= configs);
            assert(frames.deep_view() =~= registration_frames(
                self.token@,
                self.local_host@,
                configs,
            ));
        }
        SessionStart { status: ConnectionStatus::Connected, dispatcher, frames }
    }

    /// Takes note of how an attempt ended and decides what follows.
    pub fn attempt_ended(&mut self, outcome: AttemptOutcome) -> (next: NextStep)
        ensures
            (final(self)@, next@) == attempt_ended_spec(old(self)@, outcome),
    {
        let reason = match outcome {
            AttemptOutcome::Shutdown => {
                return NextStep::Stop {
                    status: ConnectionStatus::Disconnected {
                        reason: String::from_str("Connection closed"),
                    },
                };
            },
            AttemptOutcome::ConnectFailed => String::from_str("Failed to connect to server"),
            AttemptOutcome::ConnectionLost => String::from_str("Connection lost"),
        };
        self.last_error = Some(reason.clone());
        if self.attempt >= MAX_RECONNECT_ATTEMPTS {
            let mut text = String::from_str("Failed after ");
            push_decimal(&mut text, self.attempt as u64);
            text.append(" attempts: ");
            text.append(reason.as_str());
            NextStep::GiveUp { status: ConnectionStatus::Disconnected { reason: text }, reason }
        } else {
            let delay_ms = self.backoff_ms;
            self.backoff_ms = next_backoff(self.backoff_ms);
            NextStep::Retry {
                status: ConnectionStatus::Reconnecting {
                    attempt: self.attempt,
                    reason,
                    next_retry_secs: delay_ms / 1000,
                },
                delay_ms,
            }
        }
    }
}

/// What the reader does with what the control connection handed it.
#[derive(Debug, Clone, PartialEq, Eq)]
pub enum ReaderStep {
    /// A text frame: hand it to the dispatcher.
    Dispatch(String),
    /// Put this transport frame on the writer's queue of raw frames.
    Reply(WsMessage),
    /// Nothing to do.
    Ignore,
    /// The connection is over: end the reader.
    Stop,
}

/// The model of a [`ReaderStep`].
pub enum ReaderStepModel {
    Dispatch(Seq<char>),
    Reply(WsMessageModel),
    Ignore,
    Stop,
}

impl View for ReaderStep {
    type V = ReaderStepModel;

    open spec fn view(&self) -> ReaderStepModel {
        match *self {
            ReaderStep::Dispatch(text) => ReaderStepModel::Dispatch(text@),
            ReaderStep::Reply(message) => ReaderStepModel::Reply(message@),
            ReaderStep::Ignore => ReaderStepModel::Ignore,
            ReaderStep::Stop => ReaderStepModel::Stop,
        }
    }
}

/// The model of what the control connection hands to the reader.
pub open spec fn received_model(received: Result<WsMessage, String>) -> Result<
    WsMessageModel,
    Seq<char>,
> {
    match received {
        Ok(message) => Ok(message@),
        Err(error) => Err(error@),
    }
}

/// A text frame goes to the dispatcher; a ping is answered by a pong with
/// the same payload; a close or a read error ends the reader; pongs, binary
/// and raw frames are ignored.
pub open spec fn on_received_spec(received: Result<WsMessageModel, Seq<char>>) -> ReaderStepModel {
    match received {
        Ok(WsMessageModel::Text(text)) => ReaderStepModel::Dispatch(text),
        Ok(WsMessageModel::Ping(payload)) => ReaderStepModel::Reply(WsMessageModel::Pong(payload)),
        Ok(WsMessageModel::Close(_)) => ReaderStepModel::Stop,
        Ok(_) => ReaderStepModel::Ignore,
        Err(_) => ReaderStepModel::Stop,
    }
}

/// Decides what the reader does with what the control connection handed it.
pub fn on_received(received: Result<WsMessage, String>) -> (r: ReaderStep)
    ensures
        r@ == on_received_spec(received_model(received)),
{
    match received {
        Ok(WsMessage::Text(text)) => ReaderStep::Dispatch(text),
        Ok(WsMessage::Ping(payload)) => ReaderStep::Reply(WsMessage::Pong(payload)),
        Ok(WsMessage::Close(_)) => ReaderStep::Stop,
        Ok(_) => ReaderStep::Ignore,
        Err(_) => ReaderStep::Stop,
    }
}

/// What the writer does after a send failed.
#[derive(Debug, Clone, Copy, PartialEq, Eq, Structural)]
pub enum WriterStep {
    /// The connection is closing: note it for debugging and go on.
    Continue,
    /// End the writer; the connection is lost.
    Stop,
}

/// Decides what the writer does after a send failed with the error `error`:
/// an error that speaks of `closing` is no reason to stop, any other is.
pub fn on_send_error(error: &str) -> (r: WriterStep)
    ensures
        r == if has_substring(error@, "closing"@) {
            WriterStep::Continue
        } else {
            WriterStep::Stop
        },
{
    if str_contains(error, "closing") {
        WriterStep::Continue
    } else {
        WriterStep::Stop
    }
}

/// One of the writer's two queues.
#[derive(Debug, Clone, Copy, PartialEq, Eq, Structural)]
pub enum WriterQueue {
    /// The queue of raw transport frames, such as pongs.
    Raw,
    /// The queue of text frames.
    Text,
}

/// Whose turn it is at the writer: the queue that was served last, if any.
#[derive(Debug, Clone, Copy, PartialEq, Eq, Structural)]
pub struct WriterTurn {
    pub last: Option<WriterQueue>,
}

/// The queue that the writer serves next: of two queues that both have a
/// frame, the one that was not served last, and the raw one at the start; a
/// queue that alone has a frame is served whatever came before.
pub open spec fn next_queue(last: Option<WriterQueue>, raw_ready: bool, text_ready: bool) -> Option<
    WriterQueue,
> {
    if raw_ready && text_ready {
        if last == Some(WriterQueue::Raw) {
            Some(WriterQueue::Text)
        } else {
            Some(WriterQueue::Raw)
        }
    } else if raw_ready {
        Some(WriterQueue::Raw)
    } else if text_ready {
        Some(WriterQueue::Text)
    } else {
        None
    }
}

impl WriterTurn {
    /// The turn before any frame was written.
    pub fn new() -> (r: Self)
        ensures
            r.last is None,
    {
        WriterTurn { last: None }
    }

    /// The queue to look at first: the one that was not served last.
    pub fn first(&self) -> (r: WriterQueue)
        ensures
            Some(r) == next_queue(self.last, true, true),
    {
        match self.last {
            Some(WriterQueue::Raw) => WriterQueue::Text,
            _ => WriterQueue::Raw,
        }
    }

    /// Chooses the queue to serve, given which queues have a frame.
    pub fn pick(&self, raw_ready: bool, text_ready: bool) -> (r: Option<WriterQueue>)
        ensures
            r == next_queue(self.last, raw_ready, text_ready),
    {
        if raw_ready && text_ready {
            Some(self.first())
        } else if raw_ready {
            Some(WriterQueue::Raw)
        } else if text_ready {
            Some(WriterQueue::Text)
        } else {
            None
        }
    }

    /// Notes which queue was served.
    pub fn served(&mut self, queue: WriterQueue)
        ensures
            final(self).last == Some(queue),
    {
        self.last = Some(queue);
    }
}

/// The selection is fair: while both queues have frames, neither is served
/// twice in a row; and a frame that waits alone is always served.
pub proof fn lemma_writer_is_fair(last: Option<WriterQueue>, raw_ready: bool, text_ready: bool)
    ensures
        raw_ready && text_ready ==> next_queue(last, true, true) != last,
        raw_ready && text_ready ==> next_queue(next_queue(last, true, true), true, true)
            != next_queue(last, true, true),
        raw_ready || text_ready ==> next_queue(last, raw_ready, text_ready) is Some,
        next_queue(last, raw_ready, text_ready) == Some(WriterQueue::Raw) ==> raw_ready,
        next_queue(last, raw_ready, text_ready) == Some(WriterQueue::Text) ==> text_ready,
{
}

/// The frame that the heartbeat task puts on the writer's queue, every
/// [`HEARTBEAT_INTERVAL_SECS`] seconds.
pub fn heartbeat_frame() -> (r: OutgoingMessage)
    ensures
        r@ == OutgoingModel::Heartbeat,
{
    OutgoingMessage::heartbeat()
}

/// One attempt that ends with `outcome`: the supervisor after it, and what
/// follows.
pub open spec fn attempt_cycle(c: TunnelClientModel, outcome: AttemptOutcome) -> (
    TunnelClientModel,
    NextStepModel,
) {
    attempt_ended_spec(begin_attempt_spec(c).0, outcome)
}

/// The supervisor after a row of attempts with these outcomes, none of which
/// got as far as a connection.
pub open spec fn after_attempts(c: TunnelClientModel, outcomes: Seq<AttemptOutcome>) -> TunnelClientModel
    decreases outcomes.len(),
{
    if outcomes.len() == 0 {
        c
    } else {
        attempt_cycle(after_attempts(c, outcomes.drop_last()), outcomes.last()).0
    }
}

/// From a fresh supervisor, a row of failures walks through the waits one by
/// one: after `n` failures, `n` attempts are counted and the next wait is
/// the `n+1`-th of the sequence.
pub proof fn lemma_after_failures(c: TunnelClientModel, outcomes: Seq<AttemptOutcome>)
    requires
        c.attempt == 0,
        c.backoff_ms == INITIAL_BACKOFF_MS,
        outcomes.len() < MAX_RECONNECT_ATTEMPTS,
        forall|i: int| 0 <= i < outcomes.len() ==> #[trigger] outcomes[i] != AttemptOutcome::Shutdown,
    ensures
        after_attempts(c, outcomes).attempt == outcomes.len(),
        after_attempts(c, outcomes).backoff_ms == backoff_at(outcomes.len() + 1),
    decreases outcomes.len(),
{
    if outcomes.len() > 0 {
        let head = outcomes.drop_last();
        assert forall|i: int| 0 <= i < head.len() implies #[trigger] head[i]
            != AttemptOutcome::Shutdown by {
            assert(head[i] == outcomes[i]);
        }
        lemma_after_failures(c, head);
        assert(outcomes[outcomes.len() - 1] != AttemptOutcome::Shutdown);
    }
}

/// From a fresh supervisor, the failure that follows `n` failures in a row
/// leads to a retry after the `n+1`-th wait of the sequence while fewer than
/// ten attempts were made, and to giving up at the tenth, with the reason
/// `Failed after 10 attempts: ...`.
pub proof fn lemma_next_failure(
    c: TunnelClientModel,
    outcomes: Seq<AttemptOutcome>,
    outcome: AttemptOutcome,
)
    requires
        c.attempt == 0,
        c.backoff_ms == INITIAL_BACKOFF_MS,
        outcomes.len() < MAX_RECONNECT_ATTEMPTS,
        forall|i: int| 0 <= i < outcomes.len() ==> #[trigger] outcomes[i] != AttemptOutcome::Shutdown,
        outcome != AttemptOutcome::Shutdown,
    ensures
        outcomes.len() + 1 < MAX_RECONNECT_ATTEMPTS ==> attempt_cycle(
            after_attempts(c, outcomes),
            outcome,
        ).1 == (NextStepModel::Retry {
            status: ConnectionStatusModel::Reconnecting {
                attempt: (outcomes.len() + 1) as u32,
                reason: failure_reason(outcome),
                next_retry_secs: backoff_at(outcomes.len() + 1) / 1000,
            },
            delay_ms: backoff_at(outcomes.len() + 1),
        }),
        outcomes.len() + 1 == MAX_RECONNECT_ATTEMPTS ==> attempt_cycle(
            after_attempts(c, outcomes),
            outcome,
        ).1 == (NextStepModel::GiveUp {
            status: ConnectionStatusModel::Disconnected {
                reason: exhausted_reason(MAX_RECONNECT_ATTEMPTS, failure_reason(outcome)),
            },
            reason: failure_reason(outcome),
        }),
{
    lemma_after_failures(c, outcomes);
}

/// A connection starts with nothing of the connections before it: no
/// confirmed tunnel and no open flow, whatever tunnels are wanted. What it
/// has is the registrations that wait for their confirmation, one for each
/// tunnel intent.
pub proof fn lemma_session_starts_empty(local_host: Seq<char>, configs: Seq<TunnelConfigModel>)
    ensures
        with_all_pending(fresh_state(local_host), configs).tunnels == Map::<
            Seq<char>,
            crate::state::TunnelInfoModel,
        >::empty(),
        with_all_pending(fresh_state(local_host), configs).tcp_tunnels == Map::<
            Seq<char>,
            crate::state::TcpTunnelInfo,
        >::empty(),
        with_all_pending(fresh_state(local_host), configs).ws_proxies == Set::<Seq<char>>::empty(),
        with_all_pending(fresh_state(local_host), configs).tcp_connections == Set::<
            Seq<char>,
        >::empty(),
        with_all_pending(fresh_state(local_host), configs).local_host == local_host,
        with_all_pending(fresh_state(local_host), configs).pending_tunnels.len() + with_all_pending(
            fresh_state(local_host),
            configs,
        ).pending_tcp_tunnels.len() == configs.len(),
    decreases configs.len(),
{
    if configs.len() > 0 {
        lemma_session_starts_empty(local_host, configs.drop_last());
    }
}

} // verus!
