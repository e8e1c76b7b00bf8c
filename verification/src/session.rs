use vstd::prelude::*;

use crate::frames::{connect_request_value, invoke_reply_value};
use crate::invoke::{
    frame_step, opt_text, plan_frame, result_view, run_result, run_result_value, which_result,
    which_result_value, RunOutcome, RunRequest, RunValue, Step, StepValue, WhichOutcome,
};
use crate::json::{fields_view, push_member, Json, JsonNumber, JsonValue, NumberValue};
use crate::frames::{text_array, text_values};
use crate::runner::{
    finish_handshake, handshake_outcome, texts, ErrorValue, HandshakeEvent, NodeConfig, NodeError, NodeHost,
};
use crate::support::{fresh_uuid, is_uuid_v4_text};

verus! {

/// How often a registered node reports its telemetry, in milliseconds.
pub const TELEMETRY_INTERVAL_MS: u64 = 30_000;

/// Where a session stands.
#[derive(PartialEq, Eq, Structural, Clone, Copy)]
pub enum Phase {
    /// The connect request is sent; its reply is awaited.
    AwaitingReply,
    /// The gateway accepted the node.
    Registered,
    /// The session is over.
    Ended,
}

/// The invoke request whose work is under way.
pub enum Pending {
    Run { invoke_id: String, timeout_ms: u64 },
    Which { invoke_id: String },
}

/// The model of the invoke request whose work is under way.
pub enum PendingValue {
    Run { invoke_id: Seq<char>, timeout_ms: u64 },
    Which { invoke_id: Seq<char> },
}

impl View for Pending {
    type V = PendingValue;

    open spec fn view(&self) -> PendingValue {
        match self {
            Pending::Run { invoke_id, timeout_ms } => PendingValue::Run {
                invoke_id: invoke_id@,
                timeout_ms: *timeout_ms,
            },
            Pending::Which { invoke_id } => PendingValue::Which { invoke_id: invoke_id@ },
        }
    }
}

/// The request that a piece of work answers.
pub open spec fn pending_id(p: PendingValue) -> Seq<char> {
    match p {
        PendingValue::Run { invoke_id, .. } => invoke_id,
        PendingValue::Which { invoke_id } => invoke_id,
    }
}

/// A message from the gateway once the node is registered.
pub enum Incoming {
    /// A text message holding this JSON document.
    Frame(Json),
    /// A text message that is not JSON.
    Unparsable,
    /// A ping, with its data.
    Ping(Vec<u8>),
    /// The gateway closes the connection.
    Close,
    /// Any other message.
    Other,
    /// The connection failed; the error text.
    Error(String),
    /// The stream of messages ended.
    Ended,
}

/// Something that happened to a session.
pub enum Event {
    /// What came in answer to the connect request.
    Handshake(HandshakeEvent),
    /// A message from the gateway.
    Message(Incoming),
    /// A ping could not be answered; the error text.
    PongFailed(String),
    /// A shell command asked for has finished.
    RunDone(RunOutcome),
    /// A program lookup asked for has finished.
    WhichDone(WhichOutcome),
    /// The clock, in milliseconds.
    Tick(u64),
}

/// Work that the node carries out for an invoke request.
pub enum Work {
    Run(RunRequest),
    Which(String),
}

/// What the session asks its driver to do.
pub enum Action {
    /// Nothing; wait for the next event.
    Wait,
    /// Answer a ping with this data.
    Pong(Vec<u8>),
    /// Carry out this work, then report how it went.
    Execute(Work),
    /// Send the reply to an invoke request.
    Reply { invoke_id: String, result: Result<Json, String> },
    /// Send a telemetry report.
    ReportTelemetry,
    /// The session is over, cleanly or with an error.
    Finish(Result<(), NodeError>),
}

pub enum WorkValue {
    Run(RunValue),
    Which(Seq<char>),
}

/// The model of an action.
pub enum ActionValue {
    Wait,
    Pong(Seq<u8>),
    Execute(WorkValue),
    Reply { invoke_id: Seq<char>, result: Result<JsonValue, Seq<char>> },
    ReportTelemetry,
    Finish(Result<(), ErrorValue>),
}

impl View for Work {
    type V = WorkValue;

    open spec fn view(&self) -> WorkValue {
        match self {
            Work::Run(r) => WorkValue::Run(r@),
            Work::Which(b) => WorkValue::Which(b@),
        }
    }
}

impl View for Action {
    type V = ActionValue;

    open spec fn view(&self) -> ActionValue {
        match self {
            Action::Wait => ActionValue::Wait,
            Action::Pong(d) => ActionValue::Pong(d@),
            Action::Execute(w) => ActionValue::Execute(w@),
            Action::Reply { invoke_id, result } => ActionValue::Reply {
                invoke_id: invoke_id@,
                result: result_view(*result),
            },
            Action::ReportTelemetry => ActionValue::ReportTelemetry,
            Action::Finish(r) => ActionValue::Finish(
                match r {
                    Ok(()) => Ok(()),
                    Err(e) => Err(e@),
                },
            ),
        }
    }
}

/// The model of a session.
pub struct SessionView {
    pub config: NodeConfig,
    pub home: Option<Seq<char>>,
    pub connect_id: Seq<char>,
    pub phase: Phase,
    pub pending: Option<PendingValue>,
    pub next_report_ms: Option<u64>,
}

/// Whether a telemetry report is due at `now`, given when the next one is due
/// (none yet: at once).
pub open spec fn report_due(next: Option<u64>, now: u64) -> bool {
    match next {
        None => true,
        Some(n) => now >= n,
    }
}

/// A time, kept to what a `u64` holds.
pub open spec fn clamp_ms(t: int) -> u64 {
    if t > u64::MAX {
        u64::MAX
    } else {
        t as u64
    }
}

/// When the report after one made at `now` is due: one interval after the time
/// this one was due, so that reports keep to a fixed schedule however late a
/// tick comes; one interval after `now` where the schedule has fallen a whole
/// interval behind, or where no report was due before.
pub open spec fn next_report_after(next: Option<u64>, now: u64) -> u64 {
    match next {
        None => clamp_ms(now + TELEMETRY_INTERVAL_MS),
        Some(n) => if n + TELEMETRY_INTERVAL_MS > now {
            clamp_ms(n + TELEMETRY_INTERVAL_MS)
        } else {
            clamp_ms(now + TELEMETRY_INTERVAL_MS)
        },
    }
}

/// What a registered session with no work under way does about a message.
pub open spec fn message_step(s: SessionView, m: Incoming) -> (SessionView, ActionValue) {
    match m {
        Incoming::Frame(f) => match frame_step(s.config, s.home, f@) {
            StepValue::Ignore => (s, ActionValue::Wait),
            StepValue::Fail { invoke_id, message } => (
                s,
                ActionValue::Reply { invoke_id, result: Err(message) },
            ),
            StepValue::Run { invoke_id, request } => (
                SessionView {
                    pending: Some(PendingValue::Run { invoke_id, timeout_ms: request.timeout_ms }),
                    ..s
                },
                ActionValue::Execute(WorkValue::Run(request)),
            ),
            StepValue::Which { invoke_id, binary } => (
                SessionView { pending: Some(PendingValue::Which { invoke_id }), ..s },
                ActionValue::Execute(WorkValue::Which(binary)),
            ),
        },
        Incoming::Ping(d) => (s, ActionValue::Pong(d@)),
        Incoming::Unparsable | Incoming::Other => (s, ActionValue::Wait),
        Incoming::Close | Incoming::Ended => (SessionView { phase: Phase::Ended, ..s }, ActionValue::Finish(Ok(()))),
        Incoming::Error(m) => (
            SessionView { phase: Phase::Ended, ..s },
            ActionValue::Finish(Err(ErrorValue::ConnectionFailed(m@))),
        ),
    }
}

/// One step of a session: the state after an event, and what to do about it.
///
/// Before the gateway accepts the node only the handshake counts; while work
/// for an invoke request is under way only its completion counts, so one
/// request is answered before the next message is read.
pub open spec fn session_step(s: SessionView, e: Event) -> (SessionView, ActionValue) {
    match s.phase {
        Phase::Ended => (s, ActionValue::Wait),
        Phase::AwaitingReply => match e {
            Event::Handshake(h) => match handshake_outcome(s.connect_id, h) {
                Ok(()) => (SessionView { phase: Phase::Registered, ..s }, ActionValue::Wait),
                Err(err) => (SessionView { phase: Phase::Ended, ..s }, ActionValue::Finish(Err(err))),
            },
            _ => (s, ActionValue::Wait),
        },
        Phase::Registered => match s.pending {
            Some(p) => match (p, e) {
                (PendingValue::Run { invoke_id, timeout_ms }, Event::RunDone(o)) => (
                    SessionView { pending: None, ..s },
                    ActionValue::Reply { invoke_id, result: run_result_value(timeout_ms, o) },
                ),
                (PendingValue::Which { invoke_id }, Event::WhichDone(o)) => (
                    SessionView { pending: None, ..s },
                    ActionValue::Reply { invoke_id, result: which_result_value(o) },
                ),
                _ => (s, ActionValue::Wait),
            },
            None => match e {
                Event::Message(m) => message_step(s, m),
                Event::PongFailed(m) => (
                    SessionView { phase: Phase::Ended, ..s },
                    ActionValue::Finish(Err(ErrorValue::PongFailed(m@))),
                ),
                Event::Tick(now) => if report_due(s.next_report_ms, now) {
                    (
                        SessionView { next_report_ms: Some(next_report_after(s.next_report_ms, now)), ..s },
                        ActionValue::ReportTelemetry,
                    )
                } else {
                    (s, ActionValue::Wait)
                },
                _ => (s, ActionValue::Wait),
            },
        },
    }
}

/// A run of events: the final state and the actions, in order.
pub open spec fn session_run(s: SessionView, events: Seq<Event>) -> (SessionView, Seq<ActionValue>)
    decreases events.len(),
{
    if events.len() == 0 {
        (s, Seq::empty())
    } else {
        let (s1, a1) = session_step(s, events[0]);
        let (s2, rest) = session_run(s1, events.drop_first());
        (s2, seq![a1] + rest)
    }
}

/// Measurements of the node's machine; a measurement that could not be taken is
/// absent.
pub struct Telemetry {
    pub cpu_count: Option<u64>,
    /// CPU usage, in whole percent of all CPUs.
    pub cpu_usage_percent: Option<u64>,
    pub memory_total: Option<u64>,
    pub memory_available: Option<u64>,
    pub disk_total: Option<u64>,
    pub disk_available: Option<u64>,
    pub uptime_secs: Option<u64>,
    /// The language runtimes installed.
    pub runtimes: Vec<String>,
    /// The LLM providers available.
    pub providers: Vec<String>,
    /// The models a local Ollama server offers.
    pub ollama_models: Vec<String>,
}

pub open spec fn measure_value(m: Option<u64>) -> JsonValue {
    match m {
        Some(n) => JsonValue::Number(NumberValue::PosInt(n)),
        None => JsonValue::Null,
    }
}

/// The telemetry report sent under the request id `frame_id`.
pub open spec fn telemetry_value(frame_id: Seq<char>, t: Telemetry) -> JsonValue {
    JsonValue::Object(
        seq![
            ("type"@, JsonValue::Text("req"@)),
            ("id"@, JsonValue::Text(frame_id)),
            ("method"@, JsonValue::Text("node.telemetry"@)),
            (
                "params"@,
                JsonValue::Object(
                    seq![
                        ("cpuCount"@, measure_value(t.cpu_count)),
                        ("cpuUsage"@, measure_value(t.cpu_usage_percent)),
                        ("memoryTotal"@, measure_value(t.memory_total)),
                        ("memoryAvailable"@, measure_value(t.memory_available)),
                        ("diskTotal"@, measure_value(t.disk_total)),
                        ("diskAvailable"@, measure_value(t.disk_available)),
                        ("uptime"@, measure_value(t.uptime_secs)),
                        ("runtimes"@, JsonValue::Array(text_values(texts(t.runtimes@)))),
                        ("providers"@, JsonValue::Array(text_values(texts(t.providers@)))),
                        ("ollamaModels"@, JsonValue::Array(text_values(texts(t.ollama_models@)))),
                    ],
                ),
            ),
        ],
    )
}

fn measure(m: Option<u64>) -> (res: Json)
    ensures
        res@ == measure_value(m),
{
    match m {
        Some(n) => Json::Number(JsonNumber::PosInt(n)),
        None => Json::Null,
    }
}

/// Builds the telemetry report sent under the request id `frame_id`.
pub fn telemetry_frame(frame_id: &str, t: &Telemetry) -> (res: Json)
    ensures
        res@ == telemetry_value(frame_id@, *t),
{
    let ghost target = telemetry_value(frame_id@, *t);
    let mut params: Vec<(String, Json)> = Vec::new();
    push_member(&mut params, "cpuCount", measure(t.cpu_count));
    push_member(&mut params, "cpuUsage", measure(t.cpu_usage_percent));
    push_member(&mut params, "memoryTotal", measure(t.memory_total));
    push_member(&mut params, "memoryAvailable", measure(t.memory_available));
    push_member(&mut params, "diskTotal", measure(t.disk_total));
    push_member(&mut params, "diskAvailable", measure(t.disk_available));
    push_member(&mut params, "uptime", measure(t.uptime_secs));
    push_member(&mut params, "runtimes", text_array(&t.runtimes));
    push_member(&mut params, "providers", text_array(&t.providers));
    push_member(&mut params, "ollamaModels", text_array(&t.ollama_models));
    assert(fields_view(params@) =~= target->Object_0[3].1->Object_0);
    let mut frame: Vec<(String, Json)> = Vec::new();
    push_member(&mut frame, "type", Json::text("req"));
    push_member(&mut frame, "id", Json::text(frame_id));
    push_member(&mut frame, "method", Json::text("node.telemetry"));
    push_member(&mut frame, "params", Json::Object(params));
    assert(fields_view(frame@) =~= target->Object_0);
    Json::Object(frame)
}

/// A node's session with the gateway: the handshake, then the gateway's
/// requests, one at a time, and periodic telemetry.
pub struct Session {
    host: NodeHost,
    home: Option<String>,
    connect_id: String,
    phase: Phase,
    pending: Option<Pending>,
    next_report_ms: Option<u64>,
}

impl View for Session {
    type V = SessionView;

    closed spec fn view(&self) -> SessionView {
        SessionView {
            config: self.host.spec_config(),
            home: opt_text(self.home),
            connect_id: self.connect_id@,
            phase: self.phase,
            pending: match self.pending {
                Some(p) => Some(p@),
                None => None,
            },
            next_report_ms: self.next_report_ms,
        }
    }
}

fn pending_view(o: &Option<Pending>) -> (res: Option<Pending>)
    ensures
        match (res, *o) {
            (Some(a), Some(b)) => a@ == b@,
            (None, None) => true,
            _ => false,
        },
{
    match o {
        Some(Pending::Run { invoke_id, timeout_ms }) => Some(
            Pending::Run { invoke_id: invoke_id.clone(), timeout_ms: *timeout_ms },
        ),
        Some(Pending::Which { invoke_id }) => Some(Pending::Which { invoke_id: invoke_id.clone() }),
        None => None,
    }
}

impl Session {
    /// Opens a session for `host`, whose commands run in `home` unless told
    /// otherwise: validates the gateway URL and returns the connect request to
    /// send, under a fresh request id; `version` is the node software's version.
    pub fn open(host: NodeHost, home: Option<String>, version: &str) -> (res: Result<(Session, Json), NodeError>)
        ensures
            match res {
                Ok((s, request)) => {
                    &&& s@ == SessionView {
                        config: host.spec_config(),
                        home: opt_text(home),
                        connect_id: s@.connect_id,
                        phase: Phase::AwaitingReply,
                        pending: None,
                        next_report_ms: None,
                    }
                    &&& is_uuid_v4_text(s@.connect_id)
                    &&& request@ == connect_request_value(s@.connect_id, host.spec_config(), version@)
                },
                Err(e) => e is InvalidGatewayUrl && crate::support::url_parse_failure(
                    host.spec_config().gateway_url@,
                ) == Some(crate::runner::error_message(e@)),
            },
    {
        match host.begin(version) {
            Ok(h) => {
                let s = Session {
                    host,
                    home,
                    connect_id: h.connect_id,
                    phase: Phase::AwaitingReply,
                    pending: None,
                    next_report_ms: None,
                };
                Ok((s, h.request))
            },
            Err(e) => Err(e),
        }
    }

    /// The host this session runs for.
    pub fn host(&self) -> (res: &NodeHost)
        ensures
            res.spec_config() == self@.config,
    {
        &self.host
    }

    /// Where the session stands.
    pub fn phase(&self) -> (res: Phase)
        ensures
            res == self@.phase,
    {
        self.phase
    }

    /// Takes one event and says what to do about it.
    pub fn step(&mut self, event: Event) -> (res: Action)
        ensures
            (final(self)@, res@) == session_step(old(self)@, event),
    {
        match self.phase {
            Phase::Ended => return Action::Wait,
            Phase::AwaitingReply => {
                return match event {
                    Event::Handshake(h) => {
                        match finish_handshake(self.connect_id.as_str(), h) {
                            Ok(_) => {
                                self.phase = Phase::Registered;
                                Action::Wait
                            },
                            Err(e) => {
                                self.phase = Phase::Ended;
                                Action::Finish(Err(e))
                            },
                        }
                    },
                    _ => Action::Wait,
                };
            },
            Phase::Registered => {},
        }
        match pending_view(&self.pending) {
            Some(p) => {
                match (p, event) {
                    (Pending::Run { invoke_id, timeout_ms }, Event::RunDone(o)) => {
                        self.pending = None;
                        Action::Reply { invoke_id, result: run_result(timeout_ms, o) }
                    },
                    (Pending::Which { invoke_id }, Event::WhichDone(o)) => {
                        self.pending = None;
                        Action::Reply { invoke_id, result: which_result(o) }
                    },
                    _ => Action::Wait,
                }
            },
            None => match event {
                Event::Message(m) => self.on_message(m),
                Event::PongFailed(m) => {
                    self.phase = Phase::Ended;
                    Action::Finish(Err(NodeError::PongFailed(m)))
                },
                Event::Tick(now) => {
                    let due = match self.next_report_ms {
                        None => true,
                        Some(n) => now >= n,
                    };
                    if due {
                        let after_now = if now <= u64::MAX - TELEMETRY_INTERVAL_MS {
                            now + TELEMETRY_INTERVAL_MS
                        } else {
                            u64::MAX
                        };
                        let next = match self.next_report_ms {
                            None => after_now,
                            Some(n) => if n > u64::MAX - TELEMETRY_INTERVAL_MS {
                                u64::MAX
                            } else if n + TELEMETRY_INTERVAL_MS > now {
                                n + TELEMETRY_INTERVAL_MS
                            } else {
                                after_now
                            },
                        };
                        self.next_report_ms = Some(next);
                        Action::ReportTelemetry
                    } else {
                        Action::Wait
                    }
                },
                _ => Action::Wait,
            },
        }
    }

    fn on_message(&mut self, m: Incoming) -> (res: Action)
        requires
            old(self)@.phase == Phase::Registered,
            old(self)@.pending is None,
        ensures
            (final(self)@, res@) == message_step(old(self)@, m),
    {
        match m {
            Incoming::Frame(f) => match plan_frame(self.host.config(), &self.home, &f) {
                Step::Ignore => Action::Wait,
                Step::Fail { invoke_id, message } => Action::Reply { invoke_id, result: Err(message) },
                Step::Run { invoke_id, request } => {
                    self.pending = Some(Pending::Run { invoke_id, timeout_ms: request.timeout_ms });
                    Action::Execute(Work::Run(request))
                },
                Step::Which { invoke_id, binary } => {
                    self.pending = Some(Pending::Which { invoke_id });
                    Action::Execute(Work::Which(binary))
                },
            },
            Incoming::Ping(d) => Action::Pong(d),
            Incoming::Unparsable => Action::Wait,
            Incoming::Other => Action::Wait,
            Incoming::Close => {
                self.phase = Phase::Ended;
                Action::Finish(Ok(()))
            },
            Incoming::Ended => {
                self.phase = Phase::Ended;
                Action::Finish(Ok(()))
            },
            Incoming::Error(e) => {
                self.phase = Phase::Ended;
                Action::Finish(Err(NodeError::ConnectionFailed(e)))
            },
        }
    }

    /// The reply that carries the outcome of the invoke request `invoke_id`,
    /// under a fresh request id.
    pub fn reply_frame(&self, invoke_id: &str, result: Result<Json, String>) -> (res: Json)
        ensures
            exists|frame_id: Seq<char>|
                is_uuid_v4_text(frame_id) && res@ == invoke_reply_value(frame_id, invoke_id@, result_view(result)),
    {
        self.host.reply(invoke_id, result)
    }

    /// The telemetry report for measurements `t`, under a fresh request id.
    pub fn telemetry_report(&self, t: &Telemetry) -> (res: Json)
        ensures
            exists|frame_id: Seq<char>| is_uuid_v4_text(frame_id) && res@ == telemetry_value(frame_id, *t),
    {
        let frame_id = fresh_uuid();
        let res = telemetry_frame(frame_id.as_str(), t);
        assert(is_uuid_v4_text(frame_id@));
        res
    }
}

} // verus!
