use vstd::prelude::*;

use crate::frames::{connect_request, connect_request_value, invoke_reply, invoke_reply_value};
use crate::invoke::result_view;
use crate::json::Json;
use crate::support::{fresh_uuid, is_uuid_v4_text, url_error, url_parse_failure};

verus! {

/// The texts of a vector of strings.
pub open spec fn texts(v: Seq<String>) -> Seq<Seq<char>> {
    v.map_values(|s: String| s@)
}

/// Configuration for connecting a node to a gateway.
pub struct NodeConfig {
    /// Gateway WebSocket URL (e.g. `ws://localhost:9090/ws`).
    pub gateway_url: String,
    /// Device token obtained from the pairing flow.
    pub device_token: String,
    /// Unique node identifier.
    pub node_id: String,
    /// Human-readable display name.
    pub display_name: Option<String>,
    /// Platform string (e.g. "macos", "linux").
    pub platform: String,
    /// Capabilities this node advertises (e.g. "system.run").
    pub caps: Vec<String>,
    /// Commands this node supports (e.g. "system.run", "system.which").
    pub commands: Vec<String>,
    /// Maximum time for a single command execution, in milliseconds.
    pub exec_timeout_ms: u64,
    /// Working directory for commands (defaults to $HOME).
    pub working_dir: Option<String>,
}

/// A vector holding the given texts.
pub fn string_vec2(a: &str, b: &str) -> (res: Vec<String>)
    ensures
        texts(res@) == seq![a@, b@],
{
    let mut v: Vec<String> = Vec::new();
    v.push(String::from_str(a));
    v.push(String::from_str(b));
    assert(texts(v@) =~= seq![a@, b@]);
    v
}

/// A vector holding the given texts.
pub fn string_vec3(a: &str, b: &str, c: &str) -> (res: Vec<String>)
    ensures
        texts(res@) == seq![a@, b@, c@],
{
    let mut v: Vec<String> = Vec::new();
    v.push(String::from_str(a));
    v.push(String::from_str(b));
    v.push(String::from_str(c));
    assert(texts(v@) =~= seq![a@, b@, c@]);
    v
}

impl NodeConfig {
    /// The default configuration on a host of the given platform: the local
    /// gateway, no token, a fresh random node id, no display name, the
    /// `system.run` and `system.which` capabilities and commands, a 300 second
    /// command timeout, and no working directory (commands then run in the home
    /// directory).
    pub fn default_for_platform(platform: &str) -> (res: NodeConfig)
        ensures
            res.gateway_url@ == "ws://localhost:9090/ws"@,
            res.device_token@ == Seq::<char>::empty(),
            is_uuid_v4_text(res.node_id@),
            res.display_name is None,
            res.platform@ == platform@,
            texts(res.caps@) == seq!["system.run"@, "system.which"@],
            texts(res.commands@) == seq!["system.run"@, "system.which"@],
            res.exec_timeout_ms == 300_000,
            res.working_dir is None,
    {
        NodeConfig {
            gateway_url: String::from_str("ws://localhost:9090/ws"),
            device_token: String::new(),
            node_id: fresh_uuid(),
            display_name: None,
            platform: String::from_str(platform),
            caps: string_vec2("system.run", "system.which"),
            commands: string_vec2("system.run", "system.which"),
            exec_timeout_ms: 300_000,
            working_dir: None,
        }
    }
}

/// A headless node host that connects to a gateway and handles commands.
pub struct NodeHost {
    config: NodeConfig,
}

impl NodeHost {
    /// The configuration this host runs with.
    pub closed spec fn spec_config(&self) -> NodeConfig {
        self.config
    }

    pub fn new(config: NodeConfig) -> (res: NodeHost)
        ensures
            res.spec_config() == config,
    {
        NodeHost { config }
    }

    /// The configuration this host runs with.
    pub fn config(&self) -> (res: &NodeConfig)
        ensures
            *res == self.spec_config(),
    {
        &self.config
    }

    /// Validates the gateway URL and prepares the connect request, under a fresh
    /// request id; `version` is the node software's version.
    pub fn begin(&self, version: &str) -> (res: Result<Handshake, NodeError>)
        ensures
            match res {
                Ok(h) => {
                    &&& url_parse_failure(self.spec_config().gateway_url@) is None
                    &&& is_uuid_v4_text(h.connect_id@)
                    &&& h.request@ == connect_request_value(h.connect_id@, self.spec_config(), version@)
                },
                Err(e) => url_parse_failure(self.spec_config().gateway_url@) == Some(
                    error_message(e@),
                ) && e is InvalidGatewayUrl,
            },
    {
        match url_error(self.config.gateway_url.as_str()) {
            Some(m) => Err(NodeError::InvalidGatewayUrl(m)),
            None => {
                let connect_id = fresh_uuid();
                let request = connect_request(connect_id.as_str(), &self.config, version);
                Ok(Handshake { connect_id, request })
            },
        }
    }

    /// The reply that carries the outcome of the invoke request `invoke_id`, under a
    /// fresh request id.
    pub fn reply(&self, invoke_id: &str, result: Result<Json, String>) -> (res: Json)
        ensures
            exists|frame_id: Seq<char>|
                is_uuid_v4_text(frame_id) && res@ == invoke_reply_value(frame_id, invoke_id@, result_view(result)),
    {
        let frame_id = fresh_uuid();
        let res = invoke_reply(frame_id.as_str(), invoke_id, result);
        assert(is_uuid_v4_text(frame_id@));
        res
    }
}

/// The connect request that opens the handshake, and the id it was sent under.
pub struct Handshake {
    pub connect_id: String,
    pub request: Json,
}

/// What ends a node's session with an error.
pub enum NodeError {
    /// The gateway URL does not parse; the parser's error text.
    InvalidGatewayUrl(String),
    /// The reply to the connect request is not a response frame; the parser's
    /// error text.
    UnparsableHandshakeReply(String),
    /// The reply answers another request.
    UnexpectedResponseId { expected: String, got: String },
    /// The gateway refused the node; its reason.
    HandshakeRejected(String),
    /// A binary or control message came instead of the reply.
    NonTextDuringHandshake,
    /// The connection failed during the handshake; the error text.
    SocketErrorDuringHandshake(String),
    /// The gateway closed the connection during the handshake.
    ClosedDuringHandshake,
    /// No reply came in time.
    HandshakeTimeout,
    /// The connection failed once registered; the error text.
    ConnectionFailed(String),
    /// A ping could not be answered; the error text.
    PongFailed(String),
}

/// The model of an error.
pub enum ErrorValue {
    InvalidGatewayUrl(Seq<char>),
    UnparsableReply(Seq<char>),
    UnexpectedId { expected: Seq<char>, got: Seq<char> },
    Rejected(Seq<char>),
    NonText,
    SocketError(Seq<char>),
    Closed,
    TimedOut,
    ConnectionFailed(Seq<char>),
    PongFailed(Seq<char>),
}

impl View for NodeError {
    type V = ErrorValue;

    open spec fn view(&self) -> ErrorValue {
        match self {
            NodeError::InvalidGatewayUrl(m) => ErrorValue::InvalidGatewayUrl(m@),
            NodeError::UnparsableHandshakeReply(m) => ErrorValue::UnparsableReply(m@),
            NodeError::UnexpectedResponseId { expected, got } => ErrorValue::UnexpectedId {
                expected: expected@,
                got: got@,
            },
            NodeError::HandshakeRejected(m) => ErrorValue::Rejected(m@),
            NodeError::NonTextDuringHandshake => ErrorValue::NonText,
            NodeError::SocketErrorDuringHandshake(m) => ErrorValue::SocketError(m@),
            NodeError::ClosedDuringHandshake => ErrorValue::Closed,
            NodeError::HandshakeTimeout => ErrorValue::TimedOut,
            NodeError::ConnectionFailed(m) => ErrorValue::ConnectionFailed(m@),
            NodeError::PongFailed(m) => ErrorValue::PongFailed(m@),
        }
    }
}

/// The text of an error, as the node reports it.
pub open spec fn error_message(e: ErrorValue) -> Seq<char> {
    match e {
        ErrorValue::InvalidGatewayUrl(m) => m,
        ErrorValue::UnparsableReply(m) => m,
        ErrorValue::UnexpectedId { expected, got } => "unexpected response id: expected "@ + expected
            + ", got "@ + got,
        ErrorValue::Rejected(m) => "handshake failed: "@ + m,
        ErrorValue::NonText => "unexpected non-text message during handshake"@,
        ErrorValue::SocketError(m) => "websocket error during handshake: "@ + m,
        ErrorValue::Closed => "connection closed during handshake"@,
        ErrorValue::TimedOut => "handshake timeout"@,
        ErrorValue::ConnectionFailed(m) => "websocket error: "@ + m,
        ErrorValue::PongFailed(m) => "failed to send pong: "@ + m,
    }
}

impl NodeError {
    /// The text of the error.
    pub fn message(&self) -> (res: String)
        ensures
            res@ == error_message(self@),
    {
        match self {
            NodeError::InvalidGatewayUrl(m) => m.clone(),
            NodeError::UnparsableHandshakeReply(m) => m.clone(),
            NodeError::UnexpectedResponseId { expected, got } => String::from_str(
                "unexpected response id: expected ",
            ).concat(expected.as_str()).concat(", got ").concat(got.as_str()),
            NodeError::HandshakeRejected(m) => String::from_str("handshake failed: ").concat(
                m.as_str(),
            ),
            NodeError::NonTextDuringHandshake => String::from_str(
                "unexpected non-text message during handshake",
            ),
            NodeError::SocketErrorDuringHandshake(m) => String::from_str(
                "websocket error during handshake: ",
            ).concat(m.as_str()),
            NodeError::ClosedDuringHandshake => String::from_str("connection closed during handshake"),
            NodeError::HandshakeTimeout => String::from_str("handshake timeout"),
            NodeError::ConnectionFailed(m) => String::from_str("websocket error: ").concat(m.as_str()),
            NodeError::PongFailed(m) => String::from_str("failed to send pong: ").concat(m.as_str()),
        }
    }
}

/// The error part of a response frame.
pub struct ErrorShape {
    pub code: String,
    pub message: String,
}

/// A response frame from the gateway.
pub struct ResponseFrame {
    /// The id of the request it answers.
    pub id: String,
    /// Whether the request succeeded.
    pub ok: bool,
    pub payload: Option<Json>,
    pub error: Option<ErrorShape>,
}

/// What arrived in answer to the connect request.
pub enum HandshakeEvent {
    /// A text message holding this response frame.
    Reply(ResponseFrame),
    /// A text message that is not a response frame; the parser's error text.
    Unparsable(String),
    /// A message that is not text.
    NonText,
    /// The connection failed; the error text.
    SocketError(String),
    /// The connection closed.
    Closed,
    /// Nothing arrived in time.
    TimedOut,
}

/// How the reply `reply` ends the handshake of the request `connect_id`.
pub open spec fn reply_outcome(connect_id: Seq<char>, reply: ResponseFrame) -> Result<(), ErrorValue> {
    if reply.id@ != connect_id {
        Err(ErrorValue::UnexpectedId { expected: connect_id, got: reply.id@ })
    } else if reply.ok {
        Ok(())
    } else {
        match reply.error {
            Some(e) => Err(ErrorValue::Rejected(e.code@ + ": "@ + e.message@)),
            None => Err(ErrorValue::Rejected("unknown error"@)),
        }
    }
}

/// How an event ends the handshake of the request `connect_id`.
pub open spec fn handshake_outcome(connect_id: Seq<char>, event: HandshakeEvent) -> Result<(), ErrorValue> {
    match event {
        HandshakeEvent::Reply(r) => reply_outcome(connect_id, r),
        HandshakeEvent::Unparsable(m) => Err(ErrorValue::UnparsableReply(m@)),
        HandshakeEvent::NonText => Err(ErrorValue::NonText),
        HandshakeEvent::SocketError(m) => Err(ErrorValue::SocketError(m@)),
        HandshakeEvent::Closed => Err(ErrorValue::Closed),
        HandshakeEvent::TimedOut => Err(ErrorValue::TimedOut),
    }
}

/// Decides how the handshake of the request `connect_id` ends: accepted, with the
/// gateway's response frame, or with the error that stops the node.
pub fn finish_handshake(connect_id: &str, event: HandshakeEvent) -> (res: Result<ResponseFrame, NodeError>)
    ensures
        match res {
            Ok(hello) => handshake_outcome(connect_id@, event) is Ok && event == HandshakeEvent::Reply(
                hello,
            ),
            Err(e) => handshake_outcome(connect_id@, event) == Err::<(), ErrorValue>(e@),
        },
{
    match event {
        HandshakeEvent::Reply(reply) => {
            if reply.id != String::from_str(connect_id) {
                let got = reply.id.clone();
                return Err(NodeError::UnexpectedResponseId { expected: String::from_str(connect_id), got });
            }
            if !reply.ok {
                let reason = match &reply.error {
                    Some(e) => e.code.clone().concat(": ").concat(e.message.as_str()),
                    None => String::from_str("unknown error"),
                };
                return Err(NodeError::HandshakeRejected(reason));
            }
            Ok(reply)
        },
        HandshakeEvent::Unparsable(m) => Err(NodeError::UnparsableHandshakeReply(m)),
        HandshakeEvent::NonText => Err(NodeError::NonTextDuringHandshake),
        HandshakeEvent::SocketError(m) => Err(NodeError::SocketErrorDuringHandshake(m)),
        HandshakeEvent::Closed => Err(NodeError::ClosedDuringHandshake),
        HandshakeEvent::TimedOut => Err(NodeError::HandshakeTimeout),
    }
}

} // verus!
