use moltis_node::cli::{
    bearer_header, foreground_config, service_config, status_lines, list_failure_message, listing_lines, node_line, nodes_url,
    resolve_node_id,
};
use moltis_node::frames::{connect_request, invoke_reply, text_array, PROTOCOL_VERSION};
use moltis_node::invoke::{plan_frame, plan_invoke, run_result, which_result, RunOutcome, Step, WhichOutcome};
use moltis_node::json::{Json, JsonNumber};
use moltis_node::runner::{finish_handshake, ErrorShape, HandshakeEvent, NodeConfig, NodeError, NodeHost, ResponseFrame};
use moltis_node::session::{telemetry_frame, Action, Event, Incoming, Phase, Session, Telemetry, Work};
use moltis_node::text::{trim_text, u64_to_decimal};

fn s(t: &str) -> String {
    t.to_string()
}

fn text(t: &str) -> Json {
    Json::String(s(t))
}

fn obj(members: Vec<(&str, Json)>) -> Json {
    Json::Object(members.into_iter().map(|(k, v)| (s(k), v)).collect())
}

fn uint(n: u64) -> Json {
    Json::Number(JsonNumber::PosInt(n))
}

fn is_uuid(t: &str) -> bool {
    let b = t.as_bytes();
    b.len() == 36
        && b.iter().enumerate().all(|(i, c)| {
            if i == 8 || i == 13 || i == 18 || i == 23 {
                *c == b'-'
            } else {
                c.is_ascii_digit() || (b'a'..=b'f').contains(c)
            }
        })
        && b[14] == b'4'
}

fn invoke_frame(payload: Json) -> Json {
    obj(vec![
        ("type", text("event")),
        ("event", text("node.invoke.request")),
        ("payload", payload),
    ])
}

fn get<'a>(j: &'a Json, key: &str) -> &'a Json {
    j.get(key).expect("member present")
}

fn as_text(j: &Json) -> &str {
    match j {
        Json::String(t) => t.as_str(),
        _ => panic!("not a string"),
    }
}

fn config() -> NodeConfig {
    NodeConfig::default_for_platform("linux")
}

#[test]
fn default_config_has_system_run_cap() {
    let config = NodeConfig::default_for_platform("linux");
    assert!(config.caps.contains(&"system.run".to_string()));
    assert!(config.commands.contains(&"system.run".to_string()));
}

#[test]
fn default_config_values() {
    let config = NodeConfig::default_for_platform("macos");
    assert_eq!(config.gateway_url, "ws://localhost:9090/ws");
    assert_eq!(config.device_token, "");
    assert!(is_uuid(&config.node_id));
    assert_eq!(config.display_name, None);
    assert_eq!(config.platform, "macos");
    assert_eq!(config.caps, vec![s("system.run"), s("system.which")]);
    assert_eq!(config.commands, vec![s("system.run"), s("system.which")]);
    assert_eq!(config.exec_timeout_ms, 300_000);
    assert_eq!(config.working_dir, None);
}

#[test]
fn fresh_node_ids_differ() {
    let a = NodeConfig::default_for_platform("linux");
    let b = NodeConfig::default_for_platform("linux");
    assert_ne!(a.node_id, b.node_id);
}

#[test]
fn host_keeps_its_config() {
    let mut c = config();
    c.node_id = s("node-1");
    let host = NodeHost::new(c);
    assert_eq!(host.config().node_id, "node-1");
}

#[test]
fn decimal_text() {
    assert_eq!(u64_to_decimal(0), "0");
    assert_eq!(u64_to_decimal(7), "7");
    assert_eq!(u64_to_decimal(5000), "5000");
    assert_eq!(u64_to_decimal(u64::MAX), u64::MAX.to_string());
}

#[test]
fn trim_removes_unicode_white_space() {
    assert_eq!(trim_text("  /bin/sh\n"), "/bin/sh");
    assert_eq!(trim_text("\u{3000}\tx y\u{a0}"), "x y");
    assert_eq!(trim_text(" \n\t "), "");
    assert_eq!(trim_text(""), "");
    let once = trim_text(" a ");
    assert_eq!(trim_text(&once), once);
}

#[test]
fn system_run_request_is_planned() {
    let frame = invoke_frame(obj(vec![
        ("invokeId", text("inv-1")),
        ("command", text("system.run")),
        (
            "args",
            obj(vec![
                ("command", text("echo hello")),
                ("timeout", uint(5000)),
                ("cwd", text("/tmp")),
                ("env", obj(vec![("A", text("1")), ("B", uint(2)), ("C", text("3"))])),
            ]),
        ),
    ]));
    match plan_frame(&config(), &None, &frame) {
        Step::Run { invoke_id, request } => {
            assert_eq!(invoke_id, "inv-1");
            assert_eq!(request.command, "echo hello");
            assert_eq!(request.timeout_ms, 5000);
            assert_eq!(request.cwd, Some(s("/tmp")));
            assert_eq!(request.env, vec![(s("A"), s("1")), (s("C"), s("3"))]);
        },
        _ => panic!("expected a run step"),
    }
}

#[test]
fn system_run_defaults_come_from_config() {
    let mut c = config();
    c.exec_timeout_ms = 7000;
    c.working_dir = Some(s("/home/node"));
    let payload = obj(vec![
        ("invokeId", text("inv-2")),
        ("command", text("system.run")),
        ("args", obj(vec![("command", text("ls")), ("timeout", text("soon"))])),
    ]);
    match plan_invoke(&c, &Some(s("/root")), Some(&payload)) {
        Step::Run { request, .. } => {
            assert_eq!(request.timeout_ms, 7000);
            assert_eq!(request.cwd, Some(s("/home/node")));
            assert!(request.env.is_empty());
        },
        _ => panic!("expected a run step"),
    }
}

#[test]
fn system_run_defaults_to_home() {
    let payload = obj(vec![
        ("invokeId", text("inv")),
        ("command", text("system.run")),
        ("args", obj(vec![("command", text("pwd")), ("timeout", uint(5000))])),
    ]);
    match plan_invoke(&config(), &Some(s("/home/me")), Some(&payload)) {
        Step::Run { request, .. } => assert_eq!(request.cwd, Some(s("/home/me"))),
        _ => panic!("expected a run step"),
    }
    match plan_invoke(&config(), &None, Some(&payload)) {
        Step::Run { request, .. } => assert_eq!(request.cwd, None),
        _ => panic!("expected a run step"),
    }
}

#[test]
fn system_run_timeout_is_capped() {
    let mut c = config();
    c.exec_timeout_ms = 2000;
    let payload = obj(vec![
        ("invokeId", text("inv")),
        ("command", text("system.run")),
        ("args", obj(vec![("command", text("sleep 10")), ("timeout", uint(60_000))])),
    ]);
    match plan_invoke(&c, &None, Some(&payload)) {
        Step::Run { request, .. } => assert_eq!(request.timeout_ms, 2000),
        _ => panic!("expected a run step"),
    }
}

fn fail_message(step: Step) -> (String, String) {
    match step {
        Step::Fail { invoke_id, message } => (invoke_id, message),
        _ => panic!("expected a failure"),
    }
}

#[test]
fn invoke_errors() {
    let c = config();
    let missing_command = obj(vec![("invokeId", text("a"))]);
    assert_eq!(fail_message(plan_invoke(&c, &None, Some(&missing_command))), (s("a"), s("missing command")));
    let run_without_command = obj(vec![("invokeId", text("b")), ("command", text("system.run"))]);
    assert_eq!(
        fail_message(plan_invoke(&c, &None, Some(&run_without_command))),
        (s("b"), s("missing 'command' in args"))
    );
    let which_without_binary = obj(vec![
        ("invokeId", text("c")),
        ("command", text("system.which")),
        ("args", obj(vec![("binary", uint(1))])),
    ]);
    assert_eq!(
        fail_message(plan_invoke(&c, &None, Some(&which_without_binary))),
        (s("c"), s("missing 'binary' in args"))
    );
    let unknown = obj(vec![("invokeId", text("d")), ("command", text("system.reboot"))]);
    assert_eq!(
        fail_message(plan_invoke(&c, &None, Some(&unknown))),
        (s("d"), s("unsupported command: system.reboot"))
    );
}

#[test]
fn unaddressed_or_foreign_frames_are_ignored() {
    let c = config();
    assert!(matches!(plan_invoke(&c, &None, None), Step::Ignore));
    let no_id = obj(vec![("command", text("system.run"))]);
    assert!(matches!(plan_invoke(&c, &None, Some(&no_id)), Step::Ignore));
    let numeric_id = obj(vec![("invokeId", uint(3)), ("command", text("system.run"))]);
    assert!(matches!(plan_invoke(&c, &None, Some(&numeric_id)), Step::Ignore));
    let other_event = obj(vec![
        ("type", text("event")),
        ("event", text("tick")),
        ("payload", obj(vec![("invokeId", text("x")), ("command", text("system.run"))])),
    ]);
    assert!(matches!(plan_frame(&c, &None, &other_event), Step::Ignore));
    let request = obj(vec![("type", text("req")), ("id", text("1")), ("method", text("node.invoke.request"))]);
    assert!(matches!(plan_frame(&c, &None, &request), Step::Ignore));
    let null_payload = invoke_frame(Json::Null);
    assert!(matches!(plan_frame(&c, &None, &null_payload), Step::Ignore));
}

#[test]
fn which_request_is_planned() {
    let payload = obj(vec![
        ("invokeId", text("w")),
        ("command", text("system.which")),
        ("args", obj(vec![("binary", text("sh"))])),
    ]);
    match plan_frame(&config(), &None, &invoke_frame(payload)) {
        Step::Which { invoke_id, binary } => {
            assert_eq!(invoke_id, "w");
            assert_eq!(binary, "sh");
        },
        _ => panic!("expected a which step"),
    }
}

#[test]
fn run_results() {
    let ok = run_result(
        5000,
        RunOutcome::Finished { stdout: b"hello\n".to_vec(), stderr: b"err\n".to_vec(), exit_code: Some(0) },
    )
    .unwrap();
    assert_eq!(trim_text(as_text(get(&ok, "stdout"))), "hello");
    assert_eq!(trim_text(as_text(get(&ok, "stderr"))), "err");
    assert!(matches!(get(&ok, "exitCode"), Json::Number(JsonNumber::PosInt(0))));
    let code = run_result(5000, RunOutcome::Finished { stdout: vec![], stderr: vec![], exit_code: Some(42) }).unwrap();
    assert!(matches!(get(&code, "exitCode"), Json::Number(JsonNumber::PosInt(42))));
    let killed = run_result(5000, RunOutcome::Finished { stdout: vec![0xff], stderr: vec![], exit_code: None }).unwrap();
    assert!(matches!(get(&killed, "exitCode"), Json::Number(JsonNumber::NegInt(-1))));
    assert_eq!(as_text(get(&killed, "stdout")), "\u{fffd}");
    assert_eq!(run_result(250, RunOutcome::TimedOut).err(), Some(s("command timed out after 250ms")));
    assert_eq!(
        run_result(1, RunOutcome::WaitFailed(s("broken pipe"))).err(),
        Some(s("failed to execute command: broken pipe"))
    );
    assert_eq!(run_result(1, RunOutcome::SpawnFailed(s("no such dir"))).err(), Some(s("no such dir")));
}

#[test]
fn which_results() {
    let found = which_result(WhichOutcome::Finished { stdout: b"/usr/bin/sh\n".to_vec(), success: true }).unwrap();
    assert!(matches!(get(&found, "found"), Json::Bool(true)));
    assert_eq!(as_text(get(&found, "path")), "/usr/bin/sh");
    let missing = which_result(WhichOutcome::Finished { stdout: vec![], success: false }).unwrap();
    assert!(matches!(get(&missing, "found"), Json::Bool(false)));
    assert!(matches!(get(&missing, "path"), Json::Null));
    assert_eq!(which_result(WhichOutcome::Failed(s("no which"))).err(), Some(s("no which")));
}

#[test]
fn reply_frames() {
    let r = invoke_reply("f-1", "inv-9", Err(s("boom")));
    assert_eq!(as_text(get(&r, "type")), "req");
    assert_eq!(as_text(get(&r, "id")), "f-1");
    assert_eq!(as_text(get(&r, "method")), "node.invoke.result");
    let params = get(&r, "params");
    assert_eq!(as_text(get(params, "invokeId")), "inv-9");
    assert_eq!(as_text(get(get(params, "result"), "error")), "boom");
    let ok = invoke_reply("f-2", "inv-9", Ok(obj(vec![("found", Json::Bool(true))])));
    assert!(matches!(get(get(get(&ok, "params"), "result"), "found"), Json::Bool(true)));
    let host = NodeHost::new(config());
    let fresh = host.reply("inv-3", Err(s("x")));
    assert!(is_uuid(as_text(get(&fresh, "id"))));
    assert_eq!(as_text(get(get(&fresh, "params"), "invokeId")), "inv-3");
}

#[test]
fn connect_request_frame() {
    let mut c = config();
    c.node_id = s("n1");
    c.device_token = s("tok");
    c.display_name = Some(s("Build"));
    let r = connect_request("c-1", &c, "0.9.0");
    assert_eq!(as_text(get(&r, "method")), "connect");
    assert_eq!(as_text(get(&r, "id")), "c-1");
    let params = get(&r, "params");
    assert!(matches!(get(get(params, "protocol"), "min"), Json::Number(JsonNumber::PosInt(v)) if *v == PROTOCOL_VERSION));
    let client = get(params, "client");
    assert_eq!(as_text(get(client, "id")), "n1");
    assert_eq!(as_text(get(client, "displayName")), "Build");
    assert_eq!(as_text(get(client, "version")), "0.9.0");
    assert_eq!(as_text(get(client, "platform")), "linux");
    assert_eq!(as_text(get(client, "mode")), "headless");
    assert_eq!(as_text(get(params, "role")), "node");
    assert_eq!(as_text(get(get(params, "auth"), "deviceToken")), "tok");
    match get(get(get(params, "extensions"), "moltis"), "caps") {
        Json::Array(items) => assert_eq!(items.len(), 2),
        _ => panic!("caps not an array"),
    }
    c.display_name = None;
    let unnamed = connect_request("c-2", &c, "0.9.0");
    assert!(get(get(&unnamed, "params"), "client").get("displayName").is_none());
    assert!(matches!(text_array(&vec![s("a")]), Json::Array(v) if v.len() == 1));
}

#[test]
fn gateway_url_is_checked() {
    let mut c = config();
    c.gateway_url = s("not a url");
    let host = NodeHost::new(c);
    match host.begin("1.0") {
        Err(NodeError::InvalidGatewayUrl(m)) => assert_eq!(m, "relative URL without a base"),
        _ => panic!("expected an invalid URL"),
    }
    let ok = NodeHost::new(config()).begin("1.0").ok().expect("valid url");
    assert!(is_uuid(&ok.connect_id));
    assert_eq!(as_text(get(&ok.request, "id")), ok.connect_id);
}

fn response(id: &str, ok: bool, error: Option<(&str, &str)>) -> ResponseFrame {
    ResponseFrame {
        id: s(id),
        ok,
        payload: None,
        error: error.map(|(c, m)| ErrorShape { code: s(c), message: s(m) }),
    }
}

#[test]
fn handshake_outcomes() {
    assert!(finish_handshake("c", HandshakeEvent::Reply(response("c", true, None))).is_ok());
    let e = finish_handshake("c", HandshakeEvent::Reply(response("d", true, None))).err().unwrap();
    assert_eq!(e.message(), "unexpected response id: expected c, got d");
    let refused = response("c", false, Some(("UNAUTHORIZED", "bad token")));
    let e = finish_handshake("c", HandshakeEvent::Reply(refused)).err().unwrap();
    assert_eq!(e.message(), "handshake failed: UNAUTHORIZED: bad token");
    let e = finish_handshake("c", HandshakeEvent::Reply(response("c", false, None))).err().unwrap();
    assert_eq!(e.message(), "handshake failed: unknown error");
    let e = finish_handshake("c", HandshakeEvent::NonText).err().unwrap();
    assert_eq!(e.message(), "unexpected non-text message during handshake");
    let e = finish_handshake("c", HandshakeEvent::SocketError(s("reset"))).err().unwrap();
    assert_eq!(e.message(), "websocket error during handshake: reset");
    let e = finish_handshake("c", HandshakeEvent::Closed).err().unwrap();
    assert_eq!(e.message(), "connection closed during handshake");
    let e = finish_handshake("c", HandshakeEvent::TimedOut).err().unwrap();
    assert_eq!(e.message(), "handshake timeout");
    let e = finish_handshake("c", HandshakeEvent::Unparsable(s("missing field `ok` at line 1 column 10")))
        .err()
        .unwrap();
    assert_eq!(e.message(), "missing field `ok` at line 1 column 10");
}

#[test]
fn session_handshake_and_requests() {
    let (mut session, request) = Session::open(NodeHost::new(config()), Some(s("/home/me")), "1.0").ok().unwrap();
    let connect_id = as_text(get(&request, "id")).to_string();
    let invoke = invoke_frame(obj(vec![
        ("invokeId", text("early")),
        ("command", text("system.run")),
        ("args", obj(vec![("command", text("ls"))])),
    ]));
    assert!(matches!(session.step(Event::Message(Incoming::Frame(invoke))), Action::Wait));
    assert!(session.phase() == Phase::AwaitingReply);
    assert!(matches!(session.step(Event::Handshake(HandshakeEvent::Reply(response(&connect_id, true, None)))), Action::Wait));
    assert!(session.phase() == Phase::Registered);
    let run = invoke_frame(obj(vec![
        ("invokeId", text("inv-1")),
        ("command", text("system.run")),
        ("args", obj(vec![("command", text("echo hello")), ("timeout", uint(5000))])),
    ]));
    match session.step(Event::Message(Incoming::Frame(run))) {
        Action::Execute(Work::Run(r)) => {
            assert_eq!(r.command, "echo hello");
            assert_eq!(r.cwd, Some(s("/home/me")));
        },
        _ => panic!("expected work"),
    }
    assert!(matches!(session.step(Event::Message(Incoming::Close)), Action::Wait));
    assert!(matches!(session.step(Event::Tick(5)), Action::Wait));
    assert!(session.phase() == Phase::Registered);
    let done = RunOutcome::Finished { stdout: b"hello\n".to_vec(), stderr: vec![], exit_code: Some(0) };
    match session.step(Event::RunDone(done)) {
        Action::Reply { invoke_id, result } => {
            assert_eq!(invoke_id, "inv-1");
            let v = result.unwrap();
            assert_eq!(trim_text(as_text(get(&v, "stdout"))), "hello");
            let frame = session.reply_frame(&invoke_id, Ok(v));
            assert_eq!(as_text(get(get(&frame, "params"), "invokeId")), "inv-1");
        },
        _ => panic!("expected a reply"),
    }
    let unknown = invoke_frame(obj(vec![("invokeId", text("inv-2")), ("command", text("system.providers"))]));
    match session.step(Event::Message(Incoming::Frame(unknown))) {
        Action::Reply { invoke_id, result } => {
            assert_eq!(invoke_id, "inv-2");
            assert_eq!(result.err(), Some(s("unsupported command: system.providers")));
        },
        _ => panic!("expected a reply"),
    }
    assert!(matches!(session.step(Event::Message(Incoming::Ping(vec![7]))), Action::Pong(d) if d == vec![7]));
    assert!(matches!(session.step(Event::Tick(1_000)), Action::ReportTelemetry));
    assert!(matches!(session.step(Event::Tick(20_000)), Action::Wait));
    assert!(matches!(session.step(Event::Tick(31_000)), Action::ReportTelemetry));
    assert!(matches!(session.step(Event::Tick(61_001)), Action::ReportTelemetry));
    assert!(matches!(session.step(Event::Tick(90_999)), Action::Wait));
    assert!(matches!(session.step(Event::Tick(91_000)), Action::ReportTelemetry));
    match session.step(Event::Message(Incoming::Error(s("reset")))) {
        Action::Finish(Err(e)) => assert_eq!(e.message(), "websocket error: reset"),
        _ => panic!("expected an error"),
    }
    assert!(session.phase() == Phase::Ended);
}

#[test]
fn session_endings() {
    let (mut session, _) = Session::open(NodeHost::new(config()), None, "1.0").ok().unwrap();
    match session.step(Event::Handshake(HandshakeEvent::Reply(response("other", true, None)))) {
        Action::Finish(Err(e)) => assert!(e.message().starts_with("unexpected response id")),
        _ => panic!("expected an error"),
    }
    let (mut s2, req) = Session::open(NodeHost::new(config()), None, "1.0").ok().unwrap();
    let id = as_text(get(&req, "id")).to_string();
    s2.step(Event::Handshake(HandshakeEvent::Reply(response(&id, true, None))));
    match s2.step(Event::PongFailed(s("broken pipe"))) {
        Action::Finish(Err(e)) => assert_eq!(e.message(), "failed to send pong: broken pipe"),
        _ => panic!("expected an error"),
    }
    let (mut s3, req) = Session::open(NodeHost::new(config()), None, "1.0").ok().unwrap();
    let id = as_text(get(&req, "id")).to_string();
    s3.step(Event::Handshake(HandshakeEvent::Reply(response(&id, true, None))));
    assert!(matches!(s3.step(Event::Message(Incoming::Close)), Action::Finish(Ok(()))));
}

#[test]
fn telemetry_report() {
    let t = Telemetry {
        cpu_count: Some(8),
        cpu_usage_percent: Some(12),
        memory_total: Some(1024),
        memory_available: None,
        disk_total: None,
        disk_available: None,
        uptime_secs: Some(60),
        runtimes: vec![s("python")],
        providers: vec![],
        ollama_models: vec![s("llama3")],
    };
    let f = telemetry_frame("t-1", &t);
    assert_eq!(as_text(get(&f, "method")), "node.telemetry");
    let params = get(&f, "params");
    assert!(matches!(get(params, "cpuCount"), Json::Number(JsonNumber::PosInt(8))));
    assert!(matches!(get(params, "memoryAvailable"), Json::Null));
    assert!(matches!(get(params, "runtimes"), Json::Array(v) if v.len() == 1));
    assert!(matches!(get(params, "cpuUsage"), Json::Number(JsonNumber::PosInt(12))));
    assert!(matches!(get(params, "ollamaModels"), Json::Array(v) if v.len() == 1));
}

#[test]
fn node_add_configuration() {
    let c = foreground_config(s("ws://gw/ws"), s("t"), Some(s("n")), s("id-1"), None, 60, "linux");
    assert_eq!(c.caps, vec![s("system.run"), s("system.which"), s("system.providers")]);
    assert_eq!(c.commands, vec![s("system.run"), s("system.which")]);
    assert_eq!(c.exec_timeout_ms, 60_000);
    let huge = foreground_config(s("ws://gw/ws"), s("t"), None, s("id-2"), None, u64::MAX, "linux");
    assert_eq!(huge.exec_timeout_ms, u64::MAX);
    assert_eq!(c.node_id, "id-1");
    assert_eq!(resolve_node_id(Some(s("mine"))), "mine");
    assert!(is_uuid(&resolve_node_id(None)));
}

#[test]
fn node_listing() {
    assert_eq!(nodes_url("http://localhost:9090"), "http://localhost:9090/api/nodes");
    assert_eq!(nodes_url("http://localhost:9090//"), "http://localhost:9090/api/nodes");
    assert_eq!(bearer_header("k"), "Bearer k");
    assert_eq!(list_failure_message("404 Not Found", "nope"), "failed to list nodes: 404 Not Found — nope");
    let nodes = Json::Array(vec![
        obj(vec![
            ("nodeId", text("n1")),
            ("displayName", text("Pi")),
            ("platform", text("linux")),
            ("caps", Json::Array(vec![text("system.run"), uint(3), text("system.which")])),
        ]),
        obj(vec![("nodeId", uint(5))]),
    ]);
    assert_eq!(
        listing_lines(&nodes),
        Some(vec![
            s("n1  Pi  (linux)  caps=[system.run, system.which]"),
            s("?  (unnamed)  (?)  caps=[]"),
        ])
    );
    assert_eq!(listing_lines(&Json::Array(vec![])), Some(vec![s("No nodes connected.")]));
    assert_eq!(listing_lines(&obj(vec![])), None);
    assert_eq!(node_line(&obj(vec![("caps", text("x"))])), "?  (unnamed)  (?)  caps=[]");
}

#[test]
fn service_parameters_and_status() {
    let c = service_config(s("ws://gw/ws"), s("tok"), Some(s("Build Server")), s("id-7"), None, 120);
    assert_eq!(c.gateway_url, "ws://gw/ws");
    assert_eq!(c.node_id, Some(s("id-7")));
    assert_eq!(c.timeout, 120);
    assert_eq!(
        status_lines(&c, "active"),
        vec![s("Gateway: ws://gw/ws"), s("Name:    Build Server"), s("Service: active")]
    );
    let saved = moltis_node::cli::ServiceConfig::from_json(&c.to_json()).expect("reads back");
    assert_eq!(status_lines(&saved, "active"), status_lines(&c, "active"));
    assert_eq!(saved.device_token, "tok");
    assert!(moltis_node::cli::ServiceConfig::from_json(&obj(vec![("gateway_url", text("x"))])).is_none());
    let unnamed = service_config(s("ws://gw/ws"), s("tok"), None, s("id-8"), None, 120);
    assert_eq!(status_lines(&unnamed, "inactive"), vec![s("Gateway: ws://gw/ws"), s("Service: inactive")]);
}
