use vstd::prelude::*;

use crate::frames::object2;
use crate::json::{fields_view, int_value, lemma_fields_view_len_index, text_of, u64_of, Json, JsonNumber, JsonValue};
use crate::runner::NodeConfig;
use crate::support::{decode_lossy, utf8_lossy};
use crate::text::{decimal, trim, trim_text, u64_to_decimal};

verus! {

/// The model of a request to run a shell command.
pub struct RunValue {
    pub command: Seq<char>,
    pub timeout_ms: u64,
    pub cwd: Option<Seq<char>>,
    pub env: Seq<(Seq<char>, Seq<char>)>,
}

/// The model of what the node does about one frame from the gateway.
pub enum StepValue {
    Ignore,
    Fail { invoke_id: Seq<char>, message: Seq<char> },
    Run { invoke_id: Seq<char>, request: RunValue },
    Which { invoke_id: Seq<char>, binary: Seq<char> },
}

/// A shell command to run: `sh -c command`, in `cwd` if given, with the
/// variables `env` added to its environment, for at most `timeout_ms`
/// milliseconds.
pub struct RunRequest {
    pub command: String,
    pub timeout_ms: u64,
    pub cwd: Option<String>,
    pub env: Vec<(String, String)>,
}

/// What the node does about one frame from the gateway.
pub enum Step {
    /// Nothing: the frame is not an invoke request that can be answered.
    Ignore,
    /// Answer the invoke request with an error.
    Fail { invoke_id: String, message: String },
    /// Run a shell command and answer with its output.
    Run { invoke_id: String, request: RunRequest },
    /// Look a program up on the search path and answer with where it is.
    Which { invoke_id: String, binary: String },
}

pub open spec fn opt_text(o: Option<String>) -> Option<Seq<char>> {
    match o {
        Some(s) => Some(s@),
        None => None,
    }
}

pub open spec fn pairs_view(v: Seq<(String, String)>) -> Seq<(Seq<char>, Seq<char>)> {
    v.map_values(|p: (String, String)| (p.0@, p.1@))
}

impl View for RunRequest {
    type V = RunValue;

    open spec fn view(&self) -> RunValue {
        RunValue {
            command: self.command@,
            timeout_ms: self.timeout_ms,
            cwd: opt_text(self.cwd),
            env: pairs_view(self.env@),
        }
    }
}

impl View for Step {
    type V = StepValue;

    open spec fn view(&self) -> StepValue {
        match self {
            Step::Ignore => StepValue::Ignore,
            Step::Fail { invoke_id, message } => StepValue::Fail {
                invoke_id: invoke_id@,
                message: message@,
            },
            Step::Run { invoke_id, request } => StepValue::Run {
                invoke_id: invoke_id@,
                request: request@,
            },
            Step::Which { invoke_id, binary } => StepValue::Which {
                invoke_id: invoke_id@,
                binary: binary@,
            },
        }
    }
}

/// The model of an optional document.
pub open spec fn opt_view(o: Option<&Json>) -> Option<JsonValue> {
    match o {
        Some(j) => Some(j@),
        None => None,
    }
}

/// The member `key` of the (optional) arguments.
pub open spec fn arg(args: Option<JsonValue>, key: Seq<char>) -> Option<JsonValue> {
    match args {
        Some(a) => a.get(key),
        None => None,
    }
}

/// The members whose values are strings, with those values' texts.
pub open spec fn string_members(fields: Seq<(Seq<char>, JsonValue)>) -> Seq<(Seq<char>, Seq<char>)>
    decreases fields.len(),
{
    if fields.len() == 0 {
        Seq::empty()
    } else {
        let init = string_members(fields.drop_last());
        match fields.last().1 {
            JsonValue::Text(t) => init.push((fields.last().0, t)),
            _ => init,
        }
    }
}

/// The time a command gets: the one asked for, but never more than the
/// configured maximum; the maximum where none is asked for.
pub open spec fn capped_timeout(requested: Option<u64>, max_ms: u64) -> u64 {
    match requested {
        Some(t) => if t < max_ms {
            t
        } else {
            max_ms
        },
        None => max_ms,
    }
}

/// The environment variables that the arguments ask for: the string members of
/// the `env` object.
pub open spec fn env_of(args: Option<JsonValue>) -> Seq<(Seq<char>, Seq<char>)> {
    match arg(args, "env"@) {
        Some(JsonValue::Object(fields)) => string_members(fields),
        _ => Seq::empty(),
    }
}

/// The shell command request that `system.run` arguments describe, or the error
/// for arguments without a `command` string. The command runs in the `cwd`
/// argument, else the configured working directory, else `home`.
pub open spec fn run_request_value(
    config: NodeConfig,
    home: Option<Seq<char>>,
    args: Option<JsonValue>,
) -> Result<RunValue, Seq<char>> {
    match text_of(arg(args, "command"@)) {
        None => Err("missing 'command' in args"@),
        Some(command) => Ok(
            RunValue {
                command,
                timeout_ms: capped_timeout(u64_of(arg(args, "timeout"@)), config.exec_timeout_ms),
                cwd: match text_of(arg(args, "cwd"@)) {
                    Some(c) => Some(c),
                    None => match config.working_dir {
                        Some(d) => Some(d@),
                        None => home,
                    },
                },
                env: env_of(args),
            },
        ),
    }
}

/// What the node does about the payload of an invoke request.
pub open spec fn invoke_step(
    config: NodeConfig,
    home: Option<Seq<char>>,
    payload: Option<JsonValue>,
) -> StepValue {
    match payload {
        None => StepValue::Ignore,
        Some(p) => match text_of(p.get("invokeId"@)) {
            None => StepValue::Ignore,
            Some(invoke_id) => match text_of(p.get("command"@)) {
                None => StepValue::Fail { invoke_id, message: "missing command"@ },
                Some(command) => {
                    let args = p.get("args"@);
                    if command == "system.run"@ {
                        match run_request_value(config, home, args) {
                            Ok(request) => StepValue::Run { invoke_id, request },
                            Err(message) => StepValue::Fail { invoke_id, message },
                        }
                    } else if command == "system.which"@ {
                        match text_of(arg(args, "binary"@)) {
                            Some(binary) => StepValue::Which { invoke_id, binary },
                            None => StepValue::Fail { invoke_id, message: "missing 'binary' in args"@ },
                        }
                    } else {
                        StepValue::Fail { invoke_id, message: "unsupported command: "@ + command }
                    }
                },
            },
        },
    }
}

/// A present, non-null payload.
pub open spec fn payload_of(v: Option<JsonValue>) -> Option<JsonValue> {
    match v {
        Some(JsonValue::Null) => None,
        other => other,
    }
}

/// Whether a frame is the event that asks the node to run a command.
pub open spec fn is_invoke_request(frame: JsonValue) -> bool {
    &&& text_of(frame.get("type"@)) == Some("event"@)
    &&& text_of(frame.get("event"@)) == Some("node.invoke.request"@)
}

/// What the node does about a frame from the gateway: only invoke requests call
/// for anything.
pub open spec fn frame_step(config: NodeConfig, home: Option<Seq<char>>, frame: JsonValue) -> StepValue {
    if is_invoke_request(frame) {
        invoke_step(config, home, payload_of(frame.get("payload"@)))
    } else {
        StepValue::Ignore
    }
}

fn arg_of<'a>(args: Option<&'a Json>, key: &str) -> (res: Option<&'a Json>)
    ensures
        opt_view(res) == arg(opt_view(args), key@),
{
    match args {
        Some(a) => a.get(key),
        None => None,
    }
}

fn text_at(v: Option<&Json>) -> (res: Option<String>)
    ensures
        opt_text(res) == text_of(opt_view(v)),
{
    match v {
        Some(Json::String(s)) => Some(s.clone()),
        _ => None,
    }
}

fn u64_at(v: Option<&Json>) -> (res: Option<u64>)
    ensures
        res == u64_of(opt_view(v)),
{
    match v {
        Some(Json::Number(JsonNumber::PosInt(n))) => Some(*n),
        _ => None,
    }
}

fn clone_opt(o: &Option<String>) -> (res: Option<String>)
    ensures
        opt_text(res) == opt_text(*o),
{
    match o {
        Some(s) => Some(s.clone()),
        None => None,
    }
}

/// The string members of the `env` argument, as environment variables.
fn env_at(args: Option<&Json>) -> (res: Vec<(String, String)>)
    ensures
        pairs_view(res@) == env_of(opt_view(args)),
{
    let mut out: Vec<(String, String)> = Vec::new();
    match arg_of(args, "env") {
        Some(Json::Object(fields)) => {
            let ghost fv = fields_view(fields@);
            proof {
                lemma_fields_view_len_index(fields@);
            }
            let mut i: usize = 0;
            while i < fields.len()
                invariant
                    0 <= i <= fields.len(),
                    fv == fields_view(fields@),
                    fv.len() == fields@.len(),
                    forall|m: int|
                        0 <= m < fields.len() ==> #[trigger] fv[m] == (
                            fields@[m].0@,
                            fields@[m].1@,
                        ),
                    pairs_view(out@) == string_members(fv.take(i as int)),
                decreases fields.len() - i,
            {
                assert(fv.take(i + 1).drop_last() =~= fv.take(i as int));
                assert(fv.take(i + 1).last() == fv[i as int]);
                match &fields[i].1 {
                    Json::String(t) => {
                        out.push((fields[i].0.clone(), t.clone()));
                        assert(pairs_view(out@) =~= string_members(fv.take(i as int)).push(
                            (fv[i as int].0, t@),
                        ));
                    },
                    _ => {},
                }
                i = i + 1;
            }
            assert(fv.take(i as int) =~= fv);
        },
        _ => {},
    }
    out
}

/// Decides what to do about a frame from the gateway.
pub fn plan_frame(config: &NodeConfig, home: &Option<String>, frame: &Json) -> (res: Step)
    ensures
        res@ == frame_step(*config, opt_text(*home), frame@),
{
    let is_event = match frame.get_text("type") {
        Some(t) => t == String::from_str("event"),
        None => false,
    };
    let is_invoke = match frame.get_text("event") {
        Some(e) => e == String::from_str("node.invoke.request"),
        None => false,
    };
    if !(is_event && is_invoke) {
        return Step::Ignore;
    }
    let payload = match frame.get("payload") {
        Some(Json::Null) => None,
        other => other,
    };
    plan_invoke(config, home, payload)
}

/// Decides what to do about the payload of an invoke request.
pub fn plan_invoke(config: &NodeConfig, home: &Option<String>, payload: Option<&Json>) -> (res: Step)
    ensures
        res@ == invoke_step(*config, opt_text(*home), opt_view(payload)),
{
    let p = match payload {
        Some(p) => p,
        None => return Step::Ignore,
    };
    let invoke_id = match p.get_text("invokeId") {
        Some(id) => id,
        None => return Step::Ignore,
    };
    let command = match p.get_text("command") {
        Some(c) => c,
        None => return Step::Fail { invoke_id, message: String::from_str("missing command") },
    };
    let args = p.get("args");
    if command == String::from_str("system.run") {
        match text_at(arg_of(args, "command")) {
            None => Step::Fail { invoke_id, message: String::from_str("missing 'command' in args") },
            Some(cmd) => {
                let max_ms = config.exec_timeout_ms;
                let timeout_ms = match u64_at(arg_of(args, "timeout")) {
                    Some(t) => if t < max_ms {
                        t
                    } else {
                        max_ms
                    },
                    None => max_ms,
                };
                let cwd = match text_at(arg_of(args, "cwd")) {
                    Some(c) => Some(c),
                    None => match &config.working_dir {
                        Some(d) => Some(d.clone()),
                        None => clone_opt(home),
                    },
                };
                let env = env_at(args);
                Step::Run { invoke_id, request: RunRequest { command: cmd, timeout_ms, cwd, env } }
            },
        }
    } else if command == String::from_str("system.which") {
        match text_at(arg_of(args, "binary")) {
            Some(binary) => Step::Which { invoke_id, binary },
            None => Step::Fail { invoke_id, message: String::from_str("missing 'binary' in args") },
        }
    } else {
        let message = String::from_str("unsupported command: ").concat(command.as_str());
        Step::Fail { invoke_id, message }
    }
}

/// How running a shell command went.
pub enum RunOutcome {
    /// The command ran to completion.
    Finished { stdout: Vec<u8>, stderr: Vec<u8>, exit_code: Option<i32> },
    /// The command could not be started; the text of the error.
    SpawnFailed(String),
    /// Waiting for the command failed; the text of the error.
    WaitFailed(String),
    /// The command did not finish within its time limit.
    TimedOut,
}

/// How looking a program up went.
pub enum WhichOutcome {
    /// `which` ran; its standard output and whether it succeeded.
    Finished { stdout: Vec<u8>, success: bool },
    /// `which` could not be run; the text of the error.
    Failed(String),
}

/// The result of a shell command as the node reports it.
pub open spec fn run_result_value(timeout_ms: u64, outcome: RunOutcome) -> Result<JsonValue, Seq<char>> {
    match outcome {
        RunOutcome::Finished { stdout, stderr, exit_code } => Ok(
            JsonValue::Object(
                seq![
                    ("stdout"@, JsonValue::Text(utf8_lossy(stdout@))),
                    ("stderr"@, JsonValue::Text(utf8_lossy(stderr@))),
                    (
                        "exitCode"@,
                        JsonValue::Number(
                            int_value(
                                match exit_code {
                                    Some(c) => c as i64,
                                    None => -1i64,
                                },
                            ),
                        ),
                    ),
                ],
            ),
        ),
        RunOutcome::SpawnFailed(m) => Err(m@),
        RunOutcome::WaitFailed(m) => Err("failed to execute command: "@ + m@),
        RunOutcome::TimedOut => Err("command timed out after "@ + decimal(timeout_ms as nat) + "ms"@),
    }
}

/// The result of a program lookup as the node reports it.
pub open spec fn which_result_value(outcome: WhichOutcome) -> Result<JsonValue, Seq<char>> {
    match outcome {
        WhichOutcome::Finished { stdout, success } => Ok(
            JsonValue::Object(
                seq![
                    ("found"@, JsonValue::Bool(success)),
                    (
                        "path"@,
                        if success {
                            JsonValue::Text(trim(utf8_lossy(stdout@)))
                        } else {
                            JsonValue::Null
                        },
                    ),
                ],
            ),
        ),
        WhichOutcome::Failed(m) => Err(m@),
    }
}

pub open spec fn result_view(r: Result<Json, String>) -> Result<JsonValue, Seq<char>> {
    match r {
        Ok(v) => Ok(v@),
        Err(m) => Err(m@),
    }
}

/// Reports the outcome of a shell command that was given `timeout_ms`.
pub fn run_result(timeout_ms: u64, outcome: RunOutcome) -> (res: Result<Json, String>)
    ensures
        result_view(res) == run_result_value(timeout_ms, outcome),
{
    match outcome {
        RunOutcome::Finished { stdout, stderr, exit_code } => {
            let code: i64 = match exit_code {
                Some(c) => c as i64,
                None => -1,
            };
            let out = Json::String(decode_lossy(stdout.as_slice()));
            let err = Json::String(decode_lossy(stderr.as_slice()));
            let ghost (wo, we) = (out@, err@);
            let code_doc = Json::integer(code);
            let mut f: Vec<(String, Json)> = Vec::new();
            crate::json::push_member(&mut f, "stdout", out);
            crate::json::push_member(&mut f, "stderr", err);
            crate::json::push_member(&mut f, "exitCode", code_doc);
            assert(fields_view(f@) =~= seq![
                ("stdout"@, wo),
                ("stderr"@, we),
                ("exitCode"@, JsonValue::Number(int_value(code))),
            ]);
            assert(fields_view(f@) =~= run_result_value(timeout_ms, outcome)->Ok_0->Object_0);
            let doc = Json::Object(f);
            Ok(doc)
        },
        RunOutcome::SpawnFailed(m) => Err(m),
        RunOutcome::WaitFailed(m) => Err(String::from_str("failed to execute command: ").concat(m.as_str())),
        RunOutcome::TimedOut => {
            let n = u64_to_decimal(timeout_ms);
            let s = String::from_str("command timed out after ").concat(n.as_str()).concat("ms");
            Err(s)
        },
    }
}

/// Reports the outcome of a program lookup.
pub fn which_result(outcome: WhichOutcome) -> (res: Result<Json, String>)
    ensures
        result_view(res) == which_result_value(outcome),
{
    match outcome {
        WhichOutcome::Finished { stdout, success } => {
            let text = decode_lossy(stdout.as_slice());
            let path = trim_text(text.as_str());
            let path_doc = if success {
                Json::String(path)
            } else {
                Json::Null
            };
            Ok(object2("found", Json::Bool(success), "path", path_doc))
        },
        WhichOutcome::Failed(m) => Err(m),
    }
}

} // verus!
