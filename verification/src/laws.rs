use vstd::prelude::*;

use crate::cli::{listing_value, node_line_value, nodes_url_value, parse_service, service_json_value, status_value, ServiceConfigValue};
use crate::frames::{connect_request_value, invoke_reply_value, result_value};
use crate::invoke::{
    arg, frame_step, invoke_step, is_invoke_request, run_request_value,
    string_members, StepValue,
};
use crate::json::{elements_of, lookup, text_of, u64_of, JsonValue, NumberValue};
use crate::runner::{reply_outcome, ErrorValue, NodeConfig, ResponseFrame};
use crate::invoke::{run_result_value, which_result_value, RunOutcome, WhichOutcome};
use crate::text::{all_digits, decimal, digits_value, lemma_decimal_reads_back};
use crate::session::{telemetry_value, Telemetry};
use crate::support::utf8_lossy;
use crate::session::{
    WorkValue,
    message_step, next_report_after, pending_id, session_run, session_step, ActionValue, Event, Incoming,
    Phase, SessionView,
};
use crate::text::{is_white_space, strip_trailing, trim, trim_end, trim_start};

verus! {

/// The invoke request that a step answers, if it answers one.
pub open spec fn answered_request(step: StepValue) -> Option<Seq<char>> {
    match step {
        StepValue::Ignore => None,
        StepValue::Fail { invoke_id, .. } => Some(invoke_id),
        StepValue::Run { invoke_id, .. } => Some(invoke_id),
        StepValue::Which { invoke_id, .. } => Some(invoke_id),
    }
}

/// An invoke request that names itself is always answered, and the answer goes to
/// that request: whatever the command and its arguments, the node either runs
/// something for it or replies with an error.
pub proof fn law_named_invoke_is_answered(
    config: NodeConfig,
    home: Option<Seq<char>>,
    payload: JsonValue,
    invoke_id: Seq<char>,
)
    requires
        text_of(payload.get("invokeId"@)) == Some(invoke_id),
    ensures
        answered_request(invoke_step(config, home, Some(payload))) == Some(invoke_id),
{
}

/// Frames other than invoke-request events never make the node do anything.
pub proof fn law_only_invoke_requests_act(config: NodeConfig, home: Option<Seq<char>>, frame: JsonValue)
    requires
        !is_invoke_request(frame),
    ensures
        frame_step(config, home, frame) == StepValue::Ignore,
{
}

/// A command the node does not know is refused by name.
pub proof fn law_unknown_command_is_refused(
    config: NodeConfig,
    home: Option<Seq<char>>,
    payload: JsonValue,
    invoke_id: Seq<char>,
    command: Seq<char>,
)
    requires
        text_of(payload.get("invokeId"@)) == Some(invoke_id),
        text_of(payload.get("command"@)) == Some(command),
        command != "system.run"@,
        command != "system.which"@,
    ensures
        invoke_step(config, home, Some(payload)) == (StepValue::Fail {
            invoke_id,
            message: "unsupported command: "@ + command,
        }),
{
}

/// The first member named `key` is the one found.
pub proof fn lemma_lookup_at(fields: Seq<(Seq<char>, JsonValue)>, i: int, key: Seq<char>)
    requires
        0 <= i < fields.len(),
        fields[i].0 == key,
        forall|j: int| 0 <= j < i ==> #[trigger] fields[j].0 != key,
    ensures
        lookup(fields, key) == Some(fields[i].1),
    decreases i,
{
    if i > 0 {
        assert(fields[0].0 != key);
        assert forall|j: int| 0 <= j < i - 1 implies #[trigger] fields.drop_first()[j].0 != key by {
            assert(fields.drop_first()[j] == fields[j + 1]);
        }
        lemma_lookup_at(fields.drop_first(), i - 1, key);
    }
}

/// A reply goes to the invoke request it names, under its own request id, with the
/// `node.invoke.result` method, and carries the result or the error unchanged.
pub proof fn law_reply_names_its_request(
    frame_id: Seq<char>,
    invoke_id: Seq<char>,
    result: Result<JsonValue, Seq<char>>,
)
    ensures
        text_of(invoke_reply_value(frame_id, invoke_id, result).get("id"@)) == Some(frame_id),
        text_of(invoke_reply_value(frame_id, invoke_id, result).get("method"@)) == Some(
            "node.invoke.result"@,
        ),
        invoke_reply_value(frame_id, invoke_id, result).get("params"@) matches Some(p) && text_of(
            p.get("invokeId"@),
        ) == Some(invoke_id) && p.get("result"@) == Some(result_value(result)),
{
    reveal_strlit("type");
    reveal_strlit("id");
    reveal_strlit("method");
    reveal_strlit("params");
    reveal_strlit("invokeId");
    reveal_strlit("result");
    let r = invoke_reply_value(frame_id, invoke_id, result);
    let fs = r->Object_0;
    assert("type"@[0] != "id"@[0]);
    assert("type"@[0] != "method"@[0]);
    assert("id"@[0] != "method"@[0]);
    assert("type"@[0] != "params"@[0]);
    assert("id"@[0] != "params"@[0]);
    assert("method"@[0] != "params"@[0]);
    assert("invokeId"@[0] != "result"@[0]);
    lemma_lookup_at(fs, 1, "id"@);
    lemma_lookup_at(fs, 2, "method"@);
    lemma_lookup_at(fs, 3, "params"@);
    let ps = fs[3].1->Object_0;
    lemma_lookup_at(ps, 0, "invokeId"@);
    lemma_lookup_at(ps, 1, "result"@);
}

/// A command never gets more time than the configured maximum: it gets the
/// time asked for where that is less, else the maximum.
pub proof fn law_timeout_is_capped(config: NodeConfig, home: Option<Seq<char>>, args: Option<JsonValue>)
    requires
        text_of(arg(args, "command"@)) is Some,
    ensures
        run_request_value(config, home, args) matches Ok(r) && r.timeout_ms <= config.exec_timeout_ms
            && r.timeout_ms == match u64_of(arg(args, "timeout"@)) {
            Some(t) => if t < config.exec_timeout_ms {
                t
            } else {
                config.exec_timeout_ms
            },
            None => config.exec_timeout_ms,
        },
{
}

/// Without a `cwd` argument or a configured working directory, a command runs in
/// the home directory.
pub proof fn law_commands_default_to_home(config: NodeConfig, home: Option<Seq<char>>, args: Option<JsonValue>)
    requires
        text_of(arg(args, "command"@)) is Some,
        text_of(arg(args, "cwd"@)) is None,
        config.working_dir is None,
    ensures
        run_request_value(config, home, args) matches Ok(r) && r.cwd == home,
{
}

/// Only string members reach a command's environment, each under its own name and
/// in the order of the object; every string member does.
pub proof fn law_env_keeps_string_members(fields: Seq<(Seq<char>, JsonValue)>)
    ensures
        forall|i: int|
            0 <= i < string_members(fields).len() ==> exists|j: int|
                0 <= j < fields.len() && fields[j] == (
                    #[trigger] string_members(fields)[i].0,
                    JsonValue::Text(string_members(fields)[i].1),
                ),
        forall|j: int|
            0 <= j < fields.len() && #[trigger] fields[j].1 is Text ==> string_members(fields).contains(
                (fields[j].0, fields[j].1->Text_0),
            ),
    decreases fields.len(),
{
    if fields.len() > 0 {
        let init = fields.drop_last();
        law_env_keeps_string_members(init);
        let sm = string_members(fields);
        let si = string_members(init);
        assert forall|i: int| 0 <= i < sm.len() implies exists|j: int|
            0 <= j < fields.len() && fields[j] == (
                #[trigger] sm[i].0,
                JsonValue::Text(sm[i].1),
            ) by {
            if i < si.len() {
                assert(sm[i] == si[i]);
                let j = choose|j: int| 0 <= j < init.len() && init[j] == (si[i].0, JsonValue::Text(si[i].1));
                assert(fields[j] == init[j]);
            } else {
                assert(fields[fields.len() - 1] == fields.last());
            }
        }
        assert forall|j: int| 0 <= j < fields.len() && #[trigger] fields[j].1 is Text implies sm.contains(
            (fields[j].0, fields[j].1->Text_0),
        ) by {
            if j < init.len() {
                assert(init[j] == fields[j]);
                let k = choose|k: int| 0 <= k < si.len() && si[k] == (init[j].0, init[j].1->Text_0);
                assert(sm[k] == si[k]);
            } else {
                assert(sm.last() == (fields[j].0, fields[j].1->Text_0));
            }
        }
    }
}

/// The handshake succeeds exactly on a reply to the connect request that says
/// `ok: true`.
pub proof fn law_handshake_accepts_exactly(connect_id: Seq<char>, reply: ResponseFrame)
    ensures
        reply_outcome(connect_id, reply) is Ok <==> (reply.id@ == connect_id && reply.ok),
{
}

proof fn lemma_trim_start_shape(s: Seq<char>)
    ensures
        exists|k: int| 0 <= k <= s.len() && trim_start(s) == s.subrange(k, s.len() as int),
        trim_start(s).len() == 0 || !is_white_space(trim_start(s)[0]),
    decreases s.len(),
{
    if s.len() > 0 && is_white_space(s[0]) {
        lemma_trim_start_shape(s.drop_first());
        let k = choose|k: int|
            0 <= k <= s.drop_first().len() && trim_start(s.drop_first()) == s.drop_first().subrange(
                k,
                s.drop_first().len() as int,
            );
        assert(s.drop_first().subrange(k, s.drop_first().len() as int) =~= s.subrange(k + 1, s.len() as int));
    } else {
        assert(s.subrange(0, s.len() as int) =~= s);
    }
}

proof fn lemma_trim_end_shape(s: Seq<char>)
    ensures
        exists|m: int| 0 <= m <= s.len() && trim_end(s) == s.subrange(0, m),
        trim_end(s).len() == 0 || !is_white_space(trim_end(s).last()),
    decreases s.len(),
{
    if s.len() > 0 && is_white_space(s.last()) {
        lemma_trim_end_shape(s.drop_last());
        let m = choose|m: int| 0 <= m <= s.drop_last().len() && trim_end(s.drop_last()) == s.drop_last().subrange(0, m);
        assert(s.drop_last().subrange(0, m) =~= s.subrange(0, m));
    } else {
        assert(s.subrange(0, s.len() as int) =~= s);
    }
}

/// Trimming removes all white space from both ends, and trimming again changes
/// nothing.
pub proof fn law_trim_idempotent(s: Seq<char>)
    ensures
        trim(trim(s)) == trim(s),
        trim(s).len() == 0 || (!is_white_space(trim(s)[0]) && !is_white_space(trim(s).last())),
{
    let ts = trim_start(s);
    lemma_trim_start_shape(s);
    lemma_trim_end_shape(ts);
    let r = trim(s);
    if r.len() > 0 {
        let m = choose|m: int| 0 <= m <= ts.len() && trim_end(ts) == ts.subrange(0, m);
        assert(r[0] == ts[0]);
        assert(trim_start(r) == r);
        assert(trim_end(r) == r);
    } else {
        assert(trim_start(r) == r);
        assert(trim_end(r) == r);
    }
}

/// Trailing slashes on the gateway address do not change where the node list is
/// fetched from.
pub proof fn law_trailing_slash_ignored(host: Seq<char>)
    ensures
        nodes_url_value(host.push('/')) == nodes_url_value(host),
{
    assert(host.push('/').drop_last() =~= host);
    assert(strip_trailing(host.push('/'), '/') == strip_trailing(host, '/'));
}

/// Before the gateway accepts the node, nothing but the handshake moves the
/// session: every other event is met with waiting and changes nothing, so no
/// request is acted on before the handshake the session opened is accepted.
pub proof fn law_nothing_before_handshake(s: SessionView, events: Seq<Event>)
    requires
        s.phase == Phase::AwaitingReply,
        forall|i: int| 0 <= i < events.len() ==> !(#[trigger] events[i] is Handshake),
    ensures
        session_run(s, events) == (s, Seq::new(events.len(), |i: int| ActionValue::Wait)),
    decreases events.len(),
{
    if events.len() > 0 {
        assert(!(events[0] is Handshake));
        assert forall|i: int| 0 <= i < events.drop_first().len() implies !(
        #[trigger] events.drop_first()[i] is Handshake) by {
            assert(events.drop_first()[i] == events[i + 1]);
        }
        law_nothing_before_handshake(s, events.drop_first());
        assert(seq![ActionValue::Wait] + Seq::new(events.drop_first().len(), |i: int| ActionValue::Wait) =~= Seq::new(
            events.len(),
            |i: int| ActionValue::Wait,
        ));
    }
}

/// An invoke request that names itself, read by a registered session with no
/// work under way, is answered at once with an error, or starts work that
/// answers it.
pub proof fn law_invoke_is_answered_or_started(s: SessionView, frame: JsonValue, f: crate::json::Json, invoke_id: Seq<char>)
    requires
        s.phase == Phase::Registered,
        s.pending is None,
        f@ == frame,
        is_invoke_request(frame),
        frame.get("payload"@) is Some,
        text_of(frame.get("payload"@)->Some_0.get("invokeId"@)) == Some(invoke_id),
    ensures
        ({
            let (s1, a1) = session_step(s, Event::Message(Incoming::Frame(f)));
            ||| (s1 == s && (a1 matches ActionValue::Reply { invoke_id: id, .. } && id == invoke_id))
            ||| (a1 is Execute && s1.phase == Phase::Registered && (s1.pending matches Some(p)
                && pending_id(p) == invoke_id))
        }),
{
    let p = frame.get("payload"@)->Some_0;
    law_named_invoke_is_answered(s.config, s.home, p, invoke_id);
}

/// Work under way answers its request when it completes, and the session goes
/// back to reading messages.
pub proof fn law_completion_answers_pending(s: SessionView, e: Event)
    requires
        s.phase == Phase::Registered,
        s.pending is Some,
        s.pending->Some_0 is Run ==> e is RunDone,
        s.pending->Some_0 is Which ==> e is WhichDone,
    ensures
        ({
            let (s1, a1) = session_step(s, e);
            &&& (a1 matches ActionValue::Reply { invoke_id, .. } && invoke_id == pending_id(s.pending->Some_0))
            &&& s1.pending is None
            &&& s1.phase == Phase::Registered
        }),
{
}

/// A message that neither ends the session nor starts work.
pub open spec fn is_plain_message(s: SessionView, e: Event) -> bool {
    match e {
        Event::Message(m) => {
            &&& !(m is Close || m is Ended || m is Error)
            &&& match m {
                Incoming::Frame(f) => !(frame_step(s.config, s.home, f@) is Run || frame_step(
                    s.config,
                    s.home,
                    f@,
                ) is Which),
                _ => true,
            }
        },
        _ => false,
    }
}

/// Once registered, a run of messages that neither end the session nor start work
/// leaves the session as it was, and its actions are, in order, each message's
/// own action.
pub proof fn law_messages_compose(s: SessionView, events: Seq<Event>)
    requires
        s.phase == Phase::Registered,
        s.pending is None,
        forall|i: int| 0 <= i < events.len() ==> is_plain_message(s, #[trigger] events[i]),
    ensures
        session_run(s, events) == (
            s,
            Seq::new(events.len(), |i: int| message_step(s, events[i]->Message_0).1),
        ),
    decreases events.len(),
{
    if events.len() > 0 {
        assert(is_plain_message(s, events[0]));
        assert(session_step(s, events[0]).0 == s);
        assert forall|i: int| 0 <= i < events.drop_first().len() implies is_plain_message(
            s,
            #[trigger] events.drop_first()[i],
        ) by {
            assert(events.drop_first()[i] == events[i + 1]);
        }
        law_messages_compose(s, events.drop_first());
        assert(seq![message_step(s, events[0]->Message_0).1] + Seq::new(
            events.drop_first().len(),
            |i: int| message_step(s, events.drop_first()[i]->Message_0).1,
        ) =~= Seq::new(events.len(), |i: int| message_step(s, events[i]->Message_0).1));
    }
}

/// A registered session ends with an error when the connection fails or a ping
/// cannot be answered, and cleanly when the gateway closes or the stream ends.
pub proof fn law_how_sessions_end(s: SessionView, e: Incoming)
    requires
        s.phase == Phase::Registered,
        s.pending is None,
    ensures
        e matches Incoming::Error(t) ==> session_step(s, Event::Message(e)).1 == ActionValue::Finish(
            Err(ErrorValue::ConnectionFailed(t@)),
        ),
        (e is Close || e is Ended) ==> session_step(s, Event::Message(e)).1 == ActionValue::Finish(Ok(())),
{
}

/// A registered node reports its telemetry at the first tick and then on a fixed
/// 30 second schedule: at a tick exactly when the next report is due, after which
/// the next one is due one interval after the one just made was due (or, where
/// the ticks fell a whole interval behind, one interval after now).
pub proof fn law_telemetry_schedule(s: SessionView, now: u64)
    requires
        s.phase == Phase::Registered,
        s.pending is None,
    ensures
        (session_step(s, Event::Tick(now)).1 is ReportTelemetry) <==> (s.next_report_ms is None
            || now >= s.next_report_ms->Some_0),
        session_step(s, Event::Tick(now)).1 is ReportTelemetry ==> session_step(
            s,
            Event::Tick(now),
        ).0.next_report_ms == Some(next_report_after(s.next_report_ms, now)),
        (s.next_report_ms is Some && s.next_report_ms->Some_0 <= now < s.next_report_ms->Some_0 + 30_000
            && s.next_report_ms->Some_0 + 30_000 <= u64::MAX) ==> session_step(s, Event::Tick(now)).0.next_report_ms
            == Some((s.next_report_ms->Some_0 + 30_000) as u64),
        !(session_step(s, Event::Tick(now)).1 is ReportTelemetry) ==> session_step(s, Event::Tick(now)).0
            == s,
{
}

/// While work for an invoke request is under way, every event but its
/// completion is met with waiting and changes nothing: the node reads no
/// further message, and no close or error, until the request is answered.
pub proof fn law_work_holds_other_events(s: SessionView, e: Event)
    requires
        s.phase == Phase::Registered,
        s.pending is Some,
        !(s.pending->Some_0 is Run && e is RunDone),
        !(s.pending->Some_0 is Which && e is WhichDone),
    ensures
        session_step(s, e) == (s, ActionValue::Wait),
{
}

/// Whether `d` is the completion of what an action starts (any event where it
/// starts nothing).
pub open spec fn completes(a: ActionValue, d: Event) -> bool {
    match a {
        ActionValue::Execute(WorkValue::Run(_)) => d is RunDone,
        ActionValue::Execute(WorkValue::Which(_)) => d is WhichDone,
        _ => true,
    }
}

/// A message that does not end the session, with the completion of the work it
/// may start.
pub open spec fn is_exchange(s: SessionView, m: Incoming, d: Event) -> bool {
    &&& !(m is Close || m is Ended || m is Error)
    &&& completes(message_step(s, m).1, d)
}

/// The events of an exchange: the message, then the completion of the work it
/// starts, if any.
pub open spec fn exchange_events(s: SessionView, m: Incoming, d: Event) -> Seq<Event> {
    if message_step(s, m).1 is Execute {
        seq![Event::Message(m), d]
    } else {
        seq![Event::Message(m)]
    }
}

/// The actions of an exchange: the message's own action, then the reply that
/// the completion of its work brings, if it started work.
pub open spec fn exchange_actions(s: SessionView, m: Incoming, d: Event) -> Seq<ActionValue> {
    let (s1, a1) = message_step(s, m);
    if a1 is Execute {
        seq![a1, session_step(s1, d).1]
    } else {
        seq![a1]
    }
}

/// The events of a run of exchanges.
pub open spec fn all_events(s: SessionView, xs: Seq<(Incoming, Event)>) -> Seq<Event>
    decreases xs.len(),
{
    if xs.len() == 0 {
        Seq::empty()
    } else {
        exchange_events(s, xs[0].0, xs[0].1) + all_events(s, xs.drop_first())
    }
}

/// The actions of a run of exchanges.
pub open spec fn all_actions(s: SessionView, xs: Seq<(Incoming, Event)>) -> Seq<ActionValue>
    decreases xs.len(),
{
    if xs.len() == 0 {
        Seq::empty()
    } else {
        exchange_actions(s, xs[0].0, xs[0].1) + all_actions(s, xs.drop_first())
    }
}

/// Running events one after another is running the first part, then the rest
/// from where the first part left the session.
pub proof fn lemma_run_append(s: SessionView, e1: Seq<Event>, e2: Seq<Event>)
    ensures
        session_run(s, e1 + e2) == (
            session_run(session_run(s, e1).0, e2).0,
            session_run(s, e1).1 + session_run(session_run(s, e1).0, e2).1,
        ),
    decreases e1.len(),
{
    if e1.len() == 0 {
        assert(e1 + e2 =~= e2);
        assert(session_run(s, e1).1 + session_run(s, e2).1 =~= session_run(s, e2).1);
    } else {
        let (s1, a1) = session_step(s, e1[0]);
        assert((e1 + e2)[0] == e1[0]);
        assert((e1 + e2).drop_first() =~= e1.drop_first() + e2);
        lemma_run_append(s1, e1.drop_first(), e2);
        let mid = session_run(s1, e1.drop_first());
        assert(seq![a1] + (mid.1 + session_run(mid.0, e2).1) =~= (seq![a1] + mid.1) + session_run(mid.0, e2).1);
    }
}

/// One exchange leaves a registered session as it found it, and its actions are
/// the message's action, then the reply to the work it started.
pub proof fn law_exchange(s: SessionView, m: Incoming, d: Event)
    requires
        s.phase == Phase::Registered,
        s.pending is None,
        is_exchange(s, m, d),
    ensures
        session_run(s, exchange_events(s, m, d)) == (s, exchange_actions(s, m, d)),
{
    reveal_with_fuel(session_run, 3);
    let ev = exchange_events(s, m, d);
    assert(ev[0] == Event::Message(m));
    let (s1, a1) = message_step(s, m);
    assert(session_step(s, Event::Message(m)) == (s1, a1));
    if a1 is Execute {
        assert(ev.drop_first()[0] == d);
        assert(ev.drop_first().drop_first() =~= Seq::<Event>::empty());
        assert(session_step(s1, d).0 == s);
        assert(seq![a1] + (seq![session_step(s1, d).1] + Seq::<ActionValue>::empty()) =~= exchange_actions(s, m, d));
    } else {
        assert(s1 == s);
        assert(ev.drop_first() =~= Seq::<Event>::empty());
        assert(seq![a1] + Seq::<ActionValue>::empty() =~= exchange_actions(s, m, d));
    }
}

/// Once registered, a run of messages that do not end the session, each followed
/// by the completion of any work it starts, leaves the session as it found it;
/// its actions are, in order, those of each message and its reply.
pub proof fn law_exchanges_compose(s: SessionView, xs: Seq<(Incoming, Event)>)
    requires
        s.phase == Phase::Registered,
        s.pending is None,
        forall|i: int| 0 <= i < xs.len() ==> is_exchange(s, #[trigger] xs[i].0, xs[i].1),
    ensures
        session_run(s, all_events(s, xs)) == (s, all_actions(s, xs)),
    decreases xs.len(),
{
    if xs.len() == 0 {
    } else {
        assert(is_exchange(s, xs[0].0, xs[0].1));
        assert forall|i: int| 0 <= i < xs.drop_first().len() implies is_exchange(
            s,
            #[trigger] xs.drop_first()[i].0,
            xs.drop_first()[i].1,
        ) by {
            assert(xs.drop_first()[i] == xs[i + 1]);
        }
        law_exchange(s, xs[0].0, xs[0].1);
        law_exchanges_compose(s, xs.drop_first());
        lemma_run_append(s, exchange_events(s, xs[0].0, xs[0].1), all_events(s, xs.drop_first()));
    }
}

/// An invoke request read by a registered session gets exactly one reply: at once
/// with the error, or, where it starts work, once the work completes, with what
/// the command's handler makes of the outcome.
pub proof fn law_invoke_answered_with_handler_result(s: SessionView, f: crate::json::Json, d: Event)
    requires
        s.phase == Phase::Registered,
        s.pending is None,
        is_exchange(s, Incoming::Frame(f), d),
    ensures
        exchange_actions(s, Incoming::Frame(f), d) == match frame_step(s.config, s.home, f@) {
            StepValue::Ignore => seq![ActionValue::Wait],
            StepValue::Fail { invoke_id, message } => seq![
                ActionValue::Reply { invoke_id, result: Err(message) },
            ],
            StepValue::Run { invoke_id, request } => seq![
                ActionValue::Execute(WorkValue::Run(request)),
                ActionValue::Reply {
                    invoke_id,
                    result: run_result_value(request.timeout_ms, d->RunDone_0),
                },
            ],
            StepValue::Which { invoke_id, binary } => seq![
                ActionValue::Execute(WorkValue::Which(binary)),
                ActionValue::Reply { invoke_id, result: which_result_value(d->WhichDone_0) },
            ],
        },
{
}

/// An invoke request that names itself gets exactly one reply, addressed to it:
/// the exchange's last action is that reply, and no earlier action is a reply.
pub proof fn law_named_invoke_gets_one_reply(
    s: SessionView,
    f: crate::json::Json,
    d: Event,
    invoke_id: Seq<char>,
)
    requires
        s.phase == Phase::Registered,
        s.pending is None,
        is_exchange(s, Incoming::Frame(f), d),
        is_invoke_request(f@),
        f@.get("payload"@) is Some,
        text_of(f@.get("payload"@)->Some_0.get("invokeId"@)) == Some(invoke_id),
    ensures
        ({
            let acts = exchange_actions(s, Incoming::Frame(f), d);
            &&& (acts.last() matches ActionValue::Reply { invoke_id: id, .. } && id == invoke_id)
            &&& forall|k: int| 0 <= k < acts.len() - 1 ==> !(#[trigger] acts[k] is Reply)
        }),
{
    let p = f@.get("payload"@)->Some_0;
    law_named_invoke_is_answered(s.config, s.home, p, invoke_id);
    law_invoke_answered_with_handler_result(s, f, d);
}

/// The parameters saved to `node.json` read back as they were saved.
pub proof fn law_saved_config_reads_back(c: ServiceConfigValue)
    ensures
        parse_service(service_json_value(c)) == Some(c),
{
    reveal_strlit("gateway_url");
    reveal_strlit("device_token");
    reveal_strlit("node_id");
    reveal_strlit("display_name");
    reveal_strlit("working_dir");
    reveal_strlit("timeout");
    let fs = service_json_value(c)->Object_0;
    assert("gateway_url"@[0] != "device_token"@[0]);
    assert("gateway_url"@[0] != "node_id"@[0]);
    assert("device_token"@[0] != "node_id"@[0]);
    assert("gateway_url"@[0] != "display_name"@[0]);
    assert("device_token"@[1] != "display_name"@[1]);
    assert("node_id"@[0] != "display_name"@[0]);
    assert("gateway_url"@[0] != "working_dir"@[0]);
    assert("device_token"@[0] != "working_dir"@[0]);
    assert("node_id"@[0] != "working_dir"@[0]);
    assert("display_name"@[0] != "working_dir"@[0]);
    assert("gateway_url"@[0] != "timeout"@[0]);
    assert("device_token"@[0] != "timeout"@[0]);
    assert("node_id"@[0] != "timeout"@[0]);
    assert("display_name"@[0] != "timeout"@[0]);
    assert("working_dir"@[0] != "timeout"@[0]);
    lemma_lookup_at(fs, 0, "gateway_url"@);
    lemma_lookup_at(fs, 1, "device_token"@);
    lemma_lookup_at(fs, 2, "node_id"@);
    lemma_lookup_at(fs, 3, "display_name"@);
    lemma_lookup_at(fs, 4, "working_dir"@);
    lemma_lookup_at(fs, 5, "timeout"@);
}

/// After `moltis node add` has saved its parameters, `moltis node status` reads
/// them back and shows the gateway and name that were saved.
pub proof fn law_status_after_add(saved: ServiceConfigValue, service: Seq<char>)
    ensures
        parse_service(service_json_value(saved)) matches Some(r) && status_value(
            r.gateway_url,
            r.display_name,
            service,
        ) == status_value(saved.gateway_url, saved.display_name, service),
{
    law_saved_config_reads_back(saved);
}

/// The documents for a vector of strings, element by element.
pub open spec fn string_documents(v: Seq<String>) -> Seq<JsonValue> {
    Seq::new(v.len(), |i: int| JsonValue::Text(v[i]@))
}

/// The document for an optional measurement: the number, or null.
pub open spec fn reading(m: Option<u64>) -> JsonValue {
    match m {
        Some(n) => JsonValue::Number(NumberValue::PosInt(n)),
        None => JsonValue::Null,
    }
}

/// A command's own `cwd` argument decides where it runs, whatever the
/// configuration says; the configured working directory counts only where no
/// `cwd` string is given, and the home directory only where neither is.
pub proof fn law_cwd_argument_wins(config: NodeConfig, home: Option<Seq<char>>, args: Option<JsonValue>)
    requires
        text_of(arg(args, "command"@)) is Some,
    ensures
        run_request_value(config, home, args) is Ok,
        text_of(arg(args, "cwd"@)) matches Some(c) ==> run_request_value(config, home, args)->Ok_0.cwd
            == Some(c),
        (text_of(arg(args, "cwd"@)) is None && config.working_dir is Some) ==> run_request_value(
            config,
            home,
            args,
        )->Ok_0.cwd == Some(config.working_dir->Some_0@),
        (text_of(arg(args, "cwd"@)) is None && config.working_dir is None) ==> run_request_value(
            config,
            home,
            args,
        )->Ok_0.cwd == home,
{
}

/// A finished command reports what it wrote to its standard output and error,
/// decoded, whatever its exit code, and its exit code (-1 where it has none).
pub proof fn law_finished_command_reports_its_output(
    timeout_ms: u64,
    stdout: Vec<u8>,
    stderr: Vec<u8>,
    exit_code: Option<i32>,
)
    ensures
        run_result_value(timeout_ms, RunOutcome::Finished { stdout, stderr, exit_code }) is Ok,
        ({
            let v = run_result_value(timeout_ms, RunOutcome::Finished { stdout, stderr, exit_code })->Ok_0;
            &&& text_of(v.get("stdout"@)) == Some(utf8_lossy(stdout@))
            &&& text_of(v.get("stderr"@)) == Some(utf8_lossy(stderr@))
            &&& v.get("exitCode"@) == Some(
                JsonValue::Number(
                    match exit_code {
                        Some(c) => if c >= 0 {
                            NumberValue::PosInt(c as u64)
                        } else {
                            NumberValue::NegInt(c as i64)
                        },
                        None => NumberValue::NegInt(-1i64),
                    },
                ),
            )
        }),
{
    reveal_strlit("stdout");
    reveal_strlit("stderr");
    reveal_strlit("exitCode");
    let v = run_result_value(timeout_ms, RunOutcome::Finished { stdout, stderr, exit_code })->Ok_0;
    let fs = v->Object_0;
    assert("stdout"@[0] != "exitCode"@[0]);
    assert("stdout"@[3] != "stderr"@[3]);
    assert("stderr"@[0] != "exitCode"@[0]);
    lemma_lookup_at(fs, 0, "stdout"@);
    lemma_lookup_at(fs, 1, "stderr"@);
    lemma_lookup_at(fs, 2, "exitCode"@);
}

/// The connect request advertises the configured capabilities and commands,
/// each list as it is configured, in order.
pub proof fn law_connect_advertises_configuration(request_id: Seq<char>, config: NodeConfig, version: Seq<char>)
    ensures
        ({
            let r = connect_request_value(request_id, config, version);
            &&& r.get("params"@) is Some
            &&& r.get("params"@)->Some_0.get("extensions"@) is Some
            &&& r.get("params"@)->Some_0.get("extensions"@)->Some_0.get("moltis"@) is Some
            &&& elements_of(
                r.get("params"@)->Some_0.get("extensions"@)->Some_0.get("moltis"@)->Some_0.get("caps"@),
            ) == Some(string_documents(config.caps@))
            &&& elements_of(
                r.get("params"@)->Some_0.get("extensions"@)->Some_0.get("moltis"@)->Some_0.get(
                    "commands"@,
                ),
            ) == Some(string_documents(config.commands@))
        }),
{
    reveal_strlit("type");
    reveal_strlit("id");
    reveal_strlit("method");
    reveal_strlit("params");
    reveal_strlit("protocol");
    reveal_strlit("client");
    reveal_strlit("role");
    reveal_strlit("auth");
    reveal_strlit("extensions");
    reveal_strlit("moltis");
    reveal_strlit("caps");
    reveal_strlit("commands");
    let r = connect_request_value(request_id, config, version);
    let fs = r->Object_0;
    assert("type"@[0] != "params"@[0]);
    assert("id"@[0] != "params"@[0]);
    assert("method"@[0] != "params"@[0]);
    lemma_lookup_at(fs, 3, "params"@);
    let ps = fs[3].1->Object_0;
    assert("protocol"@[0] != "extensions"@[0]);
    assert("client"@[0] != "extensions"@[0]);
    assert("role"@[0] != "extensions"@[0]);
    assert("auth"@[0] != "extensions"@[0]);
    lemma_lookup_at(ps, 4, "extensions"@);
    let es = ps[4].1->Object_0;
    lemma_lookup_at(es, 0, "moltis"@);
    let ms = es[0].1->Object_0;
    assert("caps"@[1] != "commands"@[1]);
    lemma_lookup_at(ms, 0, "caps"@);
    lemma_lookup_at(ms, 1, "commands"@);
    assert(crate::frames::text_values(crate::runner::texts(config.caps@)) =~= string_documents(config.caps@));
    assert(crate::frames::text_values(crate::runner::texts(config.commands@)) =~= string_documents(
        config.commands@,
    ));
}

/// The node list shows one line per node, in order, and says that no nodes are
/// connected exactly when the list is empty.
pub proof fn law_listing_one_line_per_node(nodes: Seq<JsonValue>)
    ensures
        nodes.len() == 0 ==> listing_value(JsonValue::Array(nodes)) == Some(seq!["No nodes connected."@]),
        nodes.len() > 0 ==> listing_value(JsonValue::Array(nodes)) is Some,
        nodes.len() > 0 ==> listing_value(JsonValue::Array(nodes))->Some_0.len() == nodes.len(),
        forall|i: int|
            0 <= i < nodes.len() ==> #[trigger] listing_value(JsonValue::Array(nodes))->Some_0[i]
                == node_line_value(nodes[i]) && listing_value(JsonValue::Array(nodes))->Some_0[i]
                != "No nodes connected."@,
{
    reveal_strlit("No nodes connected.");
    reveal_strlit("]");
    assert forall|i: int| 0 <= i < nodes.len() implies #[trigger] listing_value(
        JsonValue::Array(nodes),
    )->Some_0[i] == node_line_value(nodes[i]) && listing_value(JsonValue::Array(nodes))->Some_0[i]
        != "No nodes connected."@ by {
        let line = node_line_value(nodes[i]);
        assert(line.last() == ']');
        let none = "No nodes connected."@;
        assert(none.last() == none[18]);
        assert(none[18] == '.');
    }
}

/// Each member of a telemetry report carries its own measurement, under its own
/// name: a number, or null where it could not be taken; the lists as measured.
pub proof fn law_telemetry_members(frame_id: Seq<char>, t: Telemetry)
    ensures
        telemetry_value(frame_id, t).get("params"@) is Some,
        ({
            let p = telemetry_value(frame_id, t).get("params"@)->Some_0;
            &&& p.get("cpuCount"@) == Some(reading(t.cpu_count))
            &&& p.get("cpuUsage"@) == Some(reading(t.cpu_usage_percent))
            &&& p.get("memoryTotal"@) == Some(reading(t.memory_total))
            &&& p.get("memoryAvailable"@) == Some(reading(t.memory_available))
            &&& p.get("diskTotal"@) == Some(reading(t.disk_total))
            &&& p.get("diskAvailable"@) == Some(reading(t.disk_available))
            &&& p.get("uptime"@) == Some(reading(t.uptime_secs))
            &&& elements_of(p.get("runtimes"@)) == Some(string_documents(t.runtimes@))
            &&& elements_of(p.get("providers"@)) == Some(string_documents(t.providers@))
            &&& elements_of(p.get("ollamaModels"@)) == Some(string_documents(t.ollama_models@))
        }),
{
    reveal_strlit("type");
    reveal_strlit("id");
    reveal_strlit("method");
    reveal_strlit("params");
    reveal_strlit("cpuCount");
    reveal_strlit("cpuUsage");
    reveal_strlit("memoryTotal");
    reveal_strlit("memoryAvailable");
    reveal_strlit("diskTotal");
    reveal_strlit("diskAvailable");
    reveal_strlit("uptime");
    reveal_strlit("runtimes");
    reveal_strlit("providers");
    reveal_strlit("ollamaModels");
    let fs = telemetry_value(frame_id, t)->Object_0;
    assert("type"@[0] != "params"@[0]);
    assert("id"@[0] != "params"@[0]);
    assert("method"@[0] != "params"@[0]);
    lemma_lookup_at(fs, 3, "params"@);
    let ps = fs[3].1->Object_0;
    assert("cpuCount"@[0] == 'c' && "cpuUsage"@[0] == 'c' && "cpuCount"@[3] != "cpuUsage"@[3]);
    assert("memoryTotal"@[0] == 'm' && "memoryAvailable"@[0] == 'm' && "memoryTotal"@[6]
        != "memoryAvailable"@[6]);
    assert("diskTotal"@[0] == 'd' && "diskAvailable"@[0] == 'd' && "diskTotal"@[4] != "diskAvailable"@[4]);
    assert("uptime"@[0] == 'u' && "runtimes"@[0] == 'r' && "providers"@[0] == 'p' && "ollamaModels"@[0]
        == 'o');
    lemma_lookup_at(ps, 0, "cpuCount"@);
    lemma_lookup_at(ps, 1, "cpuUsage"@);
    lemma_lookup_at(ps, 2, "memoryTotal"@);
    lemma_lookup_at(ps, 3, "memoryAvailable"@);
    lemma_lookup_at(ps, 4, "diskTotal"@);
    lemma_lookup_at(ps, 5, "diskAvailable"@);
    lemma_lookup_at(ps, 6, "uptime"@);
    lemma_lookup_at(ps, 7, "runtimes"@);
    lemma_lookup_at(ps, 8, "providers"@);
    lemma_lookup_at(ps, 9, "ollamaModels"@);
    assert(crate::frames::text_values(crate::runner::texts(t.runtimes@)) =~= string_documents(t.runtimes@));
    assert(crate::frames::text_values(crate::runner::texts(t.providers@)) =~= string_documents(t.providers@));
    assert(crate::frames::text_values(crate::runner::texts(t.ollama_models@)) =~= string_documents(
        t.ollama_models@,
    ));
}

/// A key that no member has is not found.
pub proof fn law_lookup_absent(fields: Seq<(Seq<char>, JsonValue)>, key: Seq<char>)
    requires
        forall|j: int| 0 <= j < fields.len() ==> #[trigger] fields[j].0 != key,
    ensures
        lookup(fields, key) is None,
    decreases fields.len(),
{
    if fields.len() > 0 {
        assert(fields[0].0 != key);
        assert forall|j: int| 0 <= j < fields.drop_first().len() implies #[trigger] fields.drop_first()[j].0
            != key by {
            assert(fields.drop_first()[j] == fields[j + 1]);
        }
        law_lookup_absent(fields.drop_first(), key);
    }
}

/// A program lookup reports whether `which` succeeded and, where it did, the path
/// it printed, without surrounding white space; where it did not, no path.
pub proof fn law_which_reports_path(stdout: Vec<u8>, success: bool)
    ensures
        which_result_value(WhichOutcome::Finished { stdout, success }) is Ok,
        ({
            let v = which_result_value(WhichOutcome::Finished { stdout, success })->Ok_0;
            &&& v.get("found"@) == Some(JsonValue::Bool(success))
            &&& success ==> v.get("path"@) == Some(JsonValue::Text(trim(utf8_lossy(stdout@))))
            &&& !success ==> v.get("path"@) == Some(JsonValue::Null)
        }),
{
    reveal_strlit("found");
    reveal_strlit("path");
    let fs = which_result_value(WhichOutcome::Finished { stdout, success })->Ok_0->Object_0;
    assert("found"@[0] != "path"@[0]);
    lemma_lookup_at(fs, 0, "found"@);
    lemma_lookup_at(fs, 1, "path"@);
}

/// A command that runs out of time is reported with the time it was given, in
/// decimal digits that read back as that time; a failed wait names its cause;
/// a command that cannot start is reported with the cause alone.
pub proof fn law_run_errors(timeout_ms: u64, cause: String)
    ensures
        ({
            let pre = "command timed out after "@;
            let r = run_result_value(timeout_ms, RunOutcome::TimedOut);
            &&& r is Err
            &&& r->Err_0.len() > pre.len() + 2
            &&& r->Err_0.subrange(0, pre.len() as int) == pre
            &&& r->Err_0.subrange(r->Err_0.len() - 2, r->Err_0.len() as int) == "ms"@
            &&& all_digits(r->Err_0.subrange(pre.len() as int, r->Err_0.len() - 2))
            &&& digits_value(r->Err_0.subrange(pre.len() as int, r->Err_0.len() - 2)) == timeout_ms
        }),
        ({
            let pre = "failed to execute command: "@;
            let r = run_result_value(timeout_ms, RunOutcome::WaitFailed(cause));
            &&& r is Err
            &&& r->Err_0.subrange(0, pre.len() as int) == pre
            &&& r->Err_0.subrange(pre.len() as int, r->Err_0.len() as int) == cause@
        }),
        run_result_value(timeout_ms, RunOutcome::SpawnFailed(cause)) == Err::<JsonValue, Seq<char>>(cause@),
{
    reveal_strlit("ms");
    lemma_decimal_reads_back(timeout_ms as nat);
    let pre = "command timed out after "@;
    let d = decimal(timeout_ms as nat);
    let m = pre + d + "ms"@;
    assert(m.subrange(0, pre.len() as int) =~= pre);
    assert(m.subrange(m.len() - 2, m.len() as int) =~= "ms"@);
    assert(m.subrange(pre.len() as int, m.len() - 2) =~= d);
    let pre2 = "failed to execute command: "@;
    let m2 = pre2 + cause@;
    assert(m2.subrange(0, pre2.len() as int) =~= pre2);
    assert(m2.subrange(pre2.len() as int, m2.len() as int) =~= cause@);
}

/// The connect request is a `connect` request under its own id that names the
/// node as configured: its id, name (only where it has one), version, platform,
/// device token, the `node` role and the protocol version on both ends.
pub proof fn law_connect_request_identifies_node(request_id: Seq<char>, config: NodeConfig, version: Seq<char>)
    ensures
        ({
            let r = connect_request_value(request_id, config, version);
            &&& r.get("id"@) == Some(JsonValue::Text(request_id))
            &&& r.get("method"@) == Some(JsonValue::Text("connect"@))
            &&& r.get("params"@) is Some
            &&& r.get("params"@)->Some_0.get("role"@) == Some(JsonValue::Text("node"@))
            &&& r.get("params"@)->Some_0.get("auth"@) is Some
            &&& r.get("params"@)->Some_0.get("auth"@)->Some_0.get("deviceToken"@) == Some(
                JsonValue::Text(config.device_token@),
            )
            &&& r.get("params"@)->Some_0.get("protocol"@) is Some
            &&& r.get("params"@)->Some_0.get("protocol"@)->Some_0.get("min"@) == Some(
                JsonValue::Number(NumberValue::PosInt(4)),
            )
            &&& r.get("params"@)->Some_0.get("protocol"@)->Some_0.get("max"@) == Some(
                JsonValue::Number(NumberValue::PosInt(4)),
            )
            &&& r.get("params"@)->Some_0.get("client"@) is Some
            &&& r.get("params"@)->Some_0.get("client"@)->Some_0.get("id"@) == Some(
                JsonValue::Text(config.node_id@),
            )
            &&& r.get("params"@)->Some_0.get("client"@)->Some_0.get("version"@) == Some(
                JsonValue::Text(version),
            )
            &&& r.get("params"@)->Some_0.get("client"@)->Some_0.get("platform"@) == Some(
                JsonValue::Text(config.platform@),
            )
            &&& r.get("params"@)->Some_0.get("client"@)->Some_0.get("displayName"@) == match config.display_name {
                Some(n) => Some(JsonValue::Text(n@)),
                None => None::<JsonValue>,
            }
        }),
{
    reveal_strlit("type");
    reveal_strlit("id");
    reveal_strlit("method");
    reveal_strlit("params");
    reveal_strlit("protocol");
    reveal_strlit("client");
    reveal_strlit("role");
    reveal_strlit("auth");
    reveal_strlit("deviceToken");
    reveal_strlit("min");
    reveal_strlit("max");
    reveal_strlit("displayName");
    reveal_strlit("version");
    reveal_strlit("platform");
    reveal_strlit("mode");
    let r = connect_request_value(request_id, config, version);
    let fs = r->Object_0;
    assert("type"@[0] == 't' && "id"@[0] == 'i' && "method"@[0] == 'm' && "params"@[0] == 'p');
    lemma_lookup_at(fs, 1, "id"@);
    lemma_lookup_at(fs, 2, "method"@);
    lemma_lookup_at(fs, 3, "params"@);
    let ps = fs[3].1->Object_0;
    assert("protocol"@[0] == 'p' && "client"@[0] == 'c' && "role"@[0] == 'r' && "auth"@[0] == 'a');
    lemma_lookup_at(ps, 0, "protocol"@);
    lemma_lookup_at(ps, 1, "client"@);
    lemma_lookup_at(ps, 2, "role"@);
    lemma_lookup_at(ps, 3, "auth"@);
    lemma_lookup_at(ps[3].1->Object_0, 0, "deviceToken"@);
    let pr = ps[0].1->Object_0;
    assert("min"@[1] != "max"@[1]);
    lemma_lookup_at(pr, 0, "min"@);
    lemma_lookup_at(pr, 1, "max"@);
    let cs = ps[1].1->Object_0;
    assert("id"@[0] == 'i' && "displayName"@[0] == 'd' && "version"@[0] == 'v' && "platform"@[0] == 'p'
        && "mode"@[0] == 'm');
    lemma_lookup_at(cs, 0, "id"@);
    match config.display_name {
        Some(n) => {
            lemma_lookup_at(cs, 1, "displayName"@);
            lemma_lookup_at(cs, 2, "version"@);
            lemma_lookup_at(cs, 3, "platform"@);
        },
        None => {
            lemma_lookup_at(cs, 1, "version"@);
            lemma_lookup_at(cs, 2, "platform"@);
            assert forall|j: int| 0 <= j < cs.len() implies #[trigger] cs[j].0 != "displayName"@ by {
                assert(cs[j].0[0] != "displayName"@[0]);
            }
            law_lookup_absent(cs, "displayName"@);
        },
    }
}

/// The document saved to `node.json` holds each parameter under its own name:
/// the URL and token as strings, the optional ones as strings or null, and the
/// timeout as a number.
pub proof fn law_saved_document_members(c: ServiceConfigValue)
    ensures
        ({
            let d = service_json_value(c);
            let opt = |o: Option<Seq<char>>| match o {
                Some(t) => JsonValue::Text(t),
                None => JsonValue::Null,
            };
            &&& d.get("gateway_url"@) == Some(JsonValue::Text(c.gateway_url))
            &&& d.get("device_token"@) == Some(JsonValue::Text(c.device_token))
            &&& d.get("node_id"@) == Some(opt(c.node_id))
            &&& d.get("display_name"@) == Some(opt(c.display_name))
            &&& d.get("working_dir"@) == Some(opt(c.working_dir))
            &&& d.get("timeout"@) == Some(JsonValue::Number(NumberValue::PosInt(c.timeout)))
        }),
{
    reveal_strlit("gateway_url");
    reveal_strlit("device_token");
    reveal_strlit("node_id");
    reveal_strlit("display_name");
    reveal_strlit("working_dir");
    reveal_strlit("timeout");
    let fs = service_json_value(c)->Object_0;
    assert("gateway_url"@[0] == 'g' && "device_token"@[0] == 'd' && "node_id"@[0] == 'n'
        && "display_name"@[0] == 'd' && "working_dir"@[0] == 'w' && "timeout"@[0] == 't');
    assert("device_token"@[1] != "display_name"@[1]);
    lemma_lookup_at(fs, 0, "gateway_url"@);
    lemma_lookup_at(fs, 1, "device_token"@);
    lemma_lookup_at(fs, 2, "node_id"@);
    lemma_lookup_at(fs, 3, "display_name"@);
    lemma_lookup_at(fs, 4, "working_dir"@);
    lemma_lookup_at(fs, 5, "timeout"@);
}

/// The node list is fetched from the host with only its trailing slashes taken
/// off, followed by `/api/nodes`.
pub proof fn law_nodes_url_shape(host: Seq<char>)
    ensures
        ({
            let u = nodes_url_value(host);
            let k = u.len() - 10;
            &&& 0 <= k <= host.len()
            &&& u.subrange(0, k) == host.subrange(0, k)
            &&& u.subrange(k, u.len() as int) == "/api/nodes"@
            &&& forall|i: int| k <= i < host.len() ==> host[i] == '/'
            &&& (k == 0 || u[k - 1] != '/')
        }),
    decreases host.len(),
{
    reveal_strlit("/api/nodes");
    lemma_strip_trailing_shape(host);
    let p = strip_trailing(host, '/');
    let u = nodes_url_value(host);
    assert(u.subrange(0, p.len() as int) =~= p);
    assert(u.subrange(p.len() as int, u.len() as int) =~= "/api/nodes"@);
    if p.len() > 0 {
        assert(u[p.len() - 1] == p[p.len() - 1]);
    }
}

proof fn lemma_strip_trailing_shape(s: Seq<char>)
    ensures
        strip_trailing(s, '/').len() <= s.len(),
        strip_trailing(s, '/') == s.subrange(0, strip_trailing(s, '/').len() as int),
        forall|i: int| strip_trailing(s, '/').len() <= i < s.len() ==> s[i] == '/',
        strip_trailing(s, '/').len() == 0 || strip_trailing(s, '/').last() != '/',
    decreases s.len(),
{
    if s.len() > 0 && s.last() == '/' {
        lemma_strip_trailing_shape(s.drop_last());
        let p = strip_trailing(s.drop_last(), '/');
        assert(s.drop_last().subrange(0, p.len() as int) =~= s.subrange(0, p.len() as int));
        assert forall|i: int| p.len() <= i < s.len() implies s[i] == '/' by {
            if i < s.len() - 1 {
                assert(s.drop_last()[i] == s[i]);
            }
        }
    } else {
        assert(s.subrange(0, s.len() as int) =~= s);
    }
}

/// A node's line starts with its id (`?` where it has none), followed by two
/// spaces, and ends with the closing bracket of its capability list.
pub proof fn law_node_line_shape(node: JsonValue)
    ensures
        ({
            let line = node_line_value(node);
            let id = match text_of(node.get("nodeId"@)) {
                Some(t) => t,
                None => "?"@,
            };
            &&& line.len() > id.len() + 2
            &&& line.subrange(0, id.len() as int) == id
            &&& line.subrange(id.len() as int, id.len() + 2int) == "  "@
            &&& line.last() == ']'
        }),
{
    reveal_strlit("  ");
    reveal_strlit("]");
    reveal_strlit("  (");
    reveal_strlit(")  caps=[");
    let line = node_line_value(node);
    let id = match text_of(node.get("nodeId"@)) {
        Some(t) => t,
        None => "?"@,
    };
    assert(line.subrange(0, id.len() as int) =~= id);
    assert(line.subrange(id.len() as int, id.len() + 2int) =~= "  "@);
}

/// A `system.run` request runs the command its arguments name, and a
/// `system.which` request looks up the program its arguments name, each for the
/// request that asked.
pub proof fn law_requests_carry_their_arguments(
    config: NodeConfig,
    home: Option<Seq<char>>,
    payload: JsonValue,
    invoke_id: Seq<char>,
    target: Seq<char>,
)
    requires
        text_of(payload.get("invokeId"@)) == Some(invoke_id),
    ensures
        (text_of(payload.get("command"@)) == Some("system.run"@) && text_of(
            arg(payload.get("args"@), "command"@),
        ) == Some(target)) ==> (invoke_step(config, home, Some(payload)) matches StepValue::Run {
            invoke_id: id,
            request,
        } && id == invoke_id && request.command == target),
        (text_of(payload.get("command"@)) == Some("system.which"@) && text_of(
            arg(payload.get("args"@), "binary"@),
        ) == Some(target)) ==> (invoke_step(config, home, Some(payload)) matches StepValue::Which {
            invoke_id: id,
            binary,
        } && id == invoke_id && binary == target),
{
    reveal_strlit("system.run");
    reveal_strlit("system.which");
    assert("system.run"@[7] != "system.which"@[7]);
}

} // verus!
