use vstd::prelude::*;

use crate::invoke::{opt_text, opt_view};
use crate::json::{
    elements_of, fields_view, items_view, lemma_items_view_len_index, push_member, text_of, u64_of,
    Json, JsonNumber, JsonValue, NumberValue,
};
use crate::runner::{string_vec2, string_vec3, texts, NodeConfig};
use crate::support::{fresh_uuid, is_uuid_v4_text};
use crate::text::strip_trailing;

verus! {

/// `moltis node` subcommands — connect this machine as a node to a gateway.
pub enum NodeAction {
    /// Register this machine as a node for a gateway, as a service or, with
    /// `foreground`, in the current terminal.
    Add {
        /// Gateway WebSocket URL (e.g. ws://your-server:9090/ws).
        host: String,
        /// Device token from the pairing flow.
        token: String,
        /// Display name for this node.
        name: Option<String>,
        /// Custom node ID (defaults to a random UUID).
        node_id: Option<String>,
        /// Working directory for command execution.
        working_dir: Option<String>,
        /// Maximum command timeout in seconds.
        timeout: u64,
        /// Run in the foreground instead of installing as a service.
        foreground: bool,
    },
    /// Remove this machine as a node and uninstall the background service.
    Remove,
    /// Show the current node connection status.
    Status,
    /// Print the path to the node log file.
    Logs,
}

/// `moltis nodes` subcommands — view connected nodes on a gateway.
pub enum NodesAction {
    /// List all connected nodes.
    List {
        /// Gateway HTTP URL.
        host: String,
        /// API key or password for authentication.
        api_key: Option<String>,
    },
}

/// The node id to register under: the one given, else a fresh random one.
pub fn resolve_node_id(node_id: Option<String>) -> (res: String)
    ensures
        match node_id {
            Some(id) => res == id,
            None => is_uuid_v4_text(res@),
        },
{
    match node_id {
        Some(id) => id,
        None => fresh_uuid(),
    }
}

/// The configuration of a node run in the foreground by `moltis node add`: it
/// advertises the `system.run`, `system.which` and `system.providers`
/// capabilities, supports the `system.run` and `system.which` commands, and allows each
/// command at most `timeout` seconds (the largest number of milliseconds a
/// `u64` holds, where `timeout` seconds are more).
pub fn foreground_config(
    host: String,
    token: String,
    name: Option<String>,
    node_id: String,
    working_dir: Option<String>,
    timeout: u64,
    platform: &str,
) -> (res: NodeConfig)
    ensures
        res.gateway_url == host,
        res.device_token == token,
        res.node_id == node_id,
        res.display_name == name,
        res.platform@ == platform@,
        texts(res.caps@) == seq!["system.run"@, "system.which"@, "system.providers"@],
        texts(res.commands@) == seq!["system.run"@, "system.which"@],
        res.exec_timeout_ms == (if timeout * 1000 <= u64::MAX {
            (timeout * 1000) as u64
        } else {
            u64::MAX
        }),
        res.working_dir == working_dir,
{
    NodeConfig {
        gateway_url: host,
        device_token: token,
        node_id,
        display_name: name,
        platform: String::from_str(platform),
        caps: string_vec3("system.run", "system.which", "system.providers"),
        commands: string_vec2("system.run", "system.which"),
        exec_timeout_ms: match timeout.checked_mul(1000) {
            Some(ms) => ms,
            None => u64::MAX,
        },
        working_dir,
    }
}

/// The connection parameters saved for the background service.
pub struct ServiceConfig {
    pub gateway_url: String,
    pub device_token: String,
    pub node_id: Option<String>,
    pub display_name: Option<String>,
    pub working_dir: Option<String>,
    /// Maximum command timeout in seconds.
    pub timeout: u64,
}

/// The model of the saved connection parameters.
pub struct ServiceConfigValue {
    pub gateway_url: Seq<char>,
    pub device_token: Seq<char>,
    pub node_id: Option<Seq<char>>,
    pub display_name: Option<Seq<char>>,
    pub working_dir: Option<Seq<char>>,
    pub timeout: u64,
}

impl View for ServiceConfig {
    type V = ServiceConfigValue;

    open spec fn view(&self) -> ServiceConfigValue {
        ServiceConfigValue {
            gateway_url: self.gateway_url@,
            device_token: self.device_token@,
            node_id: opt_text(self.node_id),
            display_name: opt_text(self.display_name),
            working_dir: opt_text(self.working_dir),
            timeout: self.timeout,
        }
    }
}

/// An optional text as a document member: the text, or null.
pub open spec fn optional_text_value(o: Option<Seq<char>>) -> JsonValue {
    match o {
        Some(t) => JsonValue::Text(t),
        None => JsonValue::Null,
    }
}

/// The saved parameters as the document written to `node.json`.
pub open spec fn service_json_value(c: ServiceConfigValue) -> JsonValue {
    JsonValue::Object(
        seq![
            ("gateway_url"@, JsonValue::Text(c.gateway_url)),
            ("device_token"@, JsonValue::Text(c.device_token)),
            ("node_id"@, optional_text_value(c.node_id)),
            ("display_name"@, optional_text_value(c.display_name)),
            ("working_dir"@, optional_text_value(c.working_dir)),
            ("timeout"@, JsonValue::Number(NumberValue::PosInt(c.timeout))),
        ],
    )
}

/// An optional text member as read back: absent or null is no text; a string
/// is its text; anything else does not read.
pub open spec fn optional_text_member(v: Option<JsonValue>) -> Option<Option<Seq<char>>> {
    match v {
        None => Some(None),
        Some(JsonValue::Null) => Some(None),
        Some(JsonValue::Text(t)) => Some(Some(t)),
        _ => None,
    }
}

/// The saved parameters that a `node.json` document holds, if it holds them.
pub open spec fn parse_service(j: JsonValue) -> Option<ServiceConfigValue> {
    match (
        text_of(j.get("gateway_url"@)),
        text_of(j.get("device_token"@)),
        optional_text_member(j.get("node_id"@)),
        optional_text_member(j.get("display_name"@)),
        optional_text_member(j.get("working_dir"@)),
        u64_of(j.get("timeout"@)),
    ) {
        (Some(g), Some(t), Some(n), Some(d), Some(w), Some(to)) => Some(
            ServiceConfigValue {
                gateway_url: g,
                device_token: t,
                node_id: n,
                display_name: d,
                working_dir: w,
                timeout: to,
            },
        ),
        _ => None,
    }
}

fn optional_text_doc(o: &Option<String>) -> (res: Json)
    ensures
        res@ == optional_text_value(opt_text(*o)),
{
    match o {
        Some(t) => Json::String(t.clone()),
        None => Json::Null,
    }
}

fn read_optional_text(v: Option<&Json>) -> (res: Option<Option<String>>)
    ensures
        match res {
            Some(o) => optional_text_member(opt_view(v)) == Some(opt_text(o)),
            None => optional_text_member(opt_view(v)) is None,
        },
{
    match v {
        None => Some(None),
        Some(Json::Null) => Some(None),
        Some(Json::String(t)) => Some(Some(t.clone())),
        _ => None,
    }
}

impl ServiceConfig {
    /// The document written to `node.json`.
    pub fn to_json(&self) -> (res: Json)
        ensures
            res@ == service_json_value(self@),
    {
        let mut f: Vec<(String, Json)> = Vec::new();
        push_member(&mut f, "gateway_url", Json::String(self.gateway_url.clone()));
        push_member(&mut f, "device_token", Json::String(self.device_token.clone()));
        push_member(&mut f, "node_id", optional_text_doc(&self.node_id));
        push_member(&mut f, "display_name", optional_text_doc(&self.display_name));
        push_member(&mut f, "working_dir", optional_text_doc(&self.working_dir));
        push_member(&mut f, "timeout", Json::Number(JsonNumber::PosInt(self.timeout)));
        assert(fields_view(f@) =~= service_json_value(self@)->Object_0);
        Json::Object(f)
    }

    /// The saved parameters that a `node.json` document holds; `None` where it
    /// does not hold them.
    pub fn from_json(doc: &Json) -> (res: Option<ServiceConfig>)
        ensures
            match res {
                Some(c) => parse_service(doc@) == Some(c@),
                None => parse_service(doc@) is None,
            },
    {
        let gateway_url = match doc.get_text("gateway_url") {
            Some(t) => t,
            None => return None,
        };
        let device_token = match doc.get_text("device_token") {
            Some(t) => t,
            None => return None,
        };
        let node_id = match read_optional_text(doc.get("node_id")) {
            Some(o) => o,
            None => return None,
        };
        let display_name = match read_optional_text(doc.get("display_name")) {
            Some(o) => o,
            None => return None,
        };
        let working_dir = match read_optional_text(doc.get("working_dir")) {
            Some(o) => o,
            None => return None,
        };
        let timeout = match doc.get_u64("timeout") {
            Some(t) => t,
            None => return None,
        };
        Some(ServiceConfig { gateway_url, device_token, node_id, display_name, working_dir, timeout })
    }
}

/// The parameters that `moltis node add` saves for the service it installs.
pub fn service_config(
    host: String,
    token: String,
    name: Option<String>,
    node_id: String,
    working_dir: Option<String>,
    timeout: u64,
) -> (res: ServiceConfig)
    ensures
        res.gateway_url == host,
        res.device_token == token,
        res.node_id == Some(node_id),
        res.display_name == name,
        res.working_dir == working_dir,
        res.timeout == timeout,
{
    ServiceConfig {
        gateway_url: host,
        device_token: token,
        node_id: Some(node_id),
        display_name: name,
        working_dir,
        timeout,
    }
}

/// The lines of `moltis node status` for a registered node.
pub open spec fn status_value(gateway_url: Seq<char>, name: Option<Seq<char>>, service: Seq<char>) -> Seq<Seq<char>> {
    seq!["Gateway: "@ + gateway_url] + match name {
        Some(n) => seq!["Name:    "@ + n],
        None => Seq::empty(),
    } + seq!["Service: "@ + service]
}

/// The lines of `moltis node status` for a registered node: the gateway, the
/// name where there is one, and the service's state.
pub fn status_lines(config: &ServiceConfig, service: &str) -> (res: Vec<String>)
    ensures
        texts(res@) == status_value(
            config.gateway_url@,
            match config.display_name {
                Some(n) => Some(n@),
                None => None,
            },
            service@,
        ),
{
    let mut lines: Vec<String> = Vec::new();
    lines.push(String::from_str("Gateway: ").concat(config.gateway_url.as_str()));
    match &config.display_name {
        Some(n) => lines.push(String::from_str("Name:    ").concat(n.as_str())),
        None => {},
    }
    lines.push(String::from_str("Service: ").concat(service));
    assert(texts(lines@) =~= status_value(
        config.gateway_url@,
        match config.display_name {
            Some(n) => Some(n@),
            None => None,
        },
        service@,
    )) by {
        let name_part: Seq<Seq<char>> = match config.display_name {
            Some(n) => seq!["Name:    "@ + n@],
            None => Seq::empty(),
        };
        assert(texts(lines@) =~= seq!["Gateway: "@ + config.gateway_url@] + name_part + seq![
        "Service: "@ + service@,
    ]);
    }
    lines
}

/// The address of the gateway's node list.
pub open spec fn nodes_url_value(host: Seq<char>) -> Seq<char> {
    strip_trailing(host, '/') + "/api/nodes"@
}

/// The address of the gateway's node list: `host` without trailing slashes,
/// then `/api/nodes`.
pub fn nodes_url(host: &str) -> (res: String)
    ensures
        res@ == nodes_url_value(host@),
{
    let mut end: usize = host.unicode_len();
    assert(host@.subrange(0, end as int) =~= host@);
    while end > 0 && host.get_char(end - 1) == '/'
        invariant
            end <= host@.len(),
            strip_trailing(host@, '/') == strip_trailing(host@.subrange(0, end as int), '/'),
        decreases end,
    {
        assert(host@.subrange(0, end as int).drop_last() =~= host@.subrange(0, end - 1));
        end = end - 1;
    }
    let kept = host.substring_char(0, end);
    assert(strip_trailing(host@.subrange(0, end as int), '/') == kept@) by {
        if end > 0 {
            assert(host@.subrange(0, end as int).last() == host@[end - 1]);
        }
    }
    String::from_str(kept).concat("/api/nodes")
}

/// The `Authorization` header value for an API key.
pub fn bearer_header(api_key: &str) -> (res: String)
    ensures
        res@ == "Bearer "@ + api_key@,
{
    String::from_str("Bearer ").concat(api_key)
}

/// The error for a failed listing: the HTTP status and the response body.
pub fn list_failure_message(status: &str, body: &str) -> (res: String)
    ensures
        res@ == "failed to list nodes: "@ + status@ + " — "@ + body@,
{
    String::from_str("failed to list nodes: ").concat(status).concat(" — ").concat(body)
}

/// The parts joined with `sep` between each two.
pub open spec fn join(parts: Seq<Seq<char>>, sep: Seq<char>) -> Seq<char>
    decreases parts.len(),
{
    if parts.len() == 0 {
        Seq::empty()
    } else if parts.len() == 1 {
        parts[0]
    } else {
        join(parts.drop_last(), sep) + sep + parts.last()
    }
}

/// The texts of the string elements.
pub open spec fn string_elements(items: Seq<JsonValue>) -> Seq<Seq<char>>
    decreases items.len(),
{
    if items.len() == 0 {
        Seq::empty()
    } else {
        let init = string_elements(items.drop_last());
        match items.last() {
            JsonValue::Text(t) => init.push(t),
            _ => init,
        }
    }
}

/// The text of member `key`, or `fallback` where it is not a string.
pub open spec fn text_or(v: JsonValue, key: Seq<char>, fallback: Seq<char>) -> Seq<char> {
    match text_of(v.get(key)) {
        Some(t) => t,
        None => fallback,
    }
}

/// The capabilities of a node, joined with ", ".
pub open spec fn caps_text(v: JsonValue) -> Seq<char> {
    match elements_of(v.get("caps"@)) {
        Some(items) => join(string_elements(items), ", "@),
        None => Seq::empty(),
    }
}

/// The line that lists one node: its id, name, platform and capabilities.
pub open spec fn node_line_value(v: JsonValue) -> Seq<char> {
    text_or(v, "nodeId"@, "?"@) + "  "@ + text_or(v, "displayName"@, "(unnamed)"@) + "  ("@ + text_or(
        v,
        "platform"@,
        "?"@,
    ) + ")  caps=["@ + caps_text(v) + "]"@
}

/// The lines that list the nodes in `nodes`, where it is an array; `None`
/// where it is not, and the document is shown as it is.
pub open spec fn listing_value(nodes: JsonValue) -> Option<Seq<Seq<char>>> {
    match nodes {
        JsonValue::Array(items) => if items.len() == 0 {
            Some(seq!["No nodes connected."@])
        } else {
            Some(items.map_values(|n: JsonValue| node_line_value(n)))
        },
        _ => None,
    }
}

fn text_or_exec(v: &Json, key: &str, fallback: &str) -> (res: String)
    ensures
        res@ == text_or(v@, key@, fallback@),
{
    match v.get_text(key) {
        Some(t) => t,
        None => String::from_str(fallback),
    }
}

fn caps_line(v: &Json) -> (res: String)
    ensures
        res@ == caps_text(v@),
{
    let mut out = String::new();
    match v.get("caps") {
        Some(Json::Array(items)) => {
            let ghost iv = items_view(items@);
            proof {
                lemma_items_view_len_index(items@);
            }
            let mut any = false;
            let mut i: usize = 0;
            while i < items.len()
                invariant
                    0 <= i <= items.len(),
                    iv == items_view(items@),
                    iv.len() == items@.len(),
                    forall|m: int| 0 <= m < items.len() ==> #[trigger] iv[m] == items@[m]@,
                    out@ == join(string_elements(iv.take(i as int)), ", "@),
                    any == (string_elements(iv.take(i as int)).len() > 0),
                decreases items.len() - i,
            {
                assert(iv.take(i + 1).drop_last() =~= iv.take(i as int));
                assert(iv.take(i + 1).last() == iv[i as int]);
                match &items[i] {
                    Json::String(t) => {
                        let ghost parts = string_elements(iv.take(i as int));
                        if any {
                            out.append(", ");
                        }
                        out.append(t.as_str());
                        any = true;
                        assert(parts.push(t@).drop_last() =~= parts);
                    },
                    _ => {},
                }
                i = i + 1;
            }
            assert(iv.take(i as int) =~= iv);
        },
        _ => {},
    }
    out
}

/// The line that lists one node.
pub fn node_line(node: &Json) -> (res: String)
    ensures
        res@ == node_line_value(node@),
{
    text_or_exec(node, "nodeId", "?").concat("  ").concat(
        text_or_exec(node, "displayName", "(unnamed)").as_str(),
    ).concat("  (").concat(text_or_exec(node, "platform", "?").as_str()).concat(")  caps=[").concat(
        caps_line(node).as_str(),
    ).concat("]")
}

/// The lines that list the nodes in a node list; `None` where the list is not an
/// array and is shown as it is.
pub fn listing_lines(nodes: &Json) -> (res: Option<Vec<String>>)
    ensures
        match res {
            Some(lines) => listing_value(nodes@) == Some(texts(lines@)),
            None => listing_value(nodes@) is None,
        },
{
    match nodes {
        Json::Array(items) => {
            let ghost iv = items_view(items@);
            proof {
                lemma_items_view_len_index(items@);
            }
            let mut lines: Vec<String> = Vec::new();
            if items.len() == 0 {
                lines.push(String::from_str("No nodes connected."));
                assert(texts(lines@) =~= seq!["No nodes connected."@]);
                return Some(lines);
            }
            let mut i: usize = 0;
            while i < items.len()
                invariant
                    0 <= i <= items.len(),
                    iv == items_view(items@),
                    iv.len() == items@.len(),
                    forall|m: int| 0 <= m < items.len() ==> #[trigger] iv[m] == items@[m]@,
                    texts(lines@) =~= iv.take(i as int).map_values(|n: JsonValue| node_line_value(n)),
                decreases items.len() - i,
            {
                let ghost before = lines@;
                let line = node_line(&items[i]);
                lines.push(line);
                assert(texts(lines@) =~= texts(before).push(line@));
                assert(iv.take(i + 1).map_values(|n: JsonValue| node_line_value(n)) =~= iv.take(
                    i as int,
                ).map_values(|n: JsonValue| node_line_value(n)).push(node_line_value(iv[i as int])));
                i = i + 1;
            }
            assert(iv.take(i as int) =~= iv);
            Some(lines)
        },
        _ => None,
    }
}

} // verus!
