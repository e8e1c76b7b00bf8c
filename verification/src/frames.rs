use vstd::prelude::*;

use crate::json::{fields_view, items_view, push_item, push_member, Json, JsonNumber, JsonValue, NumberValue};
use crate::runner::{texts, NodeConfig};

verus! {

/// The protocol version that the node speaks.
pub const PROTOCOL_VERSION: u64 = 4;

/// Text documents for each of the given texts.
pub open spec fn text_values(s: Seq<Seq<char>>) -> Seq<JsonValue> {
    s.map_values(|t: Seq<char>| JsonValue::Text(t))
}

/// The reply that carries the outcome of an invoke request: its `result` is the
/// command's result, or an object whose `error` member holds the failure.
pub open spec fn invoke_reply_value(
    frame_id: Seq<char>,
    invoke_id: Seq<char>,
    result: Result<JsonValue, Seq<char>>,
) -> JsonValue {
    JsonValue::Object(
        seq![
            ("type"@, JsonValue::Text("req"@)),
            ("id"@, JsonValue::Text(frame_id)),
            ("method"@, JsonValue::Text("node.invoke.result"@)),
            (
                "params"@,
                JsonValue::Object(
                    seq![
                        ("invokeId"@, JsonValue::Text(invoke_id)),
                        ("result"@, result_value(result)),
                    ],
                ),
            ),
        ],
    )
}

/// What a reply carries as its `result`.
pub open spec fn result_value(result: Result<JsonValue, Seq<char>>) -> JsonValue {
    match result {
        Ok(v) => v,
        Err(m) => JsonValue::Object(seq![("error"@, JsonValue::Text(m))]),
    }
}

/// The `client` part of the connect request.
pub open spec fn client_value(config: NodeConfig, version: Seq<char>) -> JsonValue {
    JsonValue::Object(
        seq![("id"@, JsonValue::Text(config.node_id@))] + match config.display_name {
            Some(n) => seq![("displayName"@, JsonValue::Text(n@))],
            None => Seq::empty(),
        } + seq![
            ("version"@, JsonValue::Text(version)),
            ("platform"@, JsonValue::Text(config.platform@)),
            ("mode"@, JsonValue::Text("headless"@)),
        ],
    )
}

/// The parameters of the connect request.
pub open spec fn connect_params_value(config: NodeConfig, version: Seq<char>) -> JsonValue {
    let v = JsonValue::Number(NumberValue::PosInt(PROTOCOL_VERSION));
    JsonValue::Object(
        seq![
            ("protocol"@, JsonValue::Object(seq![("min"@, v), ("max"@, v)])),
            ("client"@, client_value(config, version)),
            ("role"@, JsonValue::Text("node"@)),
            ("auth"@, JsonValue::Object(seq![("deviceToken"@, JsonValue::Text(config.device_token@))])),
            (
                "extensions"@,
                JsonValue::Object(
                    seq![
                        (
                            "moltis"@,
                            JsonValue::Object(
                                seq![
                                    ("caps"@, JsonValue::Array(text_values(texts(config.caps@)))),
                                    (
                                        "commands"@,
                                        JsonValue::Array(text_values(texts(config.commands@))),
                                    ),
                                ],
                            ),
                        ),
                    ],
                ),
            ),
        ],
    )
}

/// The request that registers the node with the gateway.
pub open spec fn connect_request_value(
    request_id: Seq<char>,
    config: NodeConfig,
    version: Seq<char>,
) -> JsonValue {
    JsonValue::Object(
        seq![
            ("type"@, JsonValue::Text("req"@)),
            ("id"@, JsonValue::Text(request_id)),
            ("method"@, JsonValue::Text("connect"@)),
            ("params"@, connect_params_value(config, version)),
        ],
    )
}

/// An array of string documents.
pub fn text_array(items: &Vec<String>) -> (res: Json)
    ensures
        res@ == JsonValue::Array(text_values(texts(items@))),
{
    let mut out: Vec<Json> = Vec::new();
    let mut i: usize = 0;
    while i < items.len()
        invariant
            0 <= i <= items.len(),
            items_view(out@) == text_values(texts(items@.take(i as int))),
        decreases items.len() - i,
    {
        push_item(&mut out, Json::String(items[i].clone()));
        assert(texts(items@.take(i + 1)) =~= texts(items@.take(i as int)).push(items@[i as int]@));
        assert(text_values(texts(items@.take(i + 1))) =~= text_values(texts(items@.take(i as int))).push(
            JsonValue::Text(items@[i as int]@),
        ));
        i = i + 1;
    }
    assert(items@.take(i as int) =~= items@);
    Json::Array(out)
}

/// An object with one member.
pub fn object1(k1: &str, v1: Json) -> (res: Json)
    ensures
        res@ == JsonValue::Object(seq![(k1@, v1@)]),
{
    let mut f: Vec<(String, Json)> = Vec::new();
    push_member(&mut f, k1, v1);
    assert(fields_view(f@) =~= seq![(k1@, v1@)]);
    Json::Object(f)
}

/// An object with two members.
pub fn object2(k1: &str, v1: Json, k2: &str, v2: Json) -> (res: Json)
    ensures
        res@ == JsonValue::Object(seq![(k1@, v1@), (k2@, v2@)]),
{
    let ghost (w1, w2) = (v1@, v2@);
    let mut f: Vec<(String, Json)> = Vec::new();
    push_member(&mut f, k1, v1);
    push_member(&mut f, k2, v2);
    assert(fields_view(f@) =~= seq![(k1@, w1), (k2@, w2)]);
    Json::Object(f)
}

/// An object with four members.
pub fn object4(k1: &str, v1: Json, k2: &str, v2: Json, k3: &str, v3: Json, k4: &str, v4: Json) -> (res: Json)
    ensures
        res@ == JsonValue::Object(seq![(k1@, v1@), (k2@, v2@), (k3@, v3@), (k4@, v4@)]),
{
    let ghost (w1, w2, w3, w4) = (v1@, v2@, v3@, v4@);
    let mut f: Vec<(String, Json)> = Vec::new();
    push_member(&mut f, k1, v1);
    push_member(&mut f, k2, v2);
    push_member(&mut f, k3, v3);
    push_member(&mut f, k4, v4);
    assert(fields_view(f@) =~= seq![(k1@, w1), (k2@, w2), (k3@, w3), (k4@, w4)]);
    Json::Object(f)
}

/// Builds the reply to the invoke request `invoke_id`, sent under the request id
/// `frame_id`.
pub fn invoke_reply(frame_id: &str, invoke_id: &str, result: Result<Json, String>) -> (res: Json)
    ensures
        res@ == invoke_reply_value(
            frame_id@,
            invoke_id@,
            match result {
                Ok(v) => Ok(v@),
                Err(m) => Err(m@),
            },
        ),
{
    let result_doc = match result {
        Ok(v) => v,
        Err(m) => object1("error", Json::String(m)),
    };
    let params = object2("invokeId", Json::text(invoke_id), "result", result_doc);
    object4(
        "type",
        Json::text("req"),
        "id",
        Json::text(frame_id),
        "method",
        Json::text("node.invoke.result"),
        "params",
        params,
    )
}

/// Builds the request that registers the node with the gateway, under the
/// request id `request_id`; `version` is the node software's version.
pub fn connect_request(request_id: &str, config: &NodeConfig, version: &str) -> (res: Json)
    ensures
        res@ == connect_request_value(request_id@, *config, version@),
{
    let mut client: Vec<(String, Json)> = Vec::new();
    push_member(&mut client, "id", Json::String(config.node_id.clone()));
    let ghost after_id = fields_view(client@);
    match &config.display_name {
        Some(n) => push_member(&mut client, "displayName", Json::String(n.clone())),
        None => {},
    }
    let ghost after_name = fields_view(client@);
    push_member(&mut client, "version", Json::text(version));
    push_member(&mut client, "platform", Json::String(config.platform.clone()));
    push_member(&mut client, "mode", Json::text("headless"));
    let ghost all = fields_view(client@);
    assert(all == client_value(*config, version@)->Object_0) by {
        let name_part: Seq<(Seq<char>, JsonValue)> = match config.display_name {
            Some(n) => seq![("displayName"@, JsonValue::Text(n@))],
            None => Seq::empty(),
        };
        assert(after_name =~= seq![("id"@, JsonValue::Text(config.node_id@))] + name_part);
        assert(all =~= seq![("id"@, JsonValue::Text(config.node_id@))] + name_part + seq![
            ("version"@, JsonValue::Text(version@)),
            ("platform"@, JsonValue::Text(config.platform@)),
            ("mode"@, JsonValue::Text("headless"@)),
        ]);
    }
    let client_doc = Json::Object(client);
    let protocol = object2(
        "min",
        Json::Number(JsonNumber::PosInt(PROTOCOL_VERSION)),
        "max",
        Json::Number(JsonNumber::PosInt(PROTOCOL_VERSION)),
    );
    let auth = object1("deviceToken", Json::String(config.device_token.clone()));
    let moltis = object2("caps", text_array(&config.caps), "commands", text_array(&config.commands));
    let extensions = object1("moltis", moltis);
    let ghost (wp, wc, wa, we) = (protocol@, client_doc@, auth@, extensions@);
    let mut params: Vec<(String, Json)> = Vec::new();
    push_member(&mut params, "protocol", protocol);
    push_member(&mut params, "client", client_doc);
    push_member(&mut params, "role", Json::text("node"));
    push_member(&mut params, "auth", auth);
    push_member(&mut params, "extensions", extensions);
    assert(fields_view(params@) =~= seq![
        ("protocol"@, wp),
        ("client"@, wc),
        ("role"@, JsonValue::Text("node"@)),
        ("auth"@, wa),
        ("extensions"@, we),
    ]);
    object4(
        "type",
        Json::text("req"),
        "id",
        Json::text(request_id),
        "method",
        Json::text("connect"),
        "params",
        Json::Object(params),
    )
}

} // verus!
