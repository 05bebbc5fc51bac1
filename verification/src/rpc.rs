//! The MCP protocol over JSON-RPC 2.0: which requests are answered, and how.

use vstd::prelude::*;

use crate::json::{lookup, model_of, Json, JsonModel};
use crate::codec::{decode_data_url, error_text, standard_decode};
use crate::text::{decimal, push_decimal, same_text, second_field, starts_with};

verus! {

broadcast use vstd::string::group_string_axioms;

/// What the server does with one request.
#[derive(Debug, PartialEq)]
pub enum Reply {
    /// Answer with this message.
    Send(Json),
    /// Run the `snap` tool, then answer with [`snap_result`].
    Snap { id: Option<Json>, countdown: i64 },
    /// Answer nothing (a notification).
    Silent,
}

/// The meaning of a [`Reply`].
pub enum ReplyModel {
    Send(JsonModel),
    Snap { id: Option<JsonModel>, countdown: int },
    Silent,
}

impl Reply {
    pub open spec fn model(self) -> ReplyModel {
        match self {
            Reply::Send(j) => ReplyModel::Send(j.model()),
            Reply::Snap { id, countdown } => ReplyModel::Snap {
                id: model_of(id),
                countdown: countdown as int,
            },
            Reply::Silent => ReplyModel::Silent,
        }
    }
}

/// The `id` a response carries: the request's, or `null` when it had none.
pub open spec fn id_or_null(id: Option<JsonModel>) -> JsonModel {
    match id {
        Some(v) => v,
        None => JsonModel::Null,
    }
}

/// A JSON-RPC 2.0 response with the member `key` (`result` or `error`).
pub open spec fn envelope(id: Option<JsonModel>, key: Seq<char>, body: JsonModel) -> JsonModel {
    JsonModel::Object(
        seq![("jsonrpc"@, JsonModel::Str("2.0"@)), ("id"@, id_or_null(id)), (key, body)],
    )
}

/// A JSON-RPC 2.0 error response.
pub open spec fn error_response(id: Option<JsonModel>, code: int, message: Seq<char>) -> JsonModel {
    envelope(
        id,
        "error"@,
        JsonModel::Object(
            seq![("code"@, JsonModel::Num(code)), ("message"@, JsonModel::Str(message))],
        ),
    )
}

/// The result of `initialize`: protocol version, capabilities, server name and version.
pub open spec fn initialize_result() -> JsonModel {
    JsonModel::Object(
        seq![
            ("protocolVersion"@, JsonModel::Str("2024-11-05"@)),
            ("capabilities"@, JsonModel::Object(seq![("tools"@, JsonModel::Object(Seq::empty()))])),
            ("serverInfo"@, JsonModel::Object(
                seq![("name"@, JsonModel::Str("jidori-kun"@)), ("version"@, JsonModel::Str("0.1.0"@))],
            )),
        ],
    )
}

/// The description of the `snap` tool.
pub open spec fn snap_schema_model() -> JsonModel {
    JsonModel::Object(
        seq![
            ("name"@, JsonModel::Str("snap"@)),
            ("description"@, JsonModel::Str(
                "Count down and capture a webcam photo to use as a pose reference for image generation. Shows the app window; the person poses; returns the captured PNG."@,
            )),
            ("inputSchema"@, JsonModel::Object(
                seq![
                    ("type"@, JsonModel::Str("object"@)),
                    ("properties"@, JsonModel::Object(
                        seq![("countdown"@, JsonModel::Object(
                            seq![
                                ("type"@, JsonModel::Str("integer"@)),
                                ("description"@, JsonModel::Str("seconds before capture (default 3)"@)),
                            ],
                        ))],
                    )),
                ],
            )),
        ],
    )
}

/// The result of `tools/list`: the one tool, `snap`.
pub open spec fn tools_list_result() -> JsonModel {
    JsonModel::Object(seq![("tools"@, JsonModel::Array(seq![snap_schema_model()]))])
}

/// The member `key` of an optional value.
pub open spec fn get_in(v: Option<JsonModel>, key: Seq<char>) -> Option<JsonModel> {
    match v {
        Some(j) => j.get(key),
        None => None,
    }
}

/// The text of the member `key` of an optional value, or empty text.
pub open spec fn text_in(v: Option<JsonModel>, key: Seq<char>) -> Seq<char> {
    match get_in(v, key) {
        Some(j) => match j.as_str() {
            Some(s) => s,
            None => Seq::empty(),
        },
        None => Seq::empty(),
    }
}

/// The requested countdown: `params.arguments.countdown` when it is an
/// integer that fits in `i64`, else 3.
pub open spec fn countdown_of(params: Option<JsonModel>) -> int {
    match get_in(get_in(params, "arguments"@), "countdown"@) {
        Some(c) => match c.as_i64() {
            Some(n) => n,
            None => 3,
        },
        None => 3,
    }
}

/// What a `tools/call` request with these `params` leads to.
pub open spec fn call_reply(id: Option<JsonModel>, params: Option<JsonModel>) -> ReplyModel {
    let name = text_in(params, "name"@);
    if name != "snap"@ {
        ReplyModel::Send(error_response(id, -32602, "unknown tool: "@ + name))
    } else {
        ReplyModel::Snap { id, countdown: countdown_of(params) }
    }
}

/// What the server does with the request `req`.
pub open spec fn reply_to(req: JsonModel) -> ReplyModel {
    let id = req.get("id"@);
    let method = text_in(Some(req), "method"@);
    if method == "initialize"@ {
        ReplyModel::Send(envelope(id, "result"@, initialize_result()))
    } else if method == "tools/list"@ {
        ReplyModel::Send(envelope(id, "result"@, tools_list_result()))
    } else if method == "tools/call"@ {
        call_reply(id, req.get("params"@))
    } else if id is None || "notifications/"@.is_prefix_of(method) {
        ReplyModel::Silent
    } else {
        ReplyModel::Send(error_response(id, -32601, "method not found"@))
    }
}

/// The response to a `snap` call, from what the capture gave: the saved
/// file's path and the Base64 image, or an error message.
pub open spec fn snap_response(
    id: Option<JsonModel>,
    outcome: Result<(Seq<char>, Seq<char>), Seq<char>>,
) -> JsonModel {
    match outcome {
        Ok((path, image)) => envelope(
            id,
            "result"@,
            JsonModel::Object(
                seq![("content"@, JsonModel::Array(
                    seq![
                        JsonModel::Object(
                            seq![
                                ("type"@, JsonModel::Str("text"@)),
                                ("text"@, JsonModel::Str("Captured pose reference: "@ + path)),
                            ],
                        ),
                        JsonModel::Object(
                            seq![
                                ("type"@, JsonModel::Str("image"@)),
                                ("data"@, JsonModel::Str(image)),
                                ("mimeType"@, JsonModel::Str("image/png"@)),
                            ],
                        ),
                    ],
                ))],
            ),
        ),
        Err(e) => envelope(
            id,
            "result"@,
            JsonModel::Object(
                seq![
                    ("content"@, JsonModel::Array(
                        seq![
                            JsonModel::Object(
                                seq![
                                    ("type"@, JsonModel::Str("text"@)),
                                    ("text"@, JsonModel::Str("snap failed: "@ + e)),
                                ],
                            ),
                        ],
                    )),
                    ("isError"@, JsonModel::Bool(true)),
                ],
            ),
        ),
    }
}

/// The payload of the event that asks the webview for a capture.
pub open spec fn snap_event_model(id: u64, countdown: i64) -> JsonModel {
    JsonModel::Object(
        seq![("id"@, JsonModel::Num(id as int)), ("countdown"@, JsonModel::Num(countdown as int))],
    )
}

/// The name of the file that keeps capture `id`.
pub open spec fn pose_file(id: u64) -> Seq<char> {
    "pose-"@ + decimal(id as nat) + ".png"@
}

/// A captured frame ready to be kept: the file name, the Base64 image as
/// the webview sent it, and the PNG bytes.
#[derive(Debug, PartialEq)]
pub struct PoseFile {
    pub name: String,
    pub image: String,
    pub bytes: Vec<u8>,
}

/// What becomes of capture `id` once the wait for its frame has ended:
/// with no frame, the wait timed out; with one, the frame's data URL is
/// decoded, or its decoding error is reported.
pub open spec fn frame_outcome(id: u64, frame: Option<Seq<char>>) -> Result<
    (Seq<char>, Seq<char>, Seq<u8>),
    Seq<char>,
> {
    match frame {
        None => Err("timed out waiting for webview capture"@),
        Some(url) => match standard_decode(second_field(url)) {
            Ok(bytes) => Ok((pose_file(id), second_field(url), bytes)),
            Err(e) => Err(error_text(e)),
        },
    }
}

/// Decides what to keep of capture `id` from the frame the webview sent,
/// `None` when none came in time.
pub fn receive_frame(id: u64, frame: Option<String>) -> (r: Result<PoseFile, String>)
    ensures
        match (
            frame_outcome(
                id,
                match frame {
                    Some(f) => Some(f@),
                    None => None,
                },
            ),
            r,
        ) {
            (Ok((name, image, bytes)), Ok(p)) => p.name@ == name && p.image@ == image && p.bytes@
                == bytes,
            (Err(m), Err(e)) => e@ == m,
            _ => false,
        },
{
    match frame {
        None => Err(String::from_str("timed out waiting for webview capture")),
        Some(url) => match decode_data_url(url.as_str()) {
            Ok(payload) => {
                let mut name = String::from_str("pose-");
                push_decimal(&mut name, id);
                name.append(".png");
                Ok(PoseFile { name, image: payload.text, bytes: payload.bytes })
            },
            Err(m) => Err(m),
        },
    }
}

fn id_json(id: Option<Json>) -> (j: Json)
    ensures
        j.model() == id_or_null(model_of(id)),
{
    match id {
        Some(v) => v,
        None => Json::Null,
    }
}

fn respond(id: Option<Json>, key: &str, body: Json) -> (j: Json)
    ensures
        j.model() == envelope(model_of(id), key@, body.model()),
{
    Json::object3("jsonrpc", Json::text("2.0"), "id", id_json(id), key, body)
}

fn respond_error(id: Option<Json>, code: i64, message: String) -> (j: Json)
    ensures
        j.model() == error_response(model_of(id), code as int, message@),
{
    let body = Json::object2("code", Json::Int(code), "message", Json::Str(message));
    respond(id, "error", body)
}

fn initialize_json() -> (j: Json)
    ensures
        j.model() == initialize_result(),
{
    let tools = Json::object1("tools", Json::empty_object());
    let info = Json::object2("name", Json::text("jidori-kun"), "version", Json::text("0.1.0"));
    Json::object3("protocolVersion", Json::text("2024-11-05"), "capabilities", tools, "serverInfo", info)
}

/// The description of the `snap` tool that `tools/list` returns.
pub fn snap_schema() -> (j: Json)
    ensures
        j.model() == snap_schema_model(),
{
    let countdown = Json::object2(
        "type",
        Json::text("integer"),
        "description",
        Json::text("seconds before capture (default 3)"),
    );
    let properties = Json::object1("countdown", countdown);
    let input = Json::object2("type", Json::text("object"), "properties", properties);
    Json::object3(
        "name",
        Json::text("snap"),
        "description",
        Json::text(
            "Count down and capture a webcam photo to use as a pose reference for image generation. Shows the app window; the person poses; returns the captured PNG.",
        ),
        "inputSchema",
        input,
    )
}

fn text_or_empty(v: Option<&Json>) -> (s: &str)
    ensures
        s@ == match v {
            Some(j) => match j.model().as_str() {
                Some(t) => t,
                None => Seq::empty(),
            },
            None => Seq::<char>::empty(),
        },
{
    proof {
        reveal_strlit("");
    }
    match v {
        Some(j) => match j.as_str() {
            Some(s) => s.as_str(),
            None => "",
        },
        None => "",
    }
}

fn clone_opt(v: Option<&Json>) -> (c: Option<Json>)
    ensures
        model_of(c) == match v {
            Some(j) => Some(j.model()),
            None => None,
        },
{
    match v {
        Some(j) => Some(j.deep_clone()),
        None => None,
    }
}

/// Decides a `tools/call` request: an error for any tool but `snap`, else
/// the capture to run with the requested countdown.
pub fn handle_call(id: Option<Json>, params: Option<&Json>) -> (r: Reply)
    ensures
        r.model() == call_reply(
            model_of(id),
            match params {
                Some(p) => Some(p.model()),
                None => None,
            },
        ),
{
    let name_value = match params {
        Some(p) => p.get("name"),
        None => None,
    };
    let name = text_or_empty(name_value);
    if !same_text(name, "snap") {
        let mut message = String::from_str("unknown tool: ");
        message.append(name);
        return Reply::Send(respond_error(id, -32602, message));
    }
    let arguments = match params {
        Some(p) => p.get("arguments"),
        None => None,
    };
    let countdown_value = match arguments {
        Some(a) => a.get("countdown"),
        None => None,
    };
    let countdown = match countdown_value {
        Some(c) => match c.as_i64() {
            Some(n) => n,
            None => 3,
        },
        None => 3,
    };
    Reply::Snap { id, countdown }
}

/// Decides what to do with one JSON-RPC request.
pub fn handle(req: &Json) -> (r: Reply)
    ensures
        r.model() == reply_to(req.model()),
{
    let id = clone_opt(req.get("id"));
    let method = text_or_empty(req.get("method"));
    if same_text(method, "initialize") {
        Reply::Send(respond(id, "result", initialize_json()))
    } else if same_text(method, "tools/list") {
        let tools = Json::object1("tools", Json::array1(snap_schema()));
        Reply::Send(respond(id, "result", tools))
    } else if same_text(method, "tools/call") {
        handle_call(id, req.get("params"))
    } else if id.is_none() || starts_with(method, "notifications/") {
        Reply::Silent
    } else {
        Reply::Send(respond_error(id, -32601, String::from_str("method not found")))
    }
}

/// The response to a `snap` call once the capture has ended.
pub fn snap_result(id: Option<Json>, outcome: Result<(String, String), String>) -> (j: Json)
    ensures
        j.model() == snap_response(
            model_of(id),
            match outcome {
                Ok((p, b)) => Ok((p@, b@)),
                Err(e) => Err(e@),
            },
        ),
{
    match outcome {
        Ok((path, image)) => {
            let mut caption = String::from_str("Captured pose reference: ");
            caption.append(path.as_str());
            let text = Json::object2("type", Json::text("text"), "text", Json::Str(caption));
            let picture = Json::object3(
                "type",
                Json::text("image"),
                "data",
                Json::Str(image),
                "mimeType",
                Json::text("image/png"),
            );
            let body = Json::object1("content", Json::array2(text, picture));
            respond(id, "result", body)
        },
        Err(e) => {
            let mut message = String::from_str("snap failed: ");
            message.append(e.as_str());
            let text = Json::object2("type", Json::text("text"), "text", Json::Str(message));
            let body = Json::object2(
                "content",
                Json::array1(text),
                "isError",
                Json::Bool(true),
            );
            respond(id, "result", body)
        },
    }
}

/// The payload of the `mcp-snap` event for capture `id`.
pub fn snap_event(id: u64, countdown: i64) -> (j: Json)
    ensures
        j.model() == snap_event_model(id, countdown),
{
    Json::object2("id", Json::UInt(id), "countdown", Json::Int(countdown))
}


/// Every JSON-RPC response names protocol version 2.0 and carries the
/// request's id, `null` when the request had none.
pub proof fn envelope_names_version_and_id(id: Option<JsonModel>, key: Seq<char>, body: JsonModel)
    ensures
        envelope(id, key, body).get("jsonrpc"@) == Some(JsonModel::Str("2.0"@)),
        envelope(id, key, body).get("id"@) == Some(id_or_null(id)),
{
    reveal_strlit("jsonrpc");
    reveal_strlit("id");
    let members = envelope(id, key, body)->Object_0;
    assert("jsonrpc"@.len() != "id"@.len());
    assert(members[0].0 != "id"@);
    assert(members.drop_first()[0] == ("id"@, id_or_null(id)));
    assert(lookup(members.drop_first(), "id"@) == Some(id_or_null(id)));
}

/// Whatever request comes in, an answer sent for it at once is a JSON-RPC
/// 2.0 response with the request's id; a capture is run for the request's
/// id; and a request goes unanswered exactly when it is a notification:
/// its method is none that the server knows, and it has no id or its
/// method starts with `notifications/`.
pub proof fn replies_follow_json_rpc(req: JsonModel)
    ensures
        match reply_to(req) {
            ReplyModel::Send(r) => {
                &&& r.get("jsonrpc"@) == Some(JsonModel::Str("2.0"@))
                &&& r.get("id"@) == Some(id_or_null(req.get("id"@)))
            },
            ReplyModel::Snap { id, countdown } => id == req.get("id"@),
            ReplyModel::Silent => true,
        },
        (reply_to(req) is Silent) <==> {
            let method = text_in(Some(req), "method"@);
            &&& method != "initialize"@
            &&& method != "tools/list"@
            &&& method != "tools/call"@
            &&& (req.get("id"@) is None || "notifications/"@.is_prefix_of(method))
        },
{
    let id = req.get("id"@);
    let method = text_in(Some(req), "method"@);
    if method == "initialize"@ {
        envelope_names_version_and_id(id, "result"@, initialize_result());
    } else if method == "tools/list"@ {
        envelope_names_version_and_id(id, "result"@, tools_list_result());
    } else if method == "tools/call"@ {
        let params = req.get("params"@);
        let name = text_in(params, "name"@);
        envelope_names_version_and_id(
            id,
            "error"@,
            JsonModel::Object(
                seq![("code"@, JsonModel::Num(-32602)), ("message"@, JsonModel::Str("unknown tool: "@ + name))],
            ),
        );
    } else {
        envelope_names_version_and_id(
            id,
            "error"@,
            JsonModel::Object(
                seq![("code"@, JsonModel::Num(-32601)), ("message"@, JsonModel::Str("method not found"@))],
            ),
        );
    }
}

/// The response to a capture is a JSON-RPC 2.0 result with the request's
/// id, whether the capture succeeded or failed.
pub proof fn snap_responses_follow_json_rpc(
    id: Option<JsonModel>,
    outcome: Result<(Seq<char>, Seq<char>), Seq<char>>,
)
    ensures
        snap_response(id, outcome).get("jsonrpc"@) == Some(JsonModel::Str("2.0"@)),
        snap_response(id, outcome).get("id"@) == Some(id_or_null(id)),
        snap_response(id, outcome).get("result"@) is Some,
{
    let r = snap_response(id, outcome);
    envelope_names_version_and_id(id, "result"@, r->Object_0[2].1);
    reveal_strlit("jsonrpc");
    reveal_strlit("id");
    reveal_strlit("result");
    let members = r->Object_0;
    assert("jsonrpc"@.len() != "result"@.len());
    assert("id"@.len() != "result"@.len());
    assert(members[0].0 != "result"@);
    assert(members.drop_first()[0].0 != "result"@);
    assert(members.drop_first().drop_first()[0].0 == "result"@);
    assert(lookup(members.drop_first().drop_first(), "result"@) is Some);
    assert(lookup(members.drop_first(), "result"@) is Some);
}

/// `tools/list` advertises one tool, `snap`, and `tools/call` for `snap`
/// always runs the capture: with the requested countdown when it is an
/// integer, else with 3.
pub proof fn snap_is_the_tool(id: Option<JsonModel>, params: Option<JsonModel>)
    ensures
        tools_list_result().get("tools"@) == Some(JsonModel::Array(seq![snap_schema_model()])),
        snap_schema_model().get("name"@) == Some(JsonModel::Str("snap"@)),
        text_in(params, "name"@) == "snap"@ ==> call_reply(id, params) == (ReplyModel::Snap {
            id,
            countdown: countdown_of(params),
        }),
        get_in(get_in(params, "arguments"@), "countdown"@) is None ==> countdown_of(params) == 3,
{
}


/// A `tools/call` of `snap` whose `arguments.countdown` is an integer `n`
/// in the range of `i64` runs the capture with countdown exactly `n`, for
/// every such `n`; with no `arguments`, or no `countdown` in them, it uses 3.
pub proof fn snap_call_uses_requested_countdown(req: JsonModel, params: JsonModel, n: int)
    requires
        req.get("method"@) == Some(JsonModel::Str("tools/call"@)),
        req.get("params"@) == Some(params),
        params.get("name"@) == Some(JsonModel::Str("snap"@)),
    ensures
        params.get("arguments"@) matches Some(args) && args.get("countdown"@) == Some(
            JsonModel::Num(n),
        ) && i64::MIN <= n <= i64::MAX ==> reply_to(req) == (ReplyModel::Snap {
            id: req.get("id"@),
            countdown: n,
        }),
        params.get("arguments"@) is None ==> reply_to(req) == (ReplyModel::Snap {
            id: req.get("id"@),
            countdown: 3,
        }),
        params.get("arguments"@) matches Some(args) && args.get("countdown"@) is None ==> reply_to(
            req,
        ) == (ReplyModel::Snap { id: req.get("id"@), countdown: 3 }),
{
    reveal_strlit("tools/call");
    reveal_strlit("initialize");
    reveal_strlit("tools/list");
    assert("tools/call"@ != "initialize"@) by {
        assert("tools/call"@[0] != "initialize"@[0]);
    }
    assert("tools/call"@ != "tools/list"@) by {
        assert("tools/call"@.len() != "tools/list"@.len() || "tools/call"@[6] != "tools/list"@[6]);
    }
}

/// `initialize` is answered with the one protocol version the server
/// speaks, 2024-11-05, whatever the request's params hold: two
/// `initialize` requests with the same id get the same answer.
pub proof fn initialize_answers_its_own_version(req: JsonModel, other: JsonModel)
    requires
        req.get("method"@) == Some(JsonModel::Str("initialize"@)),
        other.get("method"@) == Some(JsonModel::Str("initialize"@)),
        other.get("id"@) == req.get("id"@),
    ensures
        reply_to(req) matches ReplyModel::Send(r) && r.get("result"@) matches Some(result)
            && result.get("protocolVersion"@) == Some(JsonModel::Str("2024-11-05"@)),
        reply_to(req) == reply_to(other),
{
    let id = req.get("id"@);
    let r = envelope(id, "result"@, initialize_result());
    assert(reply_to(req) == ReplyModel::Send(r));
    reveal_strlit("jsonrpc");
    reveal_strlit("id");
    reveal_strlit("result");
    assert("jsonrpc"@.len() != "result"@.len());
    assert("id"@.len() != "result"@.len());
    let members = r->Object_0;
    assert(members[0].0 != "result"@);
    assert(members.drop_first()[0].0 != "result"@);
    assert(members.drop_first().drop_first()[0] == ("result"@, initialize_result()));
    assert(lookup(members.drop_first().drop_first(), "result"@) == Some(initialize_result()));
    assert(lookup(members.drop_first(), "result"@) == Some(initialize_result()));
    assert(r.get("result"@) == Some(initialize_result()));
}

} // verus!
