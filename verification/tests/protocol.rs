use base64::Engine;
use jidori_kun::json::Json;
use jidori_kun::rpc::{handle, handle_call, receive_frame, snap_event, snap_result, snap_schema, PoseFile, Reply};

fn s(t: &str) -> Json {
    Json::Str(t.to_string())
}

fn obj(members: Vec<(&str, Json)>) -> Json {
    Json::Object(members.into_iter().map(|(k, v)| (k.to_string(), v)).collect())
}

fn request(method: &str, id: Option<Json>, params: Option<Json>) -> Json {
    let mut m = vec![("jsonrpc", s("2.0")), ("method", s(method))];
    if let Some(id) = id {
        m.push(("id", id));
    }
    if let Some(p) = params {
        m.push(("params", p));
    }
    obj(m)
}

fn envelope(id: Json, key: &str, body: Json) -> Json {
    obj(vec![("jsonrpc", s("2.0")), ("id", id), (key, body)])
}

fn schema() -> Json {
    obj(vec![
        ("name", s("snap")),
        (
            "description",
            s("Count down and capture a webcam photo to use as a pose reference for image generation. Shows the app window; the person poses; returns the captured PNG."),
        ),
        (
            "inputSchema",
            obj(vec![
                ("type", s("object")),
                (
                    "properties",
                    obj(vec![(
                        "countdown",
                        obj(vec![
                            ("type", s("integer")),
                            ("description", s("seconds before capture (default 3)")),
                        ]),
                    )]),
                ),
            ]),
        ),
    ])
}

#[test]
fn initialize_names_the_server() {
    let r = handle(&request("initialize", Some(Json::Int(1)), None));
    let result = obj(vec![
        ("protocolVersion", s("2024-11-05")),
        ("capabilities", obj(vec![("tools", obj(vec![]))])),
        ("serverInfo", obj(vec![("name", s("jidori-kun")), ("version", s("0.1.0"))])),
    ]);
    assert_eq!(r, Reply::Send(envelope(Json::Int(1), "result", result)));
}

#[test]
fn initialize_without_id_is_still_answered() {
    let r = handle(&request("initialize", None, None));
    match r {
        Reply::Send(Json::Object(m)) => assert_eq!(m[1], ("id".to_string(), Json::Null)),
        other => panic!("unexpected {other:?}"),
    }
}

#[test]
fn tools_list_offers_snap() {
    let r = handle(&request("tools/list", Some(s("a")), None));
    let result = obj(vec![("tools", Json::Array(vec![schema()]))]);
    assert_eq!(r, Reply::Send(envelope(s("a"), "result", result)));
    assert_eq!(snap_schema(), schema());
}

#[test]
fn snap_call_runs_capture_with_countdown() {
    let params = obj(vec![("name", s("snap")), ("arguments", obj(vec![("countdown", Json::Int(5))]))]);
    let r = handle(&request("tools/call", Some(Json::Int(7)), Some(params)));
    assert_eq!(r, Reply::Snap { id: Some(Json::Int(7)), countdown: 5 });
}

#[test]
fn bare_tools_call_needs_no_initialize() {
    let params = obj(vec![("name", s("snap")), ("arguments", obj(vec![("countdown", Json::UInt(5))]))]);
    let r = handle(&request("tools/call", Some(Json::Int(1)), Some(params)));
    assert_eq!(r, Reply::Snap { id: Some(Json::Int(1)), countdown: 5 });
}

#[test]
fn countdown_defaults_to_three() {
    let cases = vec![
        obj(vec![("name", s("snap"))]),
        obj(vec![("name", s("snap")), ("arguments", obj(vec![]))]),
        obj(vec![("name", s("snap")), ("arguments", obj(vec![("countdown", s("5"))]))]),
        obj(vec![("name", s("snap")), ("arguments", obj(vec![("countdown", Json::Fraction("2.5".to_string()))]))]),
        obj(vec![("name", s("snap")), ("arguments", obj(vec![("countdown", Json::UInt(u64::MAX))]))]),
    ];
    for p in cases {
        assert_eq!(handle_call(None, Some(&p)), Reply::Snap { id: None, countdown: 3 });
    }
}

#[test]
fn negative_countdown_is_passed_on() {
    let p = obj(vec![("name", s("snap")), ("arguments", obj(vec![("countdown", Json::Int(-2))]))]);
    assert_eq!(handle_call(None, Some(&p)), Reply::Snap { id: None, countdown: -2 });
}

#[test]
fn unknown_tool_is_an_error() {
    let params = obj(vec![("name", s("paint"))]);
    let r = handle(&request("tools/call", Some(Json::Int(2)), Some(params)));
    let err = obj(vec![("code", Json::Int(-32602)), ("message", s("unknown tool: paint"))]);
    assert_eq!(r, Reply::Send(envelope(Json::Int(2), "error", err)));
    let r = handle(&request("tools/call", Some(Json::Int(3)), None));
    let err = obj(vec![("code", Json::Int(-32602)), ("message", s("unknown tool: "))]);
    assert_eq!(r, Reply::Send(envelope(Json::Int(3), "error", err)));
}

#[test]
fn notifications_get_no_answer() {
    assert_eq!(handle(&request("notifications/initialized", None, None)), Reply::Silent);
    assert_eq!(handle(&request("notifications/cancelled", Some(Json::Int(4)), None)), Reply::Silent);
    assert_eq!(handle(&request("ping", None, None)), Reply::Silent);
    assert_eq!(handle(&Json::Array(vec![])), Reply::Silent);
}

#[test]
fn unknown_method_with_id_is_an_error() {
    let err = obj(vec![("code", Json::Int(-32601)), ("message", s("method not found"))]);
    assert_eq!(
        handle(&request("ping", Some(Json::Int(9)), None)),
        Reply::Send(envelope(Json::Int(9), "error", err))
    );
    let err = obj(vec![("code", Json::Int(-32601)), ("message", s("method not found"))]);
    assert_eq!(
        handle(&request("ping", Some(Json::Null), None)),
        Reply::Send(envelope(Json::Null, "error", err))
    );
}

#[test]
fn method_that_is_not_text_counts_as_empty() {
    let req = obj(vec![("method", Json::Int(1)), ("id", Json::Int(1))]);
    let err = obj(vec![("code", Json::Int(-32601)), ("message", s("method not found"))]);
    assert_eq!(handle(&req), Reply::Send(envelope(Json::Int(1), "error", err)));
}

#[test]
fn snap_result_carries_text_and_image() {
    let r = snap_result(Some(Json::Int(1)), Ok(("/tmp/jidori-kun/pose-1.png".to_string(), "QUJD".to_string())));
    let body = obj(vec![(
        "content",
        Json::Array(vec![
            obj(vec![("type", s("text")), ("text", s("Captured pose reference: /tmp/jidori-kun/pose-1.png"))]),
            obj(vec![("type", s("image")), ("data", s("QUJD")), ("mimeType", s("image/png"))]),
        ]),
    )]);
    assert_eq!(r, envelope(Json::Int(1), "result", body));
}

#[test]
fn failed_snap_is_a_tool_error() {
    let r = snap_result(None, Err("timed out waiting for webview capture".to_string()));
    let body = obj(vec![
        (
            "content",
            Json::Array(vec![obj(vec![
                ("type", s("text")),
                ("text", s("snap failed: timed out waiting for webview capture")),
            ])]),
        ),
        ("isError", Json::Bool(true)),
    ]);
    assert_eq!(r, envelope(Json::Null, "result", body));
}

#[test]
fn capture_event_payload() {
    assert_eq!(snap_event(4, 3), obj(vec![("id", Json::UInt(4)), ("countdown", Json::Int(3))]));
}

#[test]
fn frames_become_pose_files() {
    assert_eq!(
        receive_frame(12, Some("data:image/png;base64,aGVsbG8=".to_string())),
        Ok(PoseFile { name: "pose-12.png".to_string(), image: "aGVsbG8=".to_string(), bytes: b"hello".to_vec() })
    );
    assert_eq!(receive_frame(1, None), Err("timed out waiting for webview capture".to_string()));
    let expected = base64::engine::general_purpose::STANDARD.decode("@@@@").unwrap_err().to_string();
    assert_eq!(receive_frame(1, Some("data:,@@@@".to_string())), Err(expected));
}

#[test]
fn deep_clone_keeps_the_value() {
    let v = obj(vec![("a", Json::Array(vec![Json::Null, Json::Bool(false), Json::Fraction("1.5".into())])), ("b", Json::UInt(3))]);
    assert_eq!(v.deep_clone(), v);
    assert_eq!(v.get("b"), Some(&Json::UInt(3)));
    assert_eq!(v.get("c"), None);
    assert_eq!(Json::Int(-1).as_i64(), Some(-1));
}
