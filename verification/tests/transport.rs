use jidori_kun::http::{deliver_response, malformed_json, screen, skip_line, unreadable_body, HttpReply};
use jidori_kun::json::Json;

fn plain(status: u16, body: &str) -> HttpReply {
    HttpReply::Plain { status, body: body.to_string() }
}

fn hdr(name: &str, value: &str) -> (String, String) {
    (name.to_string(), value.to_string())
}

#[test]
fn stopped_server_answers_503() {
    let h = vec![hdr("Authorization", "Bearer t")];
    assert_eq!(screen(false, "t", &h, "/mcp", true), Some(plain(503, "server stopped")));
    assert_eq!(screen(false, "", &vec![], "/mcp", false), Some(plain(503, "server stopped")));
}

#[test]
fn bearer_token_is_required() {
    assert_eq!(screen(true, "secret", &vec![], "/mcp", true), Some(plain(401, "unauthorized")));
    let wrong = vec![hdr("Authorization", "Bearer other")];
    assert_eq!(screen(true, "secret", &wrong, "/mcp", true), Some(plain(401, "unauthorized")));
    let no_scheme = vec![hdr("Authorization", "secret")];
    assert_eq!(screen(true, "secret", &no_scheme, "/mcp", true), Some(plain(401, "unauthorized")));
    let other_header = vec![hdr("X-Token", "Bearer secret")];
    assert_eq!(screen(true, "secret", &other_header, "/mcp", true), Some(plain(401, "unauthorized")));
}

#[test]
fn matching_token_passes_in_any_header_case() {
    let h = vec![hdr("Accept", "*/*"), hdr("authorization", "  Bearer secret \t")];
    assert_eq!(screen(true, "secret", &h, "/mcp", true), None);
    let h = vec![hdr("AUTHORIZATION", "Bearer secret")];
    assert_eq!(screen(true, "secret", &h, "/mcp", true), None);
}

#[test]
fn empty_token_lets_everyone_in() {
    assert_eq!(screen(true, "", &vec![], "/mcp", true), None);
}

#[test]
fn only_post_is_served() {
    let h = vec![hdr("Authorization", "Bearer k")];
    assert_eq!(screen(true, "k", &h, "/mcp", false), Some(plain(405, "use POST /mcp")));
    assert_eq!(screen(true, "k", &vec![], "/mcp", false), Some(plain(401, "unauthorized")));
}

#[test]
fn only_the_mcp_path_is_served() {
    let h = vec![hdr("Authorization", "Bearer k")];
    assert_eq!(screen(true, "k", &h, "/other", true), Some(plain(404, "not found")));
    assert_eq!(screen(true, "k", &h, "/", true), Some(plain(404, "not found")));
    assert_eq!(screen(true, "k", &h, "/mcp/", true), Some(plain(404, "not found")));
    assert_eq!(screen(true, "k", &h, "/MCP", true), Some(plain(404, "not found")));
    assert_eq!(screen(true, "k", &h, "/other", false), Some(plain(405, "use POST /mcp")));
    assert_eq!(screen(true, "k", &h, "/mcp?session=1", true), None);
    assert_eq!(screen(true, "", &vec![], "/x", true), Some(plain(404, "not found")));
    assert_eq!(screen(true, "k", &vec![], "/other", true), Some(plain(401, "unauthorized")));
    assert_eq!(screen(false, "k", &h, "/other", true), Some(plain(503, "server stopped")));
}

#[test]
fn body_failures_and_responses() {
    assert_eq!(unreadable_body(), plain(400, "bad body"));
    assert_eq!(malformed_json(), plain(400, "bad json"));
    assert_eq!(deliver_response(None), plain(202, ""));
    assert_eq!(deliver_response(Some(Json::Null)), HttpReply::Message(Json::Null));
}

#[test]
fn blank_stdin_lines_are_skipped() {
    assert!(skip_line("   "));
    assert!(skip_line(""));
    assert!(!skip_line("{\"jsonrpc\":\"2.0\"}"));
}
