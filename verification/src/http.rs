//! The network transport: which HTTP requests reach the protocol, and what
//! each of the others is answered.

use vstd::prelude::*;

use crate::json::{model_of, Json, JsonModel};
use crate::text::{
    first_index, is_white_space, trim_end, trim_start,
    eq_ignore_ascii_case, eq_ignoring_ascii_case, is_blank, path_is, same_text, target_path, trim,
    trimmed,
};

verus! {

broadcast use vstd::string::group_string_axioms;

/// An HTTP response of the MCP endpoint.
#[derive(Debug, PartialEq)]
pub enum HttpReply {
    /// A plain-text answer with a status code.
    Plain { status: u16, body: String },
    /// A JSON-RPC message, sent with status 200 as `application/json`.
    Message(Json),
}

/// The meaning of an [`HttpReply`].
pub enum HttpReplyModel {
    Plain { status: int, body: Seq<char> },
    Message(JsonModel),
}

impl HttpReply {
    pub open spec fn model(self) -> HttpReplyModel {
        match self {
            HttpReply::Plain { status, body } => HttpReplyModel::Plain {
                status: status as int,
                body: body@,
            },
            HttpReply::Message(j) => HttpReplyModel::Message(j.model()),
        }
    }
}

/// The name and value of each request header, as text.
pub open spec fn header_texts(headers: Seq<(String, String)>) -> Seq<(Seq<char>, Seq<char>)> {
    headers.map_values(|h: (String, String)| (h.0@, h.1@))
}

/// The header carries the bearer `token`: its name is `Authorization` in
/// any case, and its value, without surrounding white space, is
/// `Bearer <token>`.
pub open spec fn carries_token(header: (Seq<char>, Seq<char>), token: Seq<char>) -> bool {
    &&& eq_ignoring_ascii_case(header.0, "Authorization"@)
    &&& trimmed(header.1) == "Bearer "@ + token
}

/// A request is authorized when no token is configured, or when one of its
/// headers carries the token.
pub open spec fn authorized(token: Seq<char>, headers: Seq<(Seq<char>, Seq<char>)>) -> bool {
    token.len() == 0 || exists|i: int| 0 <= i < headers.len() && carries_token(#[trigger] headers[i], token)
}

/// The answer to a request that does not reach the protocol, or `None`
/// when it does. The one endpoint is `POST /mcp`: a stopped server answers
/// 503, a request without the token 401, anything but POST 405, and a POST
/// whose target's path is not `/mcp` 404.
pub open spec fn refusal(
    enabled: bool,
    token: Seq<char>,
    headers: Seq<(Seq<char>, Seq<char>)>,
    target: Seq<char>,
    is_post: bool,
) -> Option<HttpReplyModel> {
    if !enabled {
        Some(HttpReplyModel::Plain { status: 503, body: "server stopped"@ })
    } else if !authorized(token, headers) {
        Some(HttpReplyModel::Plain { status: 401, body: "unauthorized"@ })
    } else if !is_post {
        Some(HttpReplyModel::Plain { status: 405, body: "use POST /mcp"@ })
    } else if target_path(target) != "/mcp"@ {
        Some(HttpReplyModel::Plain { status: 404, body: "not found"@ })
    } else {
        None
    }
}

fn plain(status: u16, body: &str) -> (r: HttpReply)
    ensures
        r.model() == (HttpReplyModel::Plain { status: status as int, body: body@ }),
{
    HttpReply::Plain { status, body: body.to_owned() }
}

/// Whether one of `headers` carries the bearer `token`.
fn has_token(token: &str, headers: &Vec<(String, String)>) -> (b: bool)
    ensures
        b == exists|i: int|
            0 <= i < headers@.len() && carries_token(
                #[trigger] header_texts(headers@)[i],
                token@,
            ),
{
    let mut expected = String::from_str("Bearer ");
    expected.append(token);
    let ghost hs = header_texts(headers@);
    let mut i: usize = 0;
    while i < headers.len()
        invariant
            i <= headers@.len(),
            hs == header_texts(headers@),
            expected@ == "Bearer "@ + token@,
            forall|j: int| 0 <= j < i ==> !carries_token(#[trigger] hs[j], token@),
        decreases headers.len() - i,
    {
        let (name, value) = &headers[i];
        assert(hs[i as int] == (name@, value@));
        if eq_ignore_ascii_case(name.as_str(), "Authorization") {
            let v = trim(value.as_str());
            if same_text(v.as_str(), expected.as_str()) {
                return true;
            }
        }
        i = i + 1;
    }
    false
}

/// Decides whether a request for `target` reaches the protocol; when it
/// does not, the answer it gets.
pub fn screen(
    enabled: bool,
    token: &str,
    headers: &Vec<(String, String)>,
    target: &str,
    is_post: bool,
) -> (r: Option<HttpReply>)
    ensures
        match r {
            Some(reply) => refusal(enabled, token@, header_texts(headers@), target@, is_post)
                == Some(reply.model()),
            None => refusal(enabled, token@, header_texts(headers@), target@, is_post) is None,
        },
{
    if !enabled {
        return Some(plain(503, "server stopped"));
    }
    if !(token.is_empty() || has_token(token, headers)) {
        return Some(plain(401, "unauthorized"));
    }
    if !is_post {
        return Some(plain(405, "use POST /mcp"));
    }
    if !path_is(target, "/mcp") {
        return Some(plain(404, "not found"));
    }
    None
}

/// The answer when the request's body cannot be read.
pub fn unreadable_body() -> (r: HttpReply)
    ensures
        r.model() == (HttpReplyModel::Plain { status: 400, body: "bad body"@ }),
{
    plain(400, "bad body")
}

/// The answer when the request's body is not JSON.
pub fn malformed_json() -> (r: HttpReply)
    ensures
        r.model() == (HttpReplyModel::Plain { status: 400, body: "bad json"@ }),
{
    plain(400, "bad json")
}

/// What a request that reached the protocol is answered: the response, or
/// 202 with an empty body when there is none.
pub open spec fn protocol_reply(response: Option<JsonModel>) -> HttpReplyModel {
    match response {
        Some(j) => HttpReplyModel::Message(j),
        None => HttpReplyModel::Plain { status: 202, body: Seq::empty() },
    }
}

/// The answer to a request that reached the protocol: its response, or
/// 202 with an empty body when there is none.
pub fn deliver_response(response: Option<Json>) -> (r: HttpReply)
    ensures
        r.model() == protocol_reply(model_of(response)),
{
    match response {
        Some(j) => HttpReply::Message(j),
        None => {
            let r = plain(202, "");
            proof {
                reveal_strlit("");
                assert(""@ =~= Seq::<char>::empty());
            }
            r
        },
    }
}

/// Whether a line read on standard input is skipped: one with nothing but
/// white space.
pub fn skip_line(line: &str) -> (b: bool)
    ensures
        b == (trimmed(line@).len() == 0),
{
    is_blank(line)
}


/// With a token configured, a request none of whose headers carries it
/// never reaches the protocol: a serving server answers 401, a stopped one
/// 503. A POST to `/mcp` that carries the token reaches it whenever the
/// server serves.
pub proof fn token_is_required(
    enabled: bool,
    token: Seq<char>,
    headers: Seq<(Seq<char>, Seq<char>)>,
    target: Seq<char>,
    is_post: bool,
)
    requires
        token.len() > 0,
    ensures
        (forall|i: int| 0 <= i < headers.len() ==> !carries_token(#[trigger] headers[i], token))
            ==> refusal(enabled, token, headers, target, is_post) == Some(
            if enabled {
                HttpReplyModel::Plain { status: 401, body: "unauthorized"@ }
            } else {
                HttpReplyModel::Plain { status: 503, body: "server stopped"@ }
            },
        ),
        (exists|i: int| 0 <= i < headers.len() && carries_token(#[trigger] headers[i], token))
            && enabled && is_post && target_path(target) == "/mcp"@ ==> refusal(
            enabled,
            token,
            headers,
            target,
            is_post,
        ) is None,
{
}

/// There is one endpoint, `POST /mcp`: a request reaches the protocol only
/// when the server serves, the request is authorized, its target's path is
/// `/mcp` and its method is POST; and every such request reaches it.
pub proof fn one_endpoint(
    enabled: bool,
    token: Seq<char>,
    headers: Seq<(Seq<char>, Seq<char>)>,
    target: Seq<char>,
    is_post: bool,
)
    ensures
        refusal(enabled, token, headers, target, is_post) is None <==> {
            &&& enabled
            &&& authorized(token, headers)
            &&& target_path(target) == "/mcp"@
            &&& is_post
        },
{
}


/// The token is compared exactly as configured, capitals included: a POST
/// to `/mcp` with a header named `Authorization` (in any case) whose value,
/// without surrounding white space, is `Bearer ` and the token reaches the
/// protocol, for every token text.
pub proof fn configured_token_is_accepted(
    token: Seq<char>,
    headers: Seq<(Seq<char>, Seq<char>)>,
    i: int,
    target: Seq<char>,
)
    requires
        0 <= i < headers.len(),
        eq_ignoring_ascii_case(headers[i].0, "Authorization"@),
        trimmed(headers[i].1) == "Bearer "@ + token,
        target_path(target) == "/mcp"@,
    ensures
        refusal(true, token, headers, target, true) is None,
{
    assert(carries_token(headers[i], token));
}

/// In particular the plain header `Authorization: Bearer <token>` lets a
/// POST to `/mcp` through, for every token that does not end in white space.
pub proof fn plain_bearer_header_is_accepted(token: Seq<char>)
    requires
        token.len() > 0,
        !is_white_space(token.last()),
    ensures
        refusal(
            true,
            token,
            seq![("Authorization"@, "Bearer "@ + token)],
            "/mcp"@,
            true,
        ) is None,
{
    reveal_strlit("Bearer ");
    reveal_strlit("/mcp");
    let v = "Bearer "@ + token;
    assert(v[0] == 'B');
    assert(trim_start(v) == v);
    assert(v.last() == token.last());
    assert(trim_end(v) == v);
    lemma_no_query("/mcp"@);
    let headers = seq![("Authorization"@, v)];
    configured_token_is_accepted(token, headers, 0, "/mcp"@);
}

proof fn lemma_no_query(s: Seq<char>)
    requires
        forall|j: int| 0 <= j < s.len() ==> s[j] != '?',
    ensures
        first_index(s, '?') == s.len(),
        target_path(s) == s,
    decreases s.len(),
{
    if s.len() > 0 {
        lemma_no_query(s.drop_first());
    }
    assert(s.subrange(0, s.len() as int) =~= s);
}

} // verus!
