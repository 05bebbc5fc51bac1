//! Settings of the network (HTTP) MCP server, and the addresses they give.

use vstd::prelude::*;

use crate::text::{decimal, push_decimal};

verus! {

broadcast use vstd::string::group_string_axioms;

/// Persisted settings for the network (HTTP) MCP server.
#[derive(Clone, Debug)]
pub struct Settings {
    /// Auto-start the HTTP MCP server on launch.
    pub http_enabled: bool,
    pub port: u16,
    /// Bearer token required by remote clients (empty = no auth — discouraged).
    pub token: String,
    /// true = bind 0.0.0.0 (reachable on the LAN); false = 127.0.0.1 only.
    pub lan: bool,
}

impl Default for Settings {
    /// Server off, port 8790, no token, reachable on the LAN.
    fn default() -> (s: Self)
        ensures
            !s.http_enabled,
            s.port == 8790,
            s.token@ == Seq::<char>::empty(),
            s.lan,
    {
        Settings { http_enabled: false, port: 8790, token: String::new(), lan: true }
    }
}

/// The host the server binds: every interface on the LAN, else loopback only.
pub open spec fn bind_host(lan: bool) -> Seq<char> {
    if lan {
        "0.0.0.0"@
    } else {
        "127.0.0.1"@
    }
}

/// The host shown in the endpoint's URL: the machine's LAN address when the
/// server is on the LAN and one is known, else loopback.
pub open spec fn shown_host(lan: bool, lan_ip: Option<Seq<char>>) -> Seq<char> {
    match (lan, lan_ip) {
        (true, Some(ip)) => ip,
        _ => "127.0.0.1"@,
    }
}

/// The URL under which clients reach the endpoint.
pub open spec fn endpoint(host: Seq<char>, port: u16) -> Seq<char> {
    "http://"@ + host + ":"@ + decimal(port as nat) + "/mcp"@
}

/// The message when the port cannot be opened.
pub open spec fn bind_failure(port: u16, reason: Seq<char>) -> Seq<char> {
    "ポート "@ + decimal(port as nat) + " を開けませんでした: "@ + reason
}

/// The URL shows loopback whenever the server is not on the LAN, whatever
/// LAN address is known; on the LAN it shows the known LAN address, and
/// loopback when none is known.
pub proof fn shown_host_follows_lan(ip: Seq<char>, port: u16)
    ensures
        shown_host(false, Some(ip)) == "127.0.0.1"@,
        shown_host(false, None) == "127.0.0.1"@,
        shown_host(true, Some(ip)) == ip,
        shown_host(true, None) == "127.0.0.1"@,
        endpoint(shown_host(false, Some(ip)), port) == "http://127.0.0.1:"@ + decimal(port as nat)
            + "/mcp"@,
{
    reveal_strlit("http://127.0.0.1:");
    reveal_strlit("http://");
    reveal_strlit("127.0.0.1");
    reveal_strlit(":");
    assert("http://"@ + "127.0.0.1"@ + ":"@ =~= "http://127.0.0.1:"@);
    assert(endpoint(shown_host(false, Some(ip)), port) =~= "http://127.0.0.1:"@ + decimal(port as nat)
        + "/mcp"@);
}

impl Settings {
    /// The address the HTTP server binds: `host:port`.
    pub fn bind_address(&self) -> (a: String)
        ensures
            a@ == bind_host(self.lan) + ":"@ + decimal(self.port as nat),
    {
        let mut a = if self.lan {
            String::from_str("0.0.0.0")
        } else {
            String::from_str("127.0.0.1")
        };
        a.append(":");
        push_decimal(&mut a, self.port as u64);
        a
    }

    /// The URL of the endpoint, given the machine's LAN address if one is known.
    pub fn endpoint_url(&self, lan_ip: Option<String>) -> (u: String)
        ensures
            !self.lan ==> u@ == "http://127.0.0.1:"@ + decimal(self.port as nat) + "/mcp"@,
            u@ == endpoint(
                shown_host(
                    self.lan,
                    match lan_ip {
                        Some(ip) => Some(ip@),
                        None => None,
                    },
                ),
                self.port,
            ),
    {
        let mut u = String::from_str("http://");
        match (self.lan, lan_ip) {
            (true, Some(ip)) => u.append(ip.as_str()),
            _ => u.append("127.0.0.1"),
        }
        u.append(":");
        push_decimal(&mut u, self.port as u64);
        u.append("/mcp");
        proof {
            if !self.lan {
                reveal_strlit("http://127.0.0.1:");
                reveal_strlit("http://");
                reveal_strlit("127.0.0.1");
                reveal_strlit(":");
                assert("http://"@ + "127.0.0.1"@ + ":"@ =~= "http://127.0.0.1:"@);
                assert(u@ =~= "http://127.0.0.1:"@ + decimal(self.port as nat) + "/mcp"@);
            }
        }
        u
    }

    /// The error reported when the server cannot bind its port.
    pub fn bind_error(&self, reason: &str) -> (m: String)
        ensures
            m@ == bind_failure(self.port, reason@),
    {
        let mut m = String::from_str("ポート ");
        push_decimal(&mut m, self.port as u64);
        m.append(" を開けませんでした: ");
        m.append(reason);
        m
    }
}

} // verus!
