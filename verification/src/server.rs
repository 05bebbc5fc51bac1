//! The life cycle of the network server: it is bound once per address and
//! then only switched on and off.

use vstd::prelude::*;

use crate::text::starts_with;

verus! {

broadcast use vstd::string::group_string_axioms;

/// The running server: the address it is bound to, whether it serves, and
/// the caller's handle on its socket and serving thread.
pub struct ServerRecord<H> {
    pub addr: String,
    pub enabled: bool,
    pub handle: H,
}

/// The server slot of the application: empty until the first start.
pub struct HttpState<H> {
    current: Option<ServerRecord<H>>,
}

/// What the caller has to do to start the server.
#[derive(Debug, PartialEq)]
pub enum StartPlan<H> {
    /// The socket bound to the requested address serves again.
    Reuse,
    /// Bind a socket to the requested address; the handle of the server it
    /// replaces, if any, is given back to be shut down.
    Bind { retired: Option<H> },
}

/// The slot after a stop: the same socket, not serving.
pub open spec fn stopped(slot: Option<(Seq<char>, bool)>) -> Option<(Seq<char>, bool)> {
    match slot {
        Some((addr, _)) => Some((addr, false)),
        None => None,
    }
}

/// A start on `addr` serves with the socket already bound there.
pub open spec fn reuses(slot: Option<(Seq<char>, bool)>, addr: Seq<char>) -> bool {
    slot matches Some((a, _)) && a == addr
}

/// Stopping the server and starting it again on the same address reuses
/// the bound socket and serves again; a start on another address binds anew.
pub proof fn restart_reuses_socket(slot: Option<(Seq<char>, bool)>, addr: Seq<char>, other: Seq<char>)
    requires
        slot matches Some((a, _)) && a == addr,
        other != addr,
    ensures
        stopped(slot) matches Some((_, false)),
        reuses(stopped(slot), addr),
        !reuses(stopped(slot), other),
{
}

/// A start on the address the slot is bound to reuses the socket whether
/// the server is serving or stopped; a start on any other address, or with
/// no socket bound, does not.
pub proof fn start_on_bound_address_reuses(addr: Seq<char>, serving: bool, other: Seq<char>)
    requires
        other != addr,
    ensures
        reuses(Some((addr, serving)), addr),
        !reuses(Some((addr, serving)), other),
        !reuses(None, addr),
{
}

impl<H> HttpState<H> {
    /// The bound address and whether the server serves; `None` while no
    /// socket is bound.
    pub closed spec fn slot(&self) -> Option<(Seq<char>, bool)> {
        match self.current {
            Some(r) => Some((r.addr@, r.enabled)),
            None => None,
        }
    }

    /// The handle of the bound server, if any.
    pub closed spec fn held(&self) -> Option<H> {
        match self.current {
            Some(r) => Some(r.handle),
            None => None,
        }
    }

    /// Whether the server serves requests.
    pub open spec fn serving(&self) -> bool {
        self.slot() matches Some((_, true))
    }

    /// No server bound.
    pub fn new() -> (s: Self)
        ensures
            s.slot() is None,
            s.held() is None,
    {
        HttpState { current: None }
    }

    /// Whether the server serves requests.
    pub fn running(&self) -> (b: bool)
        ensures
            b == self.serving(),
    {
        match &self.current {
            Some(r) => r.enabled,
            None => false,
        }
    }

    /// Stops serving; the socket stays bound and requests get 503.
    pub fn stop(&mut self)
        ensures
            !final(self).serving(),
            final(self).slot() == stopped(old(self).slot()),
            final(self).held() == old(self).held(),
    {
        if let Some(r) = &mut self.current {
            r.enabled = false;
        }
    }

    /// Starts serving on `addr`: the bound socket serves again when its
    /// address is `addr`; otherwise the slot is emptied and the caller binds
    /// a new socket and passes it to [`HttpState::bound`].
    pub fn begin_start(&mut self, addr: &str) -> (plan: StartPlan<H>)
        ensures
            old(self).slot() matches Some((a, _)) && a == addr@ ==> {
                &&& plan is Reuse
                &&& final(self).held() == old(self).held()
            },
            reuses(old(self).slot(), addr@) ==> {
                &&& plan is Reuse
                &&& final(self).slot() == Some((addr@, true))
                &&& final(self).held() == old(self).held()
            },
            !reuses(old(self).slot(), addr@) ==> {
                &&& plan == (StartPlan::Bind { retired: old(self).held() })
                &&& final(self).slot() is None
                &&& final(self).held() is None
            },
    {
        let same = match &self.current {
            Some(r) => crate::text::same_text(r.addr.as_str(), addr),
            None => false,
        };
        if same {
            if let Some(r) = &mut self.current {
                r.enabled = true;
            }
            StartPlan::Reuse
        } else {
            let old = self.current.take();
            match old {
                Some(r) => StartPlan::Bind { retired: Some(r.handle) },
                None => StartPlan::Bind { retired: None },
            }
        }
    }

    /// Records the socket just bound to `addr`, serving.
    pub fn bound(&mut self, addr: String, handle: H)
        ensures
            final(self).slot() == Some((addr@, true)),
            final(self).held() == Some(handle),
    {
        self.current = Some(ServerRecord { addr, enabled: true, handle });
    }

    /// The handle of the bound server, if any.
    pub fn handle(&self) -> (h: Option<&H>)
        ensures
            match h {
                Some(x) => self.held() == Some(*x),
                None => self.held() is None,
            },
    {
        match &self.current {
            Some(r) => Some(&r.handle),
            None => None,
        }
    }
}

/// Whether a URL may be opened in the browser: only `http://` and `https://`.
pub open spec fn openable(url: Seq<char>) -> bool {
    "http://"@.is_prefix_of(url) || "https://"@.is_prefix_of(url)
}

/// Accepts an http(s) URL, and refuses any other with `invalid url`.
pub fn check_url(url: &str) -> (r: Result<(), String>)
    ensures
        match r {
            Ok(()) => openable(url@),
            Err(m) => !openable(url@) && m@ == "invalid url"@,
        },
{
    if !(starts_with(url, "http://") || starts_with(url, "https://")) {
        return Err(String::from_str("invalid url"));
    }
    Ok(())
}

} // verus!
