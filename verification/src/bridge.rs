//! Capture requests that wait for the webview to hand back a frame.

use vstd::prelude::*;

use std::collections::HashMap;
use std::sync::mpsc::Sender;
use std::time::Duration;

verus! {

broadcast use vstd::std_specs::hash::group_hash_axioms;

#[verifier::external_type_specification]
#[verifier::external_body]
#[verifier::reject_recursive_types(T)]
pub struct ExSender<T>(Sender<T>);

/// Pending capture requests keyed by id, awaiting the webview, and whether
/// the webview has said that it listens.
pub struct CaptureBridge {
    pending: HashMap<u64, Sender<String>>,
    next_id: u64,
    ready: bool,
}

/// The id that follows `id`, wrapping at the end of the range as an atomic
/// counter does.
pub open spec fn following_id(id: u64) -> u64 {
    if id == u64::MAX {
        0
    } else {
        (id + 1) as u64
    }
}

/// A request that is registered and then fulfilled leaves the pending
/// requests as they were before it.
pub proof fn fulfilling_undoes_registering(
    waiters: Map<u64, Sender<String>>,
    id: u64,
    waiter: Sender<String>,
)
    requires
        !waiters.contains_key(id),
    ensures
        waiters.insert(id, waiter).remove(id) == waiters,
{
    assert(waiters.insert(id, waiter).remove(id) =~= waiters);
}

/// What a frame for request `id` is handed to: the waiter of `id` together
/// with the frame, when `id` is pending; nothing otherwise.
pub open spec fn hand_off_of(waiters: Map<u64, Sender<String>>, id: u64, data_url: String) -> Option<
    (Sender<String>, String),
> {
    if waiters.contains_key(id) {
        Some((waiters[id], data_url))
    } else {
        None
    }
}

/// Once a request's frame has been handed off, a later frame for the same
/// id is handed to nobody.
pub proof fn frames_are_handed_off_once(
    waiters: Map<u64, Sender<String>>,
    id: u64,
    first: String,
    second: String,
)
    ensures
        waiters.contains_key(id) ==> hand_off_of(waiters, id, first) == Some((waiters[id], first)),
        hand_off_of(waiters.remove(id), id, second) is None,
{
}

impl CaptureBridge {
    /// The waiter of each pending request, by id.
    pub closed spec fn waiters(&self) -> Map<u64, Sender<String>> {
        self.pending@
    }

    /// The id that the next request gets.
    pub closed spec fn upcoming_id(&self) -> u64 {
        self.next_id
    }

    /// Whether the webview has reported that it listens for capture requests.
    pub closed spec fn is_ready(&self) -> bool {
        self.ready
    }

    /// Every pending id was handed out before the upcoming one.
    pub open spec fn ids_below_upcoming(&self) -> bool {
        forall|id: u64| #[trigger] self.waiters().contains_key(id) ==> id < self.upcoming_id()
    }

    /// No request pending, ids start at 1, the webview not yet ready.
    pub fn new() -> (b: Self)
        ensures
            b.waiters() == Map::<u64, Sender<String>>::empty(),
            b.upcoming_id() == 1,
            !b.is_ready(),
            b.ids_below_upcoming(),
    {
        CaptureBridge { pending: HashMap::new(), next_id: 1, ready: false }
    }

    /// Records a capture request whose frame goes to `waiter`, and returns
    /// its id.
    pub fn register(&mut self, waiter: Sender<String>) -> (id: u64)
        ensures
            id == old(self).upcoming_id(),
            final(self).upcoming_id() == following_id(id),
            final(self).waiters() == old(self).waiters().insert(id, waiter),
            final(self).is_ready() == old(self).is_ready(),
            old(self).ids_below_upcoming() && id < u64::MAX ==> {
                &&& !old(self).waiters().contains_key(id)
                &&& final(self).ids_below_upcoming()
            },
    {
        let id = self.next_id;
        self.next_id = if id == u64::MAX {
            0
        } else {
            id + 1
        };
        self.pending.insert(id, waiter);
        id
    }

    /// Called when the webview returns the frame of request `id`: the
    /// request leaves the pending set, and its waiter comes back paired with
    /// `data_url` unchanged, for the caller to send the frame on. For an id
    /// that is not pending, nothing changes and nothing comes back.
    pub fn fulfill(&mut self, id: u64, data_url: String) -> (h: Option<(Sender<String>, String)>)
        ensures
            h == hand_off_of(old(self).waiters(), id, data_url),
            final(self).waiters() == old(self).waiters().remove(id),
            final(self).upcoming_id() == old(self).upcoming_id(),
            final(self).is_ready() == old(self).is_ready(),
            old(self).ids_below_upcoming() ==> final(self).ids_below_upcoming(),
    {
        let h = match self.pending.remove(&id) {
            Some(waiter) => Some((waiter, data_url)),
            None => None,
        };
        assert forall|k: u64| #[trigger] self.waiters().contains_key(k) && old(self).ids_below_upcoming()
            implies k < self.upcoming_id() by {
            assert(old(self).waiters().contains_key(k));
        }
        h
    }

    /// The webview signals that it has loaded and listens for requests.
    pub fn mark_ready(&mut self)
        ensures
            final(self).is_ready(),
            final(self).waiters() == old(self).waiters(),
            final(self).upcoming_id() == old(self).upcoming_id(),
    {
        self.ready = true;
    }

    /// How long to block before a request is sent to the webview: nothing
    /// once it is ready, else up to `timeout`.
    pub fn wait_ready(&self, timeout: Duration) -> (wait: Option<Duration>)
        ensures
            wait == if self.is_ready() {
                None
            } else {
                Some(timeout)
            },
    {
        if self.ready {
            None
        } else {
            Some(timeout)
        }
    }
}

} // verus!
