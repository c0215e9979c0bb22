//! The payload-free broadcast wake signal.
//!
//! A notifier counts publishes; a listener remembers the last count it woke
//! for. Every listener registered before a publish observes that publish
//! exactly once, however many listeners there are; wakes from before a
//! listener subscribed are not replayed. Waiters carry no payload — a woken
//! consumer re-reads the shared frame itself.

use vstd::prelude::*;

verus! {

/// The broadcast side: one counter, bumped once per published frame.
pub struct Notifier {
    version: u64,
}

/// One subscriber's handle on the wake signal.
pub struct CameraEvent {
    seen: u64,
}

impl Notifier {
    /// How many publishes have been signalled.
    pub closed spec fn version_spec(&self) -> int {
        self.version as int
    }

    /// A fresh signal with no publishes yet.
    pub fn new() -> (n: Notifier)
        ensures
            n.version_spec() == 0,
    {
        Notifier { version: 0 }
    }

    /// Broadcast one wake: every currently subscribed listener becomes
    /// pending, whatever their number.
    pub fn notify(&mut self)
        requires
            old(self).version_spec() < u64::MAX,
        ensures
            final(self).version_spec() == old(self).version_spec() + 1,
    {
        self.version = self.version + 1;
    }

    /// The publish count so far.
    pub fn version(&self) -> (v: u64)
        ensures
            v as int == self.version_spec(),
    {
        self.version
    }

    /// Register a listener. It starts caught up: it will observe the next
    /// wake, not the current state — missed wakes are not replayed.
    pub fn subscribe(&self) -> (l: CameraEvent)
        ensures
            l.seen_spec() == self.version_spec(),
            !l.pending(*self),
    {
        CameraEvent { seen: self.version }
    }
}

impl CameraEvent {
    /// The publish count this listener last woke for.
    pub closed spec fn seen_spec(&self) -> int {
        self.seen as int
    }

    /// Whether a wake is owed: some publish happened that this listener has
    /// not yet observed.
    pub open spec fn pending(&self, n: Notifier) -> bool {
        self.seen_spec() != n.version_spec()
    }

    /// Poll for a wake. Returns whether one was owed, and in either case
    /// leaves the listener caught up, so each publish is observed exactly
    /// once.
    pub fn wait(&mut self, n: &Notifier) -> (woke: bool)
        ensures
            woke == old(self).pending(*n),
            final(self).seen_spec() == n.version_spec(),
            !final(self).pending(*n),
    {
        let woke = self.seen != n.version;
        self.seen = n.version;
        woke
    }
}

/// Fan-out: one publish wakes every listener that was subscribed and caught
/// up before it, each exactly once — after observing the wake a listener is
/// no longer pending until the next publish.
pub proof fn lemma_fanout(listeners: Seq<CameraEvent>, before: Notifier, after: Notifier)
    requires
        after.version_spec() == before.version_spec() + 1,
        forall|i: int| 0 <= i < listeners.len() ==> !(#[trigger] listeners[i]).pending(before),
    ensures
        forall|i: int| 0 <= i < listeners.len() ==> (#[trigger] listeners[i]).pending(after),
        forall|l: CameraEvent| l.seen_spec() == after.version_spec() ==> !l.pending(after),
{
}

} // verus!
