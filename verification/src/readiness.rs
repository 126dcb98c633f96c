//! The readiness adapter: edge-triggered readiness, cached explicitly.
//!
//! The adapter owns one registration token and two tri-state flags, one
//! per direction. Every transition is an explicit operation of the
//! poll/attempt cycle: a scheduler event arms a flag, a would-block from a
//! raw attempt clears it, and nothing re-arms implicitly.

use vstd::prelude::*;

use crate::sched::Scheduler;

verus! {

/// What polling a readiness interface reports.
#[derive(Clone, Copy, PartialEq, Eq, Structural, Debug)]
pub enum Async {
    /// An attempt can be made now.
    Ready,
    /// Wait for the scheduler to report readiness first.
    NotReady,
}

/// One direction's cached readiness.
#[derive(Clone, Copy, PartialEq, Eq, Structural, Debug)]
pub enum Readiness {
    /// No attempt was made yet; the caller must attempt to find out.
    Unknown,
    /// The scheduler reported readiness, or an attempt just made progress.
    Armed,
    /// An attempt reported would-block and no event arrived since.
    Cleared,
}

/// How one cached flag answers a poll: only a cleared flag holds the
/// caller back; an unknown one must be resolved by attempting.
pub open spec fn poll_of(r: Readiness) -> Async {
    if r is Cleared {
        Async::NotReady
    } else {
        Async::Ready
    }
}

/// The readiness adapter around one registered source.
pub struct Adapter {
    /// The token under which the source is registered with the scheduler.
    pub token: usize,
    /// Cached read readiness.
    pub read_state: Readiness,
    /// Cached write readiness.
    pub write_state: Readiness,
}

impl Adapter {
    /// Whether this adapter's registration is live in that scheduler.
    pub open spec fn attached(self, s: Scheduler) -> bool {
        s.registered(self.token)
    }

    /// Registers a fresh source with the scheduler and wraps its token,
    /// with both directions unknown. Fails exactly when the scheduler's
    /// registry rejects the registration; nothing changes then.
    pub fn register(sched: &mut Scheduler) -> (r: Option<Adapter>)
        ensures
            final(sched).max_sources_of() == old(sched).max_sources_of(),
            old(sched).slots_of().len() < old(sched).max_sources_of() ==> {
                &&& r is Some
                &&& r->Some_0.token == old(sched).slots_of().len()
                &&& r->Some_0.read_state == Readiness::Unknown
                &&& r->Some_0.write_state == Readiness::Unknown
                &&& r->Some_0.attached(*final(sched))
                &&& final(sched).slots_of().len() == old(sched).slots_of().len() + 1
                &&& forall|t: usize|
                    t != r->Some_0.token ==> final(sched).registered(t) == old(sched).registered(t)
            },
            old(sched).slots_of().len() >= old(sched).max_sources_of() ==> {
                &&& r is None
                &&& final(sched).slots_of() == old(sched).slots_of()
            },
    {
        match sched.register() {
            Option::Some(token) => Option::Some(
                Adapter {
                    token,
                    read_state: Readiness::Unknown,
                    write_state: Readiness::Unknown,
                },
            ),
            Option::None => Option::None,
        }
    }

    /// Answers a read-readiness poll from the cache, without blocking.
    pub fn poll_read_ready(&self) -> (r: Async)
        ensures
            r == poll_of(self.read_state),
    {
        match self.read_state {
            Readiness::Cleared => Async::NotReady,
            _ => Async::Ready,
        }
    }

    /// Answers a write-readiness poll from the cache, without blocking.
    pub fn poll_write_ready(&self) -> (r: Async)
        ensures
            r == poll_of(self.write_state),
    {
        match self.write_state {
            Readiness::Cleared => Async::NotReady,
            _ => Async::Ready,
        }
    }

    /// The explicit re-arming transition: consumes the readiness the
    /// scheduler recorded for this token, arming each direction for which
    /// an event arrived and leaving the other untouched.
    pub fn absorb_events(&mut self, sched: &mut Scheduler)
        requires
            old(self).attached(*old(sched)),
        ensures
            final(self).token == old(self).token,
            final(self).attached(*final(sched)),
            final(sched).max_sources_of() == old(sched).max_sources_of(),
            final(sched).slots_of().len() == old(sched).slots_of().len(),
            forall|t: usize|
                t != old(self).token ==> final(sched).lookup(t) == old(sched).lookup(t),
            final(sched).lookup(old(self).token)->Some_0.read_ready == false,
            final(sched).lookup(old(self).token)->Some_0.write_ready == false,
            final(self).read_state == if old(sched).lookup(old(self).token)->Some_0.read_ready {
                Readiness::Armed
            } else {
                old(self).read_state
            },
            final(self).write_state == if old(sched).lookup(old(self).token)->Some_0.write_ready {
                Readiness::Armed
            } else {
                old(self).write_state
            },
    {
        if sched.take_read_readiness(self.token) {
            self.read_state = Readiness::Armed;
        }
        if sched.take_write_readiness(self.token) {
            self.write_state = Readiness::Armed;
        }
    }

    /// A raw read attempt reported would-block: clear the read flag so
    /// polls hold the caller back until the scheduler reports an event.
    pub fn clear_read(&mut self)
        ensures
            *final(self) == (Adapter { read_state: Readiness::Cleared, ..*old(self) }),
    {
        self.read_state = Readiness::Cleared;
    }

    /// A raw read attempt made progress: the source proved readable.
    pub fn arm_read(&mut self)
        ensures
            *final(self) == (Adapter { read_state: Readiness::Armed, ..*old(self) }),
    {
        self.read_state = Readiness::Armed;
    }

    /// A raw write attempt reported would-block: clear the write flag.
    pub fn clear_write(&mut self)
        ensures
            *final(self) == (Adapter { write_state: Readiness::Cleared, ..*old(self) }),
    {
        self.write_state = Readiness::Cleared;
    }

    /// A raw write attempt made progress: the source proved writable.
    pub fn arm_write(&mut self)
        ensures
            *final(self) == (Adapter { write_state: Readiness::Armed, ..*old(self) }),
    {
        self.write_state = Readiness::Armed;
    }

    /// Drops the adapter's registration. The scheduler forgets the token:
    /// a later poll of it reports nothing rather than stale readiness.
    pub fn deregister(self, sched: &mut Scheduler)
        requires
            self.attached(*old(sched)),
        ensures
            !final(sched).registered(self.token),
            final(sched).lookup(self.token) is None,
            final(sched).max_sources_of() == old(sched).max_sources_of(),
            final(sched).slots_of().len() == old(sched).slots_of().len(),
            forall|t: usize|
                t != self.token ==> final(sched).lookup(t) == old(sched).lookup(t),
    {
        sched.deregister(self.token);
    }
}

} // verus!
