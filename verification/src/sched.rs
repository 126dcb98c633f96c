//! The scheduler's event-source registry, modelled as a value.
//!
//! A cooperative scheduler keeps one slot per registered readiness source.
//! Registration hands out a fresh token; deregistration empties the slot
//! for good (tokens are never reused), so a later poll of that token
//! reports nothing rather than stale readiness. A bound on the number of
//! slots stands for the event demultiplexer rejecting a registration.

use vstd::prelude::*;

verus! {

/// The readiness the scheduler currently records for one source.
#[derive(Clone, Copy, PartialEq, Eq, Structural, Debug)]
pub struct SourceState {
    /// The source can be read without blocking.
    pub read_ready: bool,
    /// The source can be written without blocking.
    pub write_ready: bool,
}

/// The scheduler's registry of readiness sources.
pub struct Scheduler {
    /// One slot per token ever registered; a deregistered slot is `None`.
    slots: Vec<Option<SourceState>>,
    /// The registry rejects registrations beyond this many tokens.
    max_sources: usize,
}

impl Scheduler {
    /// The slot the scheduler holds for each token ever handed out.
    pub closed spec fn slots_of(self) -> Seq<Option<SourceState>> {
        self.slots@
    }

    /// The bound beyond which registration is rejected.
    pub closed spec fn max_sources_of(self) -> nat {
        self.max_sources as nat
    }

    /// Whether this token is currently registered.
    pub open spec fn registered(self, token: usize) -> bool {
        token < self.slots_of().len() && self.slots_of()[token as int] is Some
    }

    /// The readiness recorded for this token, if it is registered.
    pub open spec fn lookup(self, token: usize) -> Option<SourceState> {
        if self.registered(token) {
            self.slots_of()[token as int]
        } else {
            Option::None
        }
    }

    /// A fresh registry that accepts up to `max_sources` registrations.
    pub fn new(max_sources: usize) -> (s: Scheduler)
        ensures
            s.slots_of() == Seq::<Option<SourceState>>::empty(),
            s.max_sources_of() == max_sources,
    {
        Scheduler { slots: Vec::new(), max_sources }
    }

    /// Registers a new readiness source and hands out its token, with no
    /// readiness recorded yet. Fails exactly when the registry is at its
    /// bound; nothing changes then.
    pub fn register(&mut self) -> (r: Option<usize>)
        ensures
            old(self).slots_of().len() <= usize::MAX,
            old(self).slots_of().len() < old(self).max_sources_of() ==> {
                &&& r == Option::Some(old(self).slots_of().len() as usize)
                &&& final(self).slots_of() == old(self).slots_of().push(
                    Option::Some(SourceState { read_ready: false, write_ready: false }),
                )
            },
            old(self).slots_of().len() >= old(self).max_sources_of() ==> {
                &&& r is None
                &&& final(self).slots_of() == old(self).slots_of()
            },
            final(self).max_sources_of() == old(self).max_sources_of(),
    {
        if self.slots.len() < self.max_sources {
            let token = self.slots.len();
            self.slots.push(Option::Some(SourceState { read_ready: false, write_ready: false }));
            Option::Some(token)
        } else {
            Option::None
        }
    }

    /// Drops the registration for this token. Its slot reports nothing
    /// from now on; every other slot is untouched and tokens are never
    /// reused.
    pub fn deregister(&mut self, token: usize)
        requires
            old(self).registered(token),
        ensures
            final(self).slots_of() == old(self).slots_of().update(token as int, Option::None),
            final(self).max_sources_of() == old(self).max_sources_of(),
            !final(self).registered(token),
            forall|t: usize|
                t != token ==> final(self).registered(t) == old(self).registered(t),
    {
        self.slots.set(token, Option::None);
    }

    /// Records an edge readiness event the OS reported for this token,
    /// adding to whatever readiness is already recorded.
    pub fn notify(&mut self, token: usize, read: bool, write: bool)
        requires
            old(self).registered(token),
        ensures
            final(self).max_sources_of() == old(self).max_sources_of(),
            final(self).slots_of() == old(self).slots_of().update(
                token as int,
                Option::Some(
                    SourceState {
                        read_ready: old(self).lookup(token)->Some_0.read_ready || read,
                        write_ready: old(self).lookup(token)->Some_0.write_ready || write,
                    },
                ),
            ),
    {
        let cur = match self.slots[token] {
            Option::Some(st) => st,
            Option::None => SourceState { read_ready: false, write_ready: false },
        };
        self.slots.set(
            token,
            Option::Some(
                SourceState {
                    read_ready: cur.read_ready || read,
                    write_ready: cur.write_ready || write,
                },
            ),
        );
    }

    /// What the scheduler reports when asked about a token: the recorded
    /// readiness for a registered token, nothing for a token that was
    /// never handed out or was deregistered.
    pub fn poll_source(&self, token: usize) -> (r: Option<SourceState>)
        ensures
            r == self.lookup(token),
            r is Some <==> self.registered(token),
    {
        if token < self.slots.len() {
            self.slots[token]
        } else {
            Option::None
        }
    }

    /// Consumes the recorded read readiness for this token: the edge has
    /// been observed, and will not be reported again until a new event.
    pub fn take_read_readiness(&mut self, token: usize) -> (r: bool)
        requires
            old(self).registered(token),
        ensures
            r == old(self).lookup(token)->Some_0.read_ready,
            final(self).max_sources_of() == old(self).max_sources_of(),
            final(self).slots_of() == old(self).slots_of().update(
                token as int,
                Option::Some(
                    SourceState {
                        read_ready: false,
                        write_ready: old(self).lookup(token)->Some_0.write_ready,
                    },
                ),
            ),
    {
        let cur = match self.slots[token] {
            Option::Some(st) => st,
            Option::None => SourceState { read_ready: false, write_ready: false },
        };
        self.slots.set(
            token,
            Option::Some(SourceState { read_ready: false, write_ready: cur.write_ready }),
        );
        cur.read_ready
    }

    /// Consumes the recorded write readiness for this token, symmetric to
    /// the read side.
    pub fn take_write_readiness(&mut self, token: usize) -> (r: bool)
        requires
            old(self).registered(token),
        ensures
            r == old(self).lookup(token)->Some_0.write_ready,
            final(self).max_sources_of() == old(self).max_sources_of(),
            final(self).slots_of() == old(self).slots_of().update(
                token as int,
                Option::Some(
                    SourceState {
                        read_ready: old(self).lookup(token)->Some_0.read_ready,
                        write_ready: false,
                    },
                ),
            ),
    {
        let cur = match self.slots[token] {
            Option::Some(st) => st,
            Option::None => SourceState { read_ready: false, write_ready: false },
        };
        self.slots.set(
            token,
            Option::Some(SourceState { read_ready: cur.read_ready, write_ready: false }),
        );
        cur.write_ready
    }
}

/// A token whose registration was dropped reports nothing: polling it can
/// never yield stale readiness.
pub proof fn dropped_token_reports_nothing(s: Scheduler, token: usize)
    requires
        !s.registered(token),
    ensures
        s.lookup(token) is None,
{
}

} // verus!
