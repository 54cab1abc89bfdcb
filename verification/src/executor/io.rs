//! The table of the I/O reactor: for each registered file descriptor, the waker
//! of the task that waits on it and what readiness was seen.
//!
//! Registering with the poller and waiting for events belong to the caller; it
//! hands the events it got to [`SourceTable::poll_events`] or
//! [`SourceTable::wait_events`], which say whom to wake.
use std::collections::HashMap;
use vstd::prelude::*;

verus! {

/// What the reactor keeps for one file descriptor.
pub struct Source<W> {
    /// The waker of the task that waits on the descriptor, if any.
    pub waker: Option<W>,
    /// Whether the descriptor was seen readable since its interest was last set.
    pub is_readable: bool,
    /// Whether the descriptor was seen writable since its interest was last set.
    pub is_writable: bool,
}

/// A readiness event that the poller reported.
#[derive(Debug, Clone, Copy, PartialEq, Eq, Structural)]
pub struct ReadyEvent {
    pub fd: i32,
    pub readable: bool,
    pub writable: bool,
}

/// The effect of one event: the readiness it reports is added to the source's
/// flags, and the source's waker is handed out (and cleared) when there is one
/// and either `always` holds or the source is now readable or writable.  Events
/// for descriptors that are not registered change nothing.
pub open spec fn apply_event<W>(s: Map<i32, Source<W>>, e: ReadyEvent, always: bool) -> (
    Map<i32, Source<W>>,
    Option<W>,
) {
    if !s.contains_key(e.fd) {
        (s, Option::None)
    } else {
        let src = s[e.fd];
        let r = src.is_readable || e.readable;
        let w = src.is_writable || e.writable;
        let fire = src.waker is Some && (always || r || w);
        (
            s.insert(
                e.fd,
                Source {
                    waker: if fire {
                        Option::None
                    } else {
                        src.waker
                    },
                    is_readable: r,
                    is_writable: w,
                },
            ),
            if fire {
                src.waker
            } else {
                Option::None
            },
        )
    }
}

/// The effect of the events `evs`, in order: the table after them, and the
/// wakers handed out, in order.
pub open spec fn apply_events<W>(s: Map<i32, Source<W>>, evs: Seq<ReadyEvent>, always: bool) -> (
    Map<i32, Source<W>>,
    Seq<W>,
)
    decreases evs.len(),
{
    if evs.len() == 0 {
        (s, Seq::<W>::empty())
    } else {
        let (t, woken) = apply_events(s, evs.drop_last(), always);
        let (u, w) = apply_event(t, evs.last(), always);
        (
            u,
            match w {
                Some(x) => woken.push(x),
                Option::None => woken,
            },
        )
    }
}

/// The source of `fd` with a new waker, its readable readiness (when `readable`)
/// or its writable readiness (otherwise) forgotten.
pub open spec fn with_interest<W>(src: Source<W>, waker: W, readable: bool) -> Source<W> {
    Source {
        waker: Some(waker),
        is_readable: if readable {
            false
        } else {
            src.is_readable
        },
        is_writable: if readable {
            src.is_writable
        } else {
            false
        },
    }
}

/// The registered descriptors of the reactor, by descriptor.
pub struct SourceTable<W> {
    sources: HashMap<i32, Source<W>>,
}

impl<W> View for SourceTable<W> {
    type V = Map<i32, Source<W>>;

    closed spec fn view(&self) -> Map<i32, Source<W>> {
        self.sources@
    }
}

impl<W> SourceTable<W> {
    /// An empty table.
    pub fn new() -> (r: Self)
        ensures
            r@ == Map::<i32, Source<W>>::empty(),
    {
        SourceTable { sources: HashMap::new() }
    }

    /// Whether `fd` is registered.
    pub fn contains(&self, fd: i32) -> (r: bool)
        ensures
            r == self@.contains_key(fd),
    {
        broadcast use vstd::std_specs::hash::group_hash_axioms;

        self.sources.contains_key(&fd)
    }

    /// Registers `fd`, with no waker and no readiness seen; `false` when it was
    /// registered already, and the table stays as it was.
    pub fn register(&mut self, fd: i32) -> (r: bool)
        ensures
            r == !old(self)@.contains_key(fd),
            r ==> final(self)@ == old(self)@.insert(
                fd,
                Source { waker: Option::None, is_readable: false, is_writable: false },
            ),
            !r ==> final(self)@ == old(self)@,
    {
        broadcast use vstd::std_specs::hash::group_hash_axioms;

        if self.sources.contains_key(&fd) {
            return false;
        }
        self.sources.insert(fd, Source { waker: None, is_readable: false, is_writable: false });
        true
    }

    /// Takes `fd` out of the table; `false` when it was not registered.
    pub fn unregister(&mut self, fd: i32) -> (r: bool)
        ensures
            r == old(self)@.contains_key(fd),
            final(self)@ == old(self)@.remove(fd),
    {
        broadcast use vstd::std_specs::hash::group_hash_axioms;

        self.sources.remove(&fd).is_some()
    }

    /// Sets the waker of `fd`, and forgets the readable readiness seen so far.
    pub fn set_readable(&mut self, fd: i32, waker: W)
        ensures
            old(self)@.contains_key(fd) ==> final(self)@ == old(self)@.insert(
                fd,
                with_interest(old(self)@[fd], waker, true),
            ),
            !old(self)@.contains_key(fd) ==> final(self)@ == old(self)@,
    {
        self.set_interest(fd, waker, true);
    }

    /// Sets the waker of `fd`, and forgets the writable readiness seen so far.
    pub fn set_writable(&mut self, fd: i32, waker: W)
        ensures
            old(self)@.contains_key(fd) ==> final(self)@ == old(self)@.insert(
                fd,
                with_interest(old(self)@[fd], waker, false),
            ),
            !old(self)@.contains_key(fd) ==> final(self)@ == old(self)@,
    {
        self.set_interest(fd, waker, false);
    }

    fn set_interest(&mut self, fd: i32, waker: W, readable: bool)
        ensures
            old(self)@.contains_key(fd) ==> final(self)@ == old(self)@.insert(
                fd,
                with_interest(old(self)@[fd], waker, readable),
            ),
            !old(self)@.contains_key(fd) ==> final(self)@ == old(self)@,
    {
        broadcast use vstd::std_specs::hash::group_hash_axioms;

        let ghost before = self@;
        match self.sources.remove(&fd) {
            Some(src) => {
                let new_src = if readable {
                    Source { waker: Some(waker), is_readable: false, is_writable: src.is_writable }
                } else {
                    Source { waker: Some(waker), is_readable: src.is_readable, is_writable: false }
                };
                self.sources.insert(fd, new_src);
                assert(self@ =~= before.insert(fd, with_interest(before[fd], waker, readable)));
            },
            Option::None => {},
        }
    }

    /// Whether `fd` was seen readable since its interest was last set.
    pub fn is_readable(&self, fd: i32) -> (r: bool)
        ensures
            r == (self@.contains_key(fd) && self@[fd].is_readable),
    {
        broadcast use vstd::std_specs::hash::group_hash_axioms;

        match self.sources.get(&fd) {
            Some(src) => src.is_readable,
            Option::None => false,
        }
    }

    /// Whether `fd` was seen writable since its interest was last set.
    pub fn is_writable(&self, fd: i32) -> (r: bool)
        ensures
            r == (self@.contains_key(fd) && self@[fd].is_writable),
    {
        broadcast use vstd::std_specs::hash::group_hash_axioms;

        match self.sources.get(&fd) {
            Some(src) => src.is_writable,
            Option::None => false,
        }
    }

    /// Applies one event.
    fn apply(&mut self, e: ReadyEvent, always: bool) -> (r: Option<W>)
        ensures
            (final(self)@, r) == apply_event(old(self)@, e, always),
    {
        broadcast use vstd::std_specs::hash::group_hash_axioms;

        let ghost before = self@;
        match self.sources.remove(&e.fd) {
            Some(src) => {
                let r = src.is_readable || e.readable;
                let w = src.is_writable || e.writable;
                let fire = src.waker.is_some() && (always || r || w);
                let (kept, out) = if fire {
                    (None, src.waker)
                } else {
                    (src.waker, None)
                };
                let new_src = Source { waker: kept, is_readable: r, is_writable: w };
                self.sources.insert(e.fd, new_src);
                assert(self@ =~= apply_event(before, e, always).0);
                out
            },
            Option::None => {
                assert(self@ =~= before);
                None
            },
        }
    }

    /// Applies the events of a poll that does not wait: readiness is recorded,
    /// and the waker of a source that is now readable or writable is handed out.
    pub fn poll_events(&mut self, events: &Vec<ReadyEvent>) -> (woken: Vec<W>)
        ensures
            (final(self)@, woken@) == apply_events(old(self)@, events@, false),
    {
        self.apply_all(events, false)
    }

    /// Applies the events of a wait: readiness is recorded, and the waker of every
    /// source that had an event is handed out.
    pub fn wait_events(&mut self, events: &Vec<ReadyEvent>) -> (woken: Vec<W>)
        ensures
            (final(self)@, woken@) == apply_events(old(self)@, events@, true),
    {
        self.apply_all(events, true)
    }

    fn apply_all(&mut self, events: &Vec<ReadyEvent>, always: bool) -> (woken: Vec<W>)
        ensures
            (final(self)@, woken@) == apply_events(old(self)@, events@, always),
    {
        let ghost start = self@;
        let mut woken: Vec<W> = Vec::new();
        let mut k: usize = 0;
        assert(events@.subrange(0, 0) =~= Seq::<ReadyEvent>::empty());
        while k < events.len()
            invariant
                k <= events@.len(),
                (self@, woken@) == apply_events(start, events@.subrange(0, k as int), always),
            decreases events.len() - k,
        {
            let e = events[k];
            assert(events@.subrange(0, k + 1).drop_last() =~= events@.subrange(0, k as int));
            assert(events@.subrange(0, k + 1).last() == e);
            match self.apply(e, always) {
                Some(w) => {
                    woken.push(w);
                },
                Option::None => {},
            }
            k = k + 1;
        }
        assert(events@.subrange(0, events@.len() as int) =~= events@);
        woken
    }
}

/// Setting an interest hands the source the new waker and forgets the readiness
/// of that direction only: setting the readable interest clears what was seen
/// readable and keeps what was seen writable, and the other way round.
pub proof fn law_set_interest<W>(src: Source<W>, waker: W)
    ensures
        with_interest(src, waker, true).waker == Some(waker),
        !with_interest(src, waker, true).is_readable,
        with_interest(src, waker, true).is_writable == src.is_writable,
        with_interest(src, waker, false).waker == Some(waker),
        with_interest(src, waker, false).is_readable == src.is_readable,
        !with_interest(src, waker, false).is_writable,
{
}

/// What one event does: for a registered descriptor, the readiness it reports
/// is added to what was seen (nothing is taken back), no other source changes,
/// and the waker is handed out, and cleared, exactly when there is one and either
/// every event wakes (`always`) or the source is now readable or writable.  An
/// event for a descriptor that is not registered changes nothing and wakes no one.
pub proof fn law_event_effect<W>(s: Map<i32, Source<W>>, e: ReadyEvent, always: bool)
    ensures
        !s.contains_key(e.fd) ==> apply_event(s, e, always).0 == s && apply_event(s, e, always).1 is None,
        s.contains_key(e.fd) ==> ({
            let (t, w) = apply_event(s, e, always);
            let src = s[e.fd];
            &&& t.contains_key(e.fd)
            &&& t.remove(e.fd) == s.remove(e.fd)
            &&& t[e.fd].is_readable == (src.is_readable || e.readable)
            &&& t[e.fd].is_writable == (src.is_writable || e.writable)
            &&& (w is Some <==> src.waker is Some && (always || t[e.fd].is_readable
                || t[e.fd].is_writable))
            &&& (w is Some ==> w == src.waker && t[e.fd].waker is None)
            &&& (w is None ==> t[e.fd].waker == src.waker)
        }),
{
    if s.contains_key(e.fd) {
        let (t, w) = apply_event(s, e, always);
        assert(t.remove(e.fd) =~= s.remove(e.fd));
    }
}

/// Events are applied one after the other: the events `a` and then `b` leave the
/// table that `b` leaves after `a`, and hand out the wakers of `a` followed by
/// those of `b`.
pub proof fn law_events_in_sequence<W>(
    s: Map<i32, Source<W>>,
    a: Seq<ReadyEvent>,
    b: Seq<ReadyEvent>,
    always: bool,
)
    ensures
        ({
            let (t, w1) = apply_events(s, a, always);
            let (u, w2) = apply_events(t, b, always);
            apply_events(s, a + b, always) == (u, w1 + w2)
        }),
    decreases b.len(),
{
    let (t, w1) = apply_events(s, a, always);
    if b.len() == 0 {
        assert(a + b =~= a);
        assert(w1 + Seq::<W>::empty() =~= w1);
    } else {
        law_events_in_sequence(s, a, b.drop_last(), always);
        assert((a + b).drop_last() =~= a + b.drop_last());
        assert((a + b).last() == b.last());
        let (u0, w2) = apply_events(t, b.drop_last(), always);
        let (u, w) = apply_event(u0, b.last(), always);
        match w {
            Some(x) => {
                assert((w1 + w2).push(x) =~= w1 + w2.push(x));
            },
            Option::None => {},
        }
    }
}

/// Events never take readiness back, nor add or drop a descriptor: a flag that
/// was set stays set after any event.
pub proof fn law_events_keep_readiness<W>(s: Map<i32, Source<W>>, e: ReadyEvent, always: bool, fd: i32)
    requires
        s.contains_key(fd),
    ensures
        apply_event(s, e, always).0.dom() == s.dom(),
        s[fd].is_readable ==> apply_event(s, e, always).0[fd].is_readable,
        s[fd].is_writable ==> apply_event(s, e, always).0[fd].is_writable,
{
    if s.contains_key(e.fd) {
        assert(apply_event(s, e, always).0.dom() =~= s.dom());
    }
}

/// A waker is handed out at most once: when an event hands out a source's
/// waker, the source keeps none, so later events hand out nothing for it until a
/// waker is set again.
pub proof fn law_waker_handed_out_once<W>(s: Map<i32, Source<W>>, e: ReadyEvent, always: bool)
    requires
        apply_event(s, e, always).1 is Some,
    ensures
        ({
            let t = apply_event(s, e, always).0;
            &&& s.contains_key(e.fd)
            &&& t[e.fd].waker is None
            &&& apply_event(t, e, always).1 is None
        }),
{
}

} // verus!
