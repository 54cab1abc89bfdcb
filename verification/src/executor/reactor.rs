//! The reactor's table of I/O sources: for each token, what readiness the
//! source waits for and the task to wake, and the descriptor behind it.
//!
//! Registering descriptors with the poller and waiting for events belong to the
//! caller; the table says which token a descriptor gets, what to ask the poller
//! for, and whom to wake.
use slab::Slab;
use std::collections::HashMap;
use vstd::prelude::*;

use super::waker::SshBindWaker;

verus! {

/// The token of an I/O source in the poller.
#[derive(Debug, Clone, Copy, PartialEq, Eq, Hash, Structural)]
pub struct Token(pub usize);

/// The readiness that a source waits for.
#[derive(Debug, Clone, Copy, PartialEq, Eq, Structural)]
pub struct Interest {
    pub readable: bool,
    pub writable: bool,
}

impl Interest {
    /// Readable only.
    pub fn readable_only() -> (r: Interest)
        ensures
            r.readable && !r.writable,
    {
        Interest { readable: true, writable: false }
    }

    /// Writable only.
    pub fn writable_only() -> (r: Interest)
        ensures
            !r.readable && r.writable,
    {
        Interest { readable: false, writable: true }
    }

    /// Readable and writable.
    pub fn both() -> (r: Interest)
        ensures
            r.readable && r.writable,
    {
        Interest { readable: true, writable: true }
    }
}

/// A registered I/O source.
#[derive(Clone, Copy)]
pub struct IoSource {
    pub token: Token,
    pub interest: Interest,
    pub waker: Option<SshBindWaker>,
}

/// The event that the poller is asked to report for a source.
#[derive(Debug, Clone, Copy, PartialEq, Eq, Structural)]
pub enum PollEvent {
    /// Readable and writable readiness.
    All,
    /// Readable readiness.
    Readable,
    /// Writable readiness.
    Writable,
    /// No readiness.
    Nothing,
}

/// The event to ask the poller for, for the interest `interest`.
pub open spec fn poll_event(interest: Interest) -> PollEvent {
    if interest.readable && interest.writable {
        PollEvent::All
    } else if interest.readable {
        PollEvent::Readable
    } else if interest.writable {
        PollEvent::Writable
    } else {
        PollEvent::Nothing
    }
}

/// The event to ask the poller for, for the interest `interest`.
pub fn event_for(interest: Interest) -> (r: PollEvent)
    ensures
        r == poll_event(interest),
{
    if interest.readable && interest.writable {
        PollEvent::All
    } else if interest.readable {
        PollEvent::Readable
    } else if interest.writable {
        PollEvent::Writable
    } else {
        PollEvent::Nothing
    }
}

// ---------------------------------------------------------------------------
// The slab of sources
// ---------------------------------------------------------------------------

#[verifier::external_type_specification]
#[verifier::external_body]
#[verifier::reject_recursive_types(T)]
pub struct ExSlab<T>(Slab<T>);

/// A source as plain values: its token, whether it waits to read and to write,
/// and the task that its waker wakes.
pub type SourceEntry = (usize, bool, bool, Option<usize>);

/// The plain values of the source `s`.
pub open spec fn source_entry(s: IoSource) -> SourceEntry {
    (
        s.token.0,
        s.interest.readable,
        s.interest.writable,
        match s.waker {
            Some(w) => Some(w.spec_task_id().0),
            Option::None => Option::None,
        },
    )
}

/// What a slab of sources holds: each occupied key with its source.
pub uninterp spec fn slab_sources(s: Slab<IoSource>) -> Map<usize, SourceEntry>;

/// `Slab::new`: an empty slab.
#[verifier::external_body]
fn slab_new() -> (r: Slab<IoSource>)
    ensures
        slab_sources(r) =~= Map::empty(),
{
    Slab::new()
}

/// `Slab::insert`: stores `v` under a key that was vacant, and returns the key.
#[verifier::external_body]
fn slab_insert(s: &mut Slab<IoSource>, v: IoSource) -> (key: usize)
    requires
        slab_sources(*old(s)).dom().len() < usize::MAX,
    ensures
        !slab_sources(*old(s)).contains_key(key),
        slab_sources(*final(s)) == slab_sources(*old(s)).insert(key, source_entry(v)),
{
    s.insert(v)
}

/// `Slab::get`: the source stored under `key`, if any.
#[verifier::external_body]
fn slab_get(s: &Slab<IoSource>, key: usize) -> (r: Option<IoSource>)
    ensures
        match r {
            Some(v) => slab_sources(*s).contains_key(key) && source_entry(v) == slab_sources(*s)[key],
            Option::None => !slab_sources(*s).contains_key(key),
        },
{
    s.get(key).copied()
}

/// Stores `v` under the occupied `key` (`IndexMut` of `Slab`, which panics on a
/// vacant key).
#[verifier::external_body]
fn slab_replace(s: &mut Slab<IoSource>, key: usize, v: IoSource)
    requires
        slab_sources(*old(s)).contains_key(key),
    ensures
        slab_sources(*final(s)) == slab_sources(*old(s)).insert(key, source_entry(v)),
{
    s[key] = v;
}

/// `Slab::try_remove`: takes the source under `key` out; a vacant key changes
/// nothing.
#[verifier::external_body]
fn slab_try_remove(s: &mut Slab<IoSource>, key: usize) -> (r: Option<IoSource>)
    ensures
        match r {
            Some(v) => {
                &&& slab_sources(*old(s)).contains_key(key)
                &&& source_entry(v) == slab_sources(*old(s))[key]
                &&& slab_sources(*final(s)) == slab_sources(*old(s)).remove(key)
            },
            Option::None => {
                &&& !slab_sources(*old(s)).contains_key(key)
                &&& slab_sources(*final(s)) == slab_sources(*old(s))
            },
        },
{
    s.try_remove(key)
}

/// `Slab::contains`: whether `key` is occupied.
#[verifier::external_body]
fn slab_contains(s: &Slab<IoSource>, key: usize) -> (r: bool)
    ensures
        r == slab_sources(*s).contains_key(key),
{
    s.contains(key)
}

/// `Slab::len`: the number of occupied keys.
#[verifier::external_body]
fn slab_len(s: &Slab<IoSource>) -> (r: usize)
    ensures
        r == slab_sources(*s).dom().len(),
{
    s.len()
}

// ---------------------------------------------------------------------------
// The table of sources
// ---------------------------------------------------------------------------

/// The descriptor that `fds` maps to `token`, if any.
fn fd_of(fds: &HashMap<i32, Token>, token: Token) -> (r: Option<i32>)
    ensures
        match r {
            Some(fd) => fds@.contains_key(fd) && fds@[fd] == token,
            Option::None => forall|fd: i32| #[trigger] fds@.contains_key(fd) ==> fds@[fd] != token,
        },
{
    broadcast use vstd::std_specs::hash::group_hash_axioms;
    for (fd, t) in it: fds.iter()
        invariant
            forall|j: int| 0 <= j < it.index() ==> *it.seq()[j].1 != token,
    {
        if *t == token {
            return Some(*fd);
        }
    }
    None
}

/// Why the table refused a request.
#[derive(Debug, PartialEq, Eq, Clone, Copy, Structural)]
pub enum ReactorError {
    /// No source is registered under the token.
    InvalidToken,
    /// The source is registered, but no descriptor stands behind its token.
    TokenNotFound,
}

/// What the caller does with the poller after `register`.
#[derive(Debug, PartialEq, Eq, Clone, Copy, Structural)]
pub enum RegisterStep {
    /// The descriptor was registered already under `token`, whose interest
    /// changed: ask the poller for `event` on the descriptor.
    Updated { token: Token, event: PollEvent },
    /// A new source `token`: add the descriptor to the poller with no event,
    /// ask for `event`, then confirm with `confirm_register`.
    Added { token: Token, event: PollEvent },
}

/// The table of sources, as mathematics sees it: the sources by key, and the
/// token of each registered descriptor.
pub struct RegistryView {
    pub sources: Map<usize, SourceEntry>,
    pub fds: Map<i32, usize>,
}

/// Whether a table is consistent: each source's token is its key, each
/// descriptor stands for a registered source, and no two descriptors share a
/// token.
pub open spec fn registry_ok(v: RegistryView) -> bool {
    &&& forall|k: usize| #[trigger] v.sources.contains_key(k) ==> v.sources[k].0 == k
    &&& forall|fd: i32| #[trigger] v.fds.contains_key(fd) ==> v.sources.contains_key(v.fds[fd])
    &&& forall|a: i32, b: i32|
        #[trigger] v.fds.contains_key(a) && #[trigger] v.fds.contains_key(b) && a != b ==> v.fds[a]
            != v.fds[b]
}

/// Changing the entry of a registered source, keeping its token, keeps a table
/// consistent.
proof fn lemma_update_keeps_ok(v: RegistryView, k: usize, e: SourceEntry)
    requires
        registry_ok(v),
        v.sources.contains_key(k),
        e.0 == k,
    ensures
        registry_ok(RegistryView { sources: v.sources.insert(k, e), fds: v.fds }),
{
}

/// Adding a source under a new key, with its key as token, keeps a table
/// consistent.
proof fn lemma_add_keeps_ok(v: RegistryView, k: usize, e: SourceEntry)
    requires
        registry_ok(v),
        !v.sources.contains_key(k),
        e.0 == k,
    ensures
        registry_ok(RegistryView { sources: v.sources.insert(k, e), fds: v.fds }),
{
}

/// Taking a source out, together with the descriptor that stands for it (if
/// any), keeps a table consistent.
proof fn lemma_remove_keeps_ok(v: RegistryView, k: usize, fds: Map<i32, usize>)
    requires
        registry_ok(v),
        forall|fd: i32| #[trigger] fds.contains_key(fd) ==> v.fds.contains_key(fd) && fds[fd] == v.fds[fd],
        forall|fd: i32| #[trigger] fds.contains_key(fd) ==> fds[fd] != k,
    ensures
        registry_ok(RegistryView { sources: v.sources.remove(k), fds }),
{
    let w = RegistryView { sources: v.sources.remove(k), fds };
    assert forall|a: i32, b: i32|
        #[trigger] w.fds.contains_key(a) && #[trigger] w.fds.contains_key(b) && a != b implies w.fds[a]
        != w.fds[b] by {
        assert(v.fds.contains_key(a) && v.fds.contains_key(b));
    }
}

/// The reactor's table: the sources by token, and the token of each descriptor.
pub struct SourceRegistry {
    sources: Slab<IoSource>,
    fd_to_token: HashMap<i32, Token>,
}

impl View for SourceRegistry {
    type V = RegistryView;

    closed spec fn view(&self) -> RegistryView {
        RegistryView {
            sources: slab_sources(self.sources),
            fds: self.fd_to_token@.map_values(|t: Token| t.0),
        }
    }
}

/// The tasks to wake for the ready keys `keys`, in order: the waker's task of
/// each key that holds a source with a waker.
pub open spec fn wakers_of(sources: Map<usize, SourceEntry>, keys: Seq<usize>) -> Seq<usize>
    decreases keys.len(),
{
    if keys.len() == 0 {
        Seq::<usize>::empty()
    } else {
        let rest = wakers_of(sources, keys.drop_last());
        let k = keys.last();
        if sources.contains_key(k) && sources[k].3 is Some {
            rest.push(sources[k].3->0)
        } else {
            rest
        }
    }
}

/// The entry of `e` with another interest.
pub open spec fn with_interest(e: SourceEntry, interest: Interest) -> SourceEntry {
    (e.0, interest.readable, interest.writable, e.3)
}

/// The entry of `e` with the waker of the task `task`.
pub open spec fn with_waker(e: SourceEntry, task: usize) -> SourceEntry {
    (e.0, e.1, e.2, Some(task))
}

impl SourceRegistry {
    /// The table is consistent: each source's token is its key, each descriptor
    /// stands for a registered source, and no two descriptors share a token.
    pub closed spec fn wf(&self) -> bool {
        registry_ok(self@)
    }

    /// An empty table.
    pub fn new() -> (r: Self)
        ensures
            r.wf(),
            r@.sources == Map::<usize, SourceEntry>::empty(),
            r@.fds == Map::<i32, usize>::empty(),
    {
        let r = SourceRegistry { sources: slab_new(), fd_to_token: HashMap::new() };
        assert(r@.fds =~= Map::<i32, usize>::empty());
        r
    }

    /// Whether a source is registered under `token`.
    pub fn is_registered(&self, token: Token) -> (r: bool)
        ensures
            r == self@.sources.contains_key(token.0),
    {
        slab_contains(&self.sources, token.0)
    }

    /// Registers the descriptor `fd` with the readiness `interest`.  A descriptor
    /// registered already keeps its token and takes the new interest; a new one
    /// gets a fresh token, and becomes the token's descriptor with
    /// `confirm_register`.
    pub fn register(&mut self, fd: i32, interest: Interest) -> (r: RegisterStep)
        requires
            old(self).wf(),
            old(self)@.sources.dom().len() < usize::MAX,
        ensures
            final(self).wf(),
            final(self)@.fds == old(self)@.fds,
            match r {
                RegisterStep::Updated { token, event } => {
                    &&& old(self)@.fds.contains_key(fd)
                    &&& token.0 == old(self)@.fds[fd]
                    &&& event == poll_event(interest)
                    &&& final(self)@.sources == old(self)@.sources.insert(
                        token.0,
                        with_interest(old(self)@.sources[token.0], interest),
                    )
                },
                RegisterStep::Added { token, event } => {
                    &&& !old(self)@.fds.contains_key(fd)
                    &&& !old(self)@.sources.contains_key(token.0)
                    &&& event == poll_event(interest)
                    &&& final(self)@.sources == old(self)@.sources.insert(
                        token.0,
                        (token.0, interest.readable, interest.writable, Option::None),
                    )
                },
            },
    {
        broadcast use vstd::std_specs::hash::group_hash_axioms;

        match self.fd_to_token.get(&fd) {
            Some(t) => {
                let token = *t;
                assert(self@.fds.contains_key(fd) && self@.fds[fd] == token.0);
                match slab_get(&self.sources, token.0) {
                    Some(src) => {
                        proof {
                            lemma_update_keeps_ok(
                                self@,
                                token.0,
                                source_entry(IoSource { token: src.token, interest, waker: src.waker }),
                            );
                        }
                        slab_replace(
                            &mut self.sources,
                            token.0,
                            IoSource { token: src.token, interest, waker: src.waker },
                        );
                        assert(self@.sources =~= old(self)@.sources.insert(
                            token.0,
                            with_interest(old(self)@.sources[token.0], interest),
                        ));
                    },
                    Option::None => {},
                }
                RegisterStep::Updated { token, event: event_for(interest) }
            },
            Option::None => {
                let key = slab_insert(
                    &mut self.sources,
                    IoSource { token: Token(0), interest, waker: None },
                );
                proof {
                    lemma_add_keeps_ok(
                        old(self)@,
                        key,
                        source_entry(IoSource { token: Token(key), interest, waker: None }),
                    );
                }
                slab_replace(&mut self.sources, key, IoSource { token: Token(key), interest, waker: None });
                assert(self@.sources =~= old(self)@.sources.insert(
                    key,
                    (key, interest.readable, interest.writable, Option::None),
                ));
                RegisterStep::Added { token: Token(key), event: event_for(interest) }
            },
        }
    }

    /// Records `fd` as the descriptor of the new source `token`, once the poller
    /// has taken it.
    pub fn confirm_register(&mut self, fd: i32, token: Token)
        requires
            old(self).wf(),
            old(self)@.sources.contains_key(token.0),
            !old(self)@.fds.contains_key(fd),
            forall|other: i32| #[trigger]
                old(self)@.fds.contains_key(other) ==> old(self)@.fds[other] != token.0,
        ensures
            final(self).wf(),
            final(self)@.sources == old(self)@.sources,
            final(self)@.fds == old(self)@.fds.insert(fd, token.0),
    {
        broadcast use vstd::std_specs::hash::group_hash_axioms;

        let _ = self.fd_to_token.insert(fd, token);
        assert(self@.fds =~= old(self)@.fds.insert(fd, token.0));
    }

    /// Sets the readiness that the source `token` waits for, and gives the
    /// descriptor and event to ask the poller for.
    pub fn modify_interest(&mut self, token: Token, interest: Interest) -> (r: Result<
        (i32, PollEvent),
        ReactorError,
    >)
        requires
            old(self).wf(),
        ensures
            final(self).wf(),
            final(self)@.fds == old(self)@.fds,
            !old(self)@.sources.contains_key(token.0) ==> {
                &&& r == Err::<(i32, PollEvent), ReactorError>(ReactorError::InvalidToken)
                &&& final(self)@.sources == old(self)@.sources
            },
            old(self)@.sources.contains_key(token.0) ==> {
                &&& final(self)@.sources == old(self)@.sources.insert(
                    token.0,
                    with_interest(old(self)@.sources[token.0], interest),
                )
                &&& match r {
                    Ok((fd, event)) => {
                        &&& old(self)@.fds.contains_key(fd)
                        &&& old(self)@.fds[fd] == token.0
                        &&& event == poll_event(interest)
                    },
                    Err(e) => {
                        &&& e == ReactorError::TokenNotFound
                        &&& forall|fd: i32| #[trigger]
                            old(self)@.fds.contains_key(fd) ==> old(self)@.fds[fd] != token.0
                    },
                }
            },
    {
        match slab_get(&self.sources, token.0) {
            Some(src) => {
                proof {
                    lemma_update_keeps_ok(
                        self@,
                        token.0,
                        source_entry(IoSource { token: src.token, interest, waker: src.waker }),
                    );
                }
                slab_replace(
                    &mut self.sources,
                    token.0,
                    IoSource { token: src.token, interest, waker: src.waker },
                );
                match fd_of(&self.fd_to_token, token) {
                    Some(fd) => Ok((fd, event_for(interest))),
                    Option::None => Err(ReactorError::TokenNotFound),
                }
            },
            Option::None => Err(ReactorError::InvalidToken),
        }
    }

    /// Sets the waker of the source `token`.
    pub fn register_waker(&mut self, token: Token, waker: SshBindWaker) -> (r: Result<(), ReactorError>)
        requires
            old(self).wf(),
        ensures
            final(self).wf(),
            final(self)@.fds == old(self)@.fds,
            old(self)@.sources.contains_key(token.0) ==> {
                &&& r is Ok
                &&& final(self)@.sources == old(self)@.sources.insert(
                    token.0,
                    with_waker(old(self)@.sources[token.0], waker.spec_task_id().0),
                )
            },
            !old(self)@.sources.contains_key(token.0) ==> {
                &&& r == Err::<(), ReactorError>(ReactorError::InvalidToken)
                &&& final(self)@.sources == old(self)@.sources
            },
    {
        match slab_get(&self.sources, token.0) {
            Some(src) => {
                proof {
                    lemma_update_keeps_ok(
                        self@,
                        token.0,
                        source_entry(IoSource { token: src.token, interest: src.interest, waker: Some(waker) }),
                    );
                }
                slab_replace(
                    &mut self.sources,
                    token.0,
                    IoSource { token: src.token, interest: src.interest, waker: Some(waker) },
                );
                Ok(())
            },
            Option::None => Err(ReactorError::InvalidToken),
        }
    }

    /// The wakers to wake for the keys of the ready events `keys`, in order.
    pub fn wakers_for(&self, keys: &Vec<usize>) -> (r: Vec<SshBindWaker>)
        ensures
            r@.map_values(|w: SshBindWaker| w.spec_task_id().0) == wakers_of(self@.sources, keys@),
    {
        let mut r: Vec<SshBindWaker> = Vec::new();
        let mut i: usize = 0;
        assert(keys@.subrange(0, 0) =~= Seq::<usize>::empty());
        while i < keys.len()
            invariant
                i <= keys@.len(),
                r@.map_values(|w: SshBindWaker| w.spec_task_id().0) == wakers_of(
                    self@.sources,
                    keys@.subrange(0, i as int),
                ),
            decreases keys.len() - i,
        {
            let k = keys[i];
            assert(keys@.subrange(0, i + 1).drop_last() =~= keys@.subrange(0, i as int));
            assert(keys@.subrange(0, i + 1).last() == k);
            let ghost before = r@;
            match slab_get(&self.sources, k) {
                Some(src) => match src.waker {
                    Some(w) => {
                        r.push(w);
                        assert(r@.map_values(|w: SshBindWaker| w.spec_task_id().0) =~= before.map_values(
                            |w: SshBindWaker| w.spec_task_id().0,
                        ).push(w.spec_task_id().0));
                    },
                    Option::None => {},
                },
                Option::None => {},
            }
            i = i + 1;
        }
        assert(keys@.subrange(0, keys@.len() as int) =~= keys@);
        r
    }

    /// Takes the source `token` out of the table, and hands back its descriptor
    /// (to take out of the poller), if one stands behind it.
    pub fn unregister(&mut self, token: Token) -> (r: Result<Option<i32>, ReactorError>)
        requires
            old(self).wf(),
        ensures
            final(self).wf(),
            !old(self)@.sources.contains_key(token.0) ==> {
                &&& r == Err::<Option<i32>, ReactorError>(ReactorError::InvalidToken)
                &&& final(self)@ == old(self)@
            },
            old(self)@.sources.contains_key(token.0) ==> {
                &&& final(self)@.sources == old(self)@.sources.remove(token.0)
                &&& match r {
                    Ok(Some(fd)) => {
                        &&& old(self)@.fds.contains_key(fd)
                        &&& old(self)@.fds[fd] == token.0
                        &&& final(self)@.fds == old(self)@.fds.remove(fd)
                    },
                    Ok(Option::None) => {
                        &&& forall|fd: i32| #[trigger]
                            old(self)@.fds.contains_key(fd) ==> old(self)@.fds[fd] != token.0
                        &&& final(self)@.fds == old(self)@.fds
                    },
                    Err(_) => false,
                }
            },
    {
        broadcast use vstd::std_specs::hash::group_hash_axioms;

        match slab_try_remove(&mut self.sources, token.0) {
            Some(_) => match fd_of(&self.fd_to_token, token) {
                Some(fd) => {
                    let _ = self.fd_to_token.remove(&fd);
                    assert(self@.fds =~= old(self)@.fds.remove(fd));
                    proof {
                        lemma_remove_keeps_ok(old(self)@, token.0, self@.fds);
                    }
                    Ok(Some(fd))
                },
                Option::None => {
                    proof {
                        lemma_remove_keeps_ok(old(self)@, token.0, self@.fds);
                    }
                    Ok(None)
                },
            },
            Option::None => Err(ReactorError::InvalidToken),
        }
    }

    /// The number of registered sources.
    pub fn source_count(&self) -> (r: usize)
        ensures
            r == self@.sources.dom().len(),
    {
        slab_len(&self.sources)
    }
}

/// Which wakers a ready key hands out: the waker's task of the key's source when
/// the source holds a waker, whatever readiness it waits for, and none when the
/// key holds no source or its source holds no waker.
pub proof fn law_ready_key_wakes_its_waiter(sources: Map<usize, SourceEntry>, k: usize)
    ensures
        sources.contains_key(k) && sources[k].3 is Some ==> wakers_of(sources, seq![k]) == seq![
            sources[k].3->0,
        ],
        !(sources.contains_key(k) && sources[k].3 is Some) ==> wakers_of(sources, seq![k])
            == Seq::<usize>::empty(),
{
    let keys = seq![k];
    assert(keys.drop_last() =~= Seq::<usize>::empty());
    assert(keys.last() == k);
    assert(wakers_of(sources, keys.drop_last()) == Seq::<usize>::empty());
    if sources.contains_key(k) && sources[k].3 is Some {
        assert(Seq::<usize>::empty().push(sources[k].3->0) =~= seq![sources[k].3->0]);
    }
}

/// Ready keys are served one after the other: the keys `a` and then `b` wake the
/// tasks that `a` wakes, followed by those that `b` wakes.
pub proof fn law_ready_keys_in_sequence(sources: Map<usize, SourceEntry>, a: Seq<usize>, b: Seq<usize>)
    ensures
        wakers_of(sources, a + b) == wakers_of(sources, a) + wakers_of(sources, b),
    decreases b.len(),
{
    if b.len() == 0 {
        assert(a + b =~= a);
        assert(wakers_of(sources, a) + Seq::<usize>::empty() =~= wakers_of(sources, a));
    } else {
        law_ready_keys_in_sequence(sources, a, b.drop_last());
        assert((a + b).drop_last() =~= a + b.drop_last());
        assert((a + b).last() == b.last());
        let k = b.last();
        if sources.contains_key(k) && sources[k].3 is Some {
            assert((wakers_of(sources, a) + wakers_of(sources, b.drop_last())).push(sources[k].3->0)
                =~= wakers_of(sources, a) + wakers_of(sources, b.drop_last()).push(sources[k].3->0));
        }
    }
}

/// Registering a new descriptor, confirming it, and taking its source out again
/// leaves the table as it was: the source goes, and the descriptor with it.
/// `s1`, `s2` and `s3` are the tables after `register`, `confirm_register` and
/// `unregister`, as their contracts give them.
pub proof fn law_register_then_unregister_restores(
    s0: RegistryView,
    s1: RegistryView,
    s2: RegistryView,
    s3: RegistryView,
    fd: i32,
    k: usize,
    e: SourceEntry,
    fd_out: i32,
)
    requires
        registry_ok(s0),
        !s0.fds.contains_key(fd),
        !s0.sources.contains_key(k),
        s1.sources == s0.sources.insert(k, e),
        s1.fds == s0.fds,
        s2.sources == s1.sources,
        s2.fds == s1.fds.insert(fd, k),
        s3.sources == s2.sources.remove(k),
        s2.fds.contains_key(fd_out),
        s2.fds[fd_out] == k,
        s3.fds == s2.fds.remove(fd_out),
    ensures
        s3 == s0,
{
    if fd_out != fd {
        assert(s0.fds.contains_key(fd_out));
        assert(s0.sources.contains_key(s0.fds[fd_out]));
    }
    assert(s3.sources =~= s0.sources);
    assert(s3.fds =~= s0.fds);
}

} // verus!
