//! SSH authentication methods, and the decisions of user authentication.
//!
//! Authentication talks to the server between its decisions, so it is written
//! as a state machine: [`UserAuth::step`] takes what the server answered and
//! says what to do next.  The caller performs the action and hands the answer
//! back.
use vstd::prelude::*;

use crate::text::{
    chars_equal_str, chars_of, concat_str, lowercase, split_chars, split_on, string_of_chars_range,
    to_lowercase, trim, trim_chars, views_of,
};

verus! {

/// The standard SSH authentication methods.
#[derive(Debug, PartialEq, Eq, Clone, Copy, Structural)]
pub enum AuthMethod {
    Password,
    PublicKey,
    KeyboardInteractive,
    HostBased,
    GssApiWithMic,
    GssApiKeyex,
    NoAuth,
}

/// The method that a method name stands for.
pub open spec fn method_named(s: Seq<char>) -> Option<AuthMethod> {
    if s == "password"@ {
        Some(AuthMethod::Password)
    } else if s == "publickey"@ {
        Some(AuthMethod::PublicKey)
    } else if s == "keyboard-interactive"@ {
        Some(AuthMethod::KeyboardInteractive)
    } else if s == "hostbased"@ {
        Some(AuthMethod::HostBased)
    } else if s == "gssapi-with-mic"@ {
        Some(AuthMethod::GssApiWithMic)
    } else if s == "gssapi-keyex"@ {
        Some(AuthMethod::GssApiKeyex)
    } else if s == "none"@ {
        Some(AuthMethod::NoAuth)
    } else {
        Option::None
    }
}

/// The name of a method, as SSH writes it.
pub open spec fn method_name(m: AuthMethod) -> Seq<char> {
    match m {
        AuthMethod::Password => "password"@,
        AuthMethod::PublicKey => "publickey"@,
        AuthMethod::KeyboardInteractive => "keyboard-interactive"@,
        AuthMethod::HostBased => "hostbased"@,
        AuthMethod::GssApiWithMic => "gssapi-with-mic"@,
        AuthMethod::GssApiKeyex => "gssapi-keyex"@,
        AuthMethod::NoAuth => "none"@,
    }
}

/// The methods that a comma-separated list names, in order; each name is
/// trimmed, and names that stand for no method are left out.
pub open spec fn methods_named(pieces: Seq<Seq<char>>) -> Seq<AuthMethod>
    decreases pieces.len(),
{
    if pieces.len() == 0 {
        Seq::<AuthMethod>::empty()
    } else {
        let rest = methods_named(pieces.drop_last());
        match method_named(trim(pieces.last())) {
            Some(m) => rest.push(m),
            Option::None => rest,
        }
    }
}

/// The methods of the comma-separated list `s`.
pub open spec fn parse_methods(s: Seq<char>) -> Seq<AuthMethod> {
    methods_named(split_on(s, ','))
}

/// Whether user authentication reads the method from a server's list: the five
/// methods that a server offers a user (`gssapi-keyex` and `none` are not read).
pub open spec fn read_from_server(m: AuthMethod) -> bool {
    m != AuthMethod::GssApiKeyex && m != AuthMethod::NoAuth
}

/// The methods that a comma-separated list names, in order, whatever the case of
/// the names: each name is trimmed and lowercased, and names that stand for no
/// method that user authentication reads are left out.
pub open spec fn methods_named_any_case(pieces: Seq<Seq<char>>) -> Seq<AuthMethod>
    decreases pieces.len(),
{
    if pieces.len() == 0 {
        Seq::<AuthMethod>::empty()
    } else {
        let rest = methods_named_any_case(pieces.drop_last());
        match method_named(lowercase(trim(pieces.last()))) {
            Some(m) => if read_from_server(m) {
                rest.push(m)
            } else {
                rest
            },
            Option::None => rest,
        }
    }
}

/// The methods of the comma-separated list `s`, whatever the case of the names.
pub open spec fn parse_methods_any_case(s: Seq<char>) -> Seq<AuthMethod> {
    methods_named_any_case(split_on(s, ','))
}

impl AuthMethod {
    /// The method that `s` names exactly, or the error message.
    pub fn from_str(s: &str) -> (r: Result<AuthMethod, String>)
        ensures
            match method_named(s@) {
                Some(m) => r == Ok::<AuthMethod, String>(m),
                Option::None => r is Err && r->Err_0@ == "Unknown authentication method: "@
                    + s@,
            },
    {
        let v = chars_of(s);
        match method_from_chars(&v) {
            Some(m) => Ok(m),
            Option::None => Err(concat_str("Unknown authentication method: ", s)),
        }
    }

    /// The name of the method (`password`, `publickey`, ...).
    pub fn as_str(&self) -> (r: &'static str)
        ensures
            r@ == method_name(*self),
    {
        match self {
            AuthMethod::Password => "password",
            AuthMethod::PublicKey => "publickey",
            AuthMethod::KeyboardInteractive => "keyboard-interactive",
            AuthMethod::HostBased => "hostbased",
            AuthMethod::GssApiWithMic => "gssapi-with-mic",
            AuthMethod::GssApiKeyex => "gssapi-keyex",
            AuthMethod::NoAuth => "none",
        }
    }

    /// The name of the method (`password`, `publickey`, ...), as a string.
    pub fn to_string(&self) -> (r: String)
        ensures
            r@ == method_name(*self),
    {
        String::from_str(self.as_str())
    }
}

/// The method that the characters `v` name exactly.
pub(crate) fn method_from_chars(v: &Vec<char>) -> (r: Option<AuthMethod>)
    ensures
        r == method_named(v@),
{
    if chars_equal_str(v, "password") {
        Some(AuthMethod::Password)
    } else if chars_equal_str(v, "publickey") {
        Some(AuthMethod::PublicKey)
    } else if chars_equal_str(v, "keyboard-interactive") {
        Some(AuthMethod::KeyboardInteractive)
    } else if chars_equal_str(v, "hostbased") {
        Some(AuthMethod::HostBased)
    } else if chars_equal_str(v, "gssapi-with-mic") {
        Some(AuthMethod::GssApiWithMic)
    } else if chars_equal_str(v, "gssapi-keyex") {
        Some(AuthMethod::GssApiKeyex)
    } else if chars_equal_str(v, "none") {
        Some(AuthMethod::NoAuth)
    } else {
        Option::None
    }
}

/// The authentication methods that a server allows, in the order it prefers them.
#[derive(Debug)]
pub struct OrderedAuthMethods {
    pub methods: Vec<AuthMethod>,
}

impl OrderedAuthMethods {
    /// Parses a comma-separated list of methods (`password,publickey,...`),
    /// keeping its order and leaving out names that stand for no method.
    pub fn parse(methods_str: &str) -> (r: Self)
        ensures
            r.methods@ == parse_methods(methods_str@),
    {
        let v = chars_of(methods_str);
        let pieces = split_chars(&v, ',');
        let mut methods: Vec<AuthMethod> = Vec::new();
        let mut i: usize = 0;
        assert(views_of(pieces@).subrange(0, 0) =~= Seq::<Seq<char>>::empty());
        while i < pieces.len()
            invariant
                i <= pieces@.len(),
                methods@ == methods_named(views_of(pieces@).subrange(0, i as int)),
            decreases pieces.len() - i,
        {
            let piece = trim_chars(&pieces[i]);
            let ghost before = views_of(pieces@).subrange(0, i as int);
            assert(views_of(pieces@).subrange(0, i + 1).drop_last() =~= before);
            assert(views_of(pieces@).subrange(0, i + 1).last() == pieces@[i as int]@);
            match method_from_chars(&piece) {
                Some(m) => {
                    methods.push(m);
                },
                Option::None => {},
            }
            i = i + 1;
        }
        assert(views_of(pieces@).subrange(0, pieces@.len() as int) =~= views_of(pieces@));
        OrderedAuthMethods { methods }
    }

    /// Parses a comma-separated list of methods as user authentication reads
    /// the server's list: each name is trimmed and lowercased, the order is kept,
    /// and names that stand for none of `password`, `publickey`,
    /// `keyboard-interactive`, `hostbased` and `gssapi-with-mic` are left out.
    pub fn parse_ignoring_case(methods_str: &str) -> (r: Self)
        ensures
            r.methods@ == parse_methods_any_case(methods_str@),
    {
        let v = chars_of(methods_str);
        let pieces = split_chars(&v, ',');
        let mut methods: Vec<AuthMethod> = Vec::new();
        let mut i: usize = 0;
        assert(views_of(pieces@).subrange(0, 0) =~= Seq::<Seq<char>>::empty());
        while i < pieces.len()
            invariant
                i <= pieces@.len(),
                methods@ == methods_named_any_case(views_of(pieces@).subrange(0, i as int)),
            decreases pieces.len() - i,
        {
            let piece = trim_chars(&pieces[i]);
            let text = string_of_chars_range(&piece, 0, piece.len());
            assert(piece@.subrange(0, piece@.len() as int) =~= piece@);
            let lower = to_lowercase(text.as_str());
            let lower_chars = chars_of(lower.as_str());
            let ghost before = views_of(pieces@).subrange(0, i as int);
            assert(views_of(pieces@).subrange(0, i + 1).drop_last() =~= before);
            assert(views_of(pieces@).subrange(0, i + 1).last() == pieces@[i as int]@);
            match method_from_chars(&lower_chars) {
                Some(m) => {
                    if m != AuthMethod::GssApiKeyex && m != AuthMethod::NoAuth {
                        methods.push(m);
                    }
                },
                Option::None => {},
            }
            i = i + 1;
        }
        assert(views_of(pieces@).subrange(0, pieces@.len() as int) =~= views_of(pieces@));
        OrderedAuthMethods { methods }
    }
}

// ---------------------------------------------------------------------------
// User authentication
// ---------------------------------------------------------------------------

/// Whether user authentication has a way to attempt the method.
pub open spec fn attemptable(m: AuthMethod) -> bool {
    m == AuthMethod::Password || m == AuthMethod::KeyboardInteractive || m
        == AuthMethod::PublicKey
}

/// The next method to attempt: the first attemptable one of `methods`, with the
/// methods before it and itself taken off the list.  Nothing is attempted once
/// the session is authenticated.
pub open spec fn next_attempt(methods: Seq<AuthMethod>, authenticated: bool) -> (
    Seq<AuthMethod>,
    Option<AuthMethod>,
)
    decreases methods.len(),
{
    if methods.len() == 0 || authenticated {
        (methods, Option::None)
    } else if attemptable(methods[0]) {
        (methods.drop_first(), Some(methods[0]))
    } else {
        next_attempt(methods.drop_first(), authenticated)
    }
}

/// Where user authentication stands.
#[derive(Debug, PartialEq, Eq, Clone, Copy, Structural)]
pub enum AuthPhase {
    /// The first list of methods is asked for.
    AwaitInitialMethods,
    /// The method is being attempted.
    AwaitAttempt(AuthMethod),
    /// After a partial success, the list of methods is asked for again.
    AwaitRefreshAfterPartial,
    /// After the method failed (with a TOTP key at hand), the list is asked for again.
    AwaitRefreshAfterFailure(AuthMethod),
    /// Authentication has finished.
    Done,
}

/// What the caller does next.
#[derive(Debug, PartialEq)]
pub enum AuthAction {
    /// Ask the server which methods it allows for the user.
    QueryMethods,
    /// Attempt password authentication.
    TryPassword,
    /// Attempt keyboard-interactive authentication, answering prompts from the credentials.
    TryKeyboardInteractive,
    /// Attempt public key authentication with the identity file that the ssh config names.
    TryPublicKey,
    /// Authentication is over, with this outcome.
    Finish(Result<(), String>),
}

/// What the caller reports back.
#[derive(Debug, PartialEq)]
pub enum AuthEvent {
    /// The server allows these methods (a comma-separated list).
    MethodsListed(String),
    /// Asking for the methods failed with this error.
    QueryFailed(String),
    /// The attempt returned without error.
    AttemptSucceeded,
    /// The attempt failed with this error.
    AttemptFailed(String),
    /// The attempt was not made (nothing to attempt it with).
    AttemptSkipped,
    /// The attempt could not be prepared; authentication stops with this error.
    AttemptAborted(String),
}

/// The mathematical form of an [`AuthAction`].
pub enum AuthActionView {
    QueryMethods,
    TryPassword,
    TryKeyboardInteractive,
    TryPublicKey,
    Finish(Result<(), Seq<char>>),
}

/// The mathematical form of an [`AuthEvent`].
pub enum AuthEventView {
    MethodsListed(Seq<char>),
    QueryFailed(Seq<char>),
    AttemptSucceeded,
    AttemptFailed(Seq<char>),
    AttemptSkipped,
    AttemptAborted(Seq<char>),
}

impl View for AuthAction {
    type V = AuthActionView;

    open spec fn view(&self) -> AuthActionView {
        match self {
            AuthAction::QueryMethods => AuthActionView::QueryMethods,
            AuthAction::TryPassword => AuthActionView::TryPassword,
            AuthAction::TryKeyboardInteractive => AuthActionView::TryKeyboardInteractive,
            AuthAction::TryPublicKey => AuthActionView::TryPublicKey,
            AuthAction::Finish(Ok(())) => AuthActionView::Finish(Ok(())),
            AuthAction::Finish(Err(e)) => AuthActionView::Finish(Err(e@)),
        }
    }
}

impl View for AuthEvent {
    type V = AuthEventView;

    open spec fn view(&self) -> AuthEventView {
        match self {
            AuthEvent::MethodsListed(s) => AuthEventView::MethodsListed(s@),
            AuthEvent::QueryFailed(e) => AuthEventView::QueryFailed(e@),
            AuthEvent::AttemptSucceeded => AuthEventView::AttemptSucceeded,
            AuthEvent::AttemptFailed(e) => AuthEventView::AttemptFailed(e@),
            AuthEvent::AttemptSkipped => AuthEventView::AttemptSkipped,
            AuthEvent::AttemptAborted(e) => AuthEventView::AttemptAborted(e@),
        }
    }
}

/// The state of user authentication, as mathematics sees it.
pub struct UserAuthView {
    pub username: Seq<char>,
    pub host: Seq<char>,
    pub has_totp: bool,
    pub methods: Seq<AuthMethod>,
    pub phase: AuthPhase,
}

/// The message with which authentication fails when no method succeeded.
pub open spec fn auth_failed_message(username: Seq<char>, host: Seq<char>) -> Seq<char> {
    "Authentication failed for user: "@ + username + " on host: "@ + host
}

/// The action that attempts `m`.
pub open spec fn attempt_action(m: AuthMethod) -> AuthActionView {
    if m == AuthMethod::Password {
        AuthActionView::TryPassword
    } else if m == AuthMethod::KeyboardInteractive {
        AuthActionView::TryKeyboardInteractive
    } else {
        AuthActionView::TryPublicKey
    }
}

/// Go on with the list `methods`: attempt the next method, or finish.
pub open spec fn continue_with(s: UserAuthView, methods: Seq<AuthMethod>, authenticated: bool) -> (
    UserAuthView,
    AuthActionView,
) {
    let (rest, next) = next_attempt(methods, authenticated);
    match next {
        Some(m) => (
            UserAuthView { methods: rest, phase: AuthPhase::AwaitAttempt(m), ..s },
            attempt_action(m),
        ),
        Option::None => (
            UserAuthView { methods: rest, phase: AuthPhase::Done, ..s },
            AuthActionView::Finish(
                if authenticated {
                    Ok(())
                } else {
                    Err(auth_failed_message(s.username, s.host))
                },
            ),
        ),
    }
}

/// Finish with the error `e`.
pub open spec fn abort_with(s: UserAuthView, e: Seq<char>) -> (UserAuthView, AuthActionView) {
    (UserAuthView { phase: AuthPhase::Done, ..s }, AuthActionView::Finish(Err(e)))
}

/// Whether the event answers the action that the phase waits for.
pub open spec fn event_fits(phase: AuthPhase, ev: AuthEventView) -> bool {
    match phase {
        AuthPhase::AwaitAttempt(_) => ev is AttemptSucceeded || ev is AttemptFailed
            || ev is AttemptSkipped || ev is AttemptAborted,
        AuthPhase::Done => false,
        _ => ev is MethodsListed || ev is QueryFailed,
    }
}

/// `methods` without `m`.
pub open spec fn without(methods: Seq<AuthMethod>, m: AuthMethod) -> Seq<AuthMethod> {
    methods.filter(differs_from(m))
}

/// The test of being another method than `m`.
pub open spec fn differs_from(m: AuthMethod) -> spec_fn(AuthMethod) -> bool {
    |x: AuthMethod| x != m
}

/// One step of user authentication: the next state and action, given the answer
/// `ev` to the last action and whether the session is now authenticated.
///
/// The methods are tried in the server's order; the names of its list are read
/// whatever their case.  A partial success (no error,
/// yet not authenticated) asks for the list again.  A failure asks for the list
/// again when there is a TOTP key (the failure may be a partial success), and
/// then leaves out the failed method and public key; without a TOTP key the next
/// method is tried.  Errors in asking for the list end authentication.
pub open spec fn auth_step(s: UserAuthView, ev: AuthEventView, authenticated: bool) -> (
    UserAuthView,
    AuthActionView,
) {
    match ev {
        AuthEventView::MethodsListed(text) => {
            let listed = parse_methods_any_case(text);
            match s.phase {
                AuthPhase::AwaitRefreshAfterFailure(m) => continue_with(
                    s,
                    without(without(listed, m), AuthMethod::PublicKey),
                    authenticated,
                ),
                _ => continue_with(s, listed, authenticated),
            }
        },
        AuthEventView::QueryFailed(e) => abort_with(s, e),
        AuthEventView::AttemptAborted(e) => abort_with(s, e),
        AuthEventView::AttemptSkipped => continue_with(s, s.methods, authenticated),
        AuthEventView::AttemptSucceeded => {
            if authenticated {
                continue_with(s, s.methods, authenticated)
            } else {
                (
                    UserAuthView { phase: AuthPhase::AwaitRefreshAfterPartial, ..s },
                    AuthActionView::QueryMethods,
                )
            }
        },
        AuthEventView::AttemptFailed(_) => {
            match s.phase {
                AuthPhase::AwaitAttempt(m) => {
                    if s.has_totp {
                        (
                            UserAuthView { phase: AuthPhase::AwaitRefreshAfterFailure(m), ..s },
                            AuthActionView::QueryMethods,
                        )
                    } else {
                        continue_with(s, s.methods, authenticated)
                    }
                },
                _ => continue_with(s, s.methods, authenticated),
            }
        },
    }
}

/// User authentication against one host.
pub struct UserAuth {
    username: String,
    host: String,
    has_totp: bool,
    methods: Vec<AuthMethod>,
    phase: AuthPhase,
}

impl View for UserAuth {
    type V = UserAuthView;

    closed spec fn view(&self) -> UserAuthView {
        UserAuthView {
            username: self.username@,
            host: self.host@,
            has_totp: self.has_totp,
            methods: self.methods@,
            phase: self.phase,
        }
    }
}

impl UserAuth {
    /// Starts authentication of `username` on the host written `host`; `has_totp`
    /// tells whether the credentials carry a TOTP key.  The first action is to
    /// ask for the methods.
    pub fn new(username: String, host: String, has_totp: bool) -> (r: (UserAuth, AuthAction))
        ensures
            r.0@ == (UserAuthView {
                username: username@,
                host: host@,
                has_totp,
                methods: Seq::<AuthMethod>::empty(),
                phase: AuthPhase::AwaitInitialMethods,
            }),
            r.1@ == AuthActionView::QueryMethods,
    {
        (
            UserAuth {
                username,
                host,
                has_totp,
                methods: Vec::new(),
                phase: AuthPhase::AwaitInitialMethods,
            },
            AuthAction::QueryMethods,
        )
    }

    /// Where authentication stands.
    pub fn phase(&self) -> (r: AuthPhase)
        ensures
            r == self@.phase,
    {
        self.phase
    }

    /// The methods still to try from the last list.
    pub fn methods(&self) -> (r: &Vec<AuthMethod>)
        ensures
            r@ == self@.methods,
    {
        &self.methods
    }

    /// Takes the answer to the last action and says what to do next.
    pub fn step(&mut self, ev: AuthEvent, authenticated: bool) -> (r: AuthAction)
        requires
            event_fits(old(self)@.phase, ev@),
        ensures
            (final(self)@, r@) == auth_step(old(self)@, ev@, authenticated),
    {
        match ev {
            AuthEvent::MethodsListed(text) => {
                let listed = OrderedAuthMethods::parse_ignoring_case(text.as_str()).methods;
                match self.phase {
                    AuthPhase::AwaitRefreshAfterFailure(m) => {
                        let a = remove_method(&listed, m);
                        let b = remove_method(&a, AuthMethod::PublicKey);
                        self.methods = b;
                    },
                    _ => {
                        self.methods = listed;
                    },
                }
                self.continue_loop(authenticated)
            },
            AuthEvent::QueryFailed(e) => {
                self.phase = AuthPhase::Done;
                AuthAction::Finish(Err(e))
            },
            AuthEvent::AttemptAborted(e) => {
                self.phase = AuthPhase::Done;
                AuthAction::Finish(Err(e))
            },
            AuthEvent::AttemptSkipped => self.continue_loop(authenticated),
            AuthEvent::AttemptSucceeded => {
                if authenticated {
                    self.continue_loop(authenticated)
                } else {
                    self.phase = AuthPhase::AwaitRefreshAfterPartial;
                    AuthAction::QueryMethods
                }
            },
            AuthEvent::AttemptFailed(_) => {
                match self.phase {
                    AuthPhase::AwaitAttempt(m) => {
                        if self.has_totp {
                            self.phase = AuthPhase::AwaitRefreshAfterFailure(m);
                            AuthAction::QueryMethods
                        } else {
                            self.continue_loop(authenticated)
                        }
                    },
                    _ => self.continue_loop(authenticated),
                }
            },
        }
    }

    /// Attempts the next method of the list, or finishes.
    fn continue_loop(&mut self, authenticated: bool) -> (r: AuthAction)
        ensures
            (final(self)@, r@) == continue_with(old(self)@, old(self)@.methods, authenticated),
    {
        let ghost s0 = self@;
        let mut rest: Vec<AuthMethod> = Vec::new();
        let mut next: Option<AuthMethod> = Option::None;
        let mut i: usize = 0;
        let n = self.methods.len();
        assert(s0.methods.subrange(0, n as int) =~= s0.methods);
        while i < n && !authenticated && next.is_none()
            invariant
                n == self.methods@.len(),
                self@ == s0,
                i <= n,
                match next {
                    Option::None => next_attempt(s0.methods, authenticated) == next_attempt(
                        s0.methods.subrange(i as int, n as int),
                        authenticated,
                    ),
                    Some(m) => next_attempt(s0.methods, authenticated) == (
                        s0.methods.subrange(i as int, n as int),
                        Some(m),
                    ),
                },
            decreases n - i,
        {
            let m = self.methods[i];
            assert(s0.methods.subrange(i as int, n as int)[0] == m);
            assert(s0.methods.subrange(i as int, n as int).drop_first() =~= s0.methods.subrange(
                i + 1,
                n as int,
            ));
            i = i + 1;
            if m == AuthMethod::Password || m == AuthMethod::KeyboardInteractive || m
                == AuthMethod::PublicKey {
                next = Some(m);
            }
        }
        let mut k: usize = i;
        while k < n
            invariant
                n == self.methods@.len(),
                i <= k <= n,
                rest@ == self.methods@.subrange(i as int, k as int),
            decreases n - k,
        {
            rest.push(self.methods[k]);
            k = k + 1;
            assert(rest@ =~= self.methods@.subrange(i as int, k as int));
        }
        self.methods = rest;
        match next {
            Some(m) => {
                self.phase = AuthPhase::AwaitAttempt(m);
                if m == AuthMethod::Password {
                    AuthAction::TryPassword
                } else if m == AuthMethod::KeyboardInteractive {
                    AuthAction::TryKeyboardInteractive
                } else {
                    AuthAction::TryPublicKey
                }
            },
            Option::None => {
                self.phase = AuthPhase::Done;
                if authenticated {
                    AuthAction::Finish(Ok(()))
                } else {
                    let mut msg = concat_str("Authentication failed for user: ", self.username.as_str());
                    msg.append(" on host: ");
                    msg.append(self.host.as_str());
                    AuthAction::Finish(Err(msg))
                }
            },
        }
    }
}

/// `methods` without the method `m`.
pub fn remove_method(methods: &Vec<AuthMethod>, m: AuthMethod) -> (r: Vec<AuthMethod>)
    ensures
        r@ == without(methods@, m),
{
    let mut r: Vec<AuthMethod> = Vec::new();
    let mut i: usize = 0;
    assert(methods@.subrange(0, 0) =~= Seq::<AuthMethod>::empty());
    while i < methods.len()
        invariant
            i <= methods@.len(),
            r@ == without(methods@.subrange(0, i as int), m),
        decreases methods.len() - i,
    {
        let x = methods[i];
        let ghost before = methods@.subrange(0, i as int);
        assert(methods@.subrange(0, i + 1) =~= before.push(x));
        reveal(Seq::filter);
        assert(before.push(x).drop_last() =~= before);
        if x != m {
            r.push(x);
        }
        i = i + 1;
    }
    assert(methods@.subrange(0, methods@.len() as int) =~= methods@);
    r
}


// ---------------------------------------------------------------------------
// Laws of user authentication
// ---------------------------------------------------------------------------

/// What `next_attempt` keeps is a suffix of the list, and what it picks is an
/// attemptable method of the list that stands just before that suffix.
pub proof fn lemma_next_attempt(methods: Seq<AuthMethod>, authenticated: bool)
    ensures
        ({
            let (rest, next) = next_attempt(methods, authenticated);
            &&& exists|k: int| 0 <= k <= methods.len() && rest == methods.subrange(k, methods.len() as int)
            &&& rest.len() <= methods.len()
            &&& match next {
                Some(m) => {
                    &&& attemptable(m)
                    &&& methods.contains(m)
                    &&& rest.len() < methods.len()
                    &&& !authenticated
                },
                Option::None => authenticated || rest.len() == 0,
            }
        }),
    decreases methods.len(),
{
    if methods.len() == 0 || authenticated {
        assert(methods.subrange(0, methods.len() as int) =~= methods);
    } else if attemptable(methods[0]) {
        assert(methods.drop_first() =~= methods.subrange(1, methods.len() as int));
        assert(methods[0] == methods[0]);
    } else {
        let t = methods.drop_first();
        lemma_next_attempt(t, authenticated);
        let (rest, next) = next_attempt(t, authenticated);
        let k = choose|k: int| 0 <= k <= t.len() && rest == t.subrange(k, t.len() as int);
        assert(rest =~= methods.subrange(k + 1, methods.len() as int));
        if let Some(m) = next {
            let j = choose|j: int| 0 <= j < t.len() && t[j] == m;
            assert(methods[j + 1] == m);
        }
    }
}

/// The list that a step works from: the list the server just sent (less the
/// failed method and public key after a failure), or what is left of the last list.
pub open spec fn step_source(s: UserAuthView, ev: AuthEventView) -> Seq<AuthMethod> {
    match ev {
        AuthEventView::MethodsListed(text) => match s.phase {
            AuthPhase::AwaitRefreshAfterFailure(m) => without(
                without(parse_methods_any_case(text), m),
                AuthMethod::PublicKey,
            ),
            _ => parse_methods_any_case(text),
        },
        _ => s.methods,
    }
}

/// Authentication attempts only methods that the server offered: a step that
/// attempts a method attempts one of the list it works from, one that
/// authentication can attempt (password, keyboard-interactive, public key), and
/// only while the session is not authenticated.
pub proof fn law_attempts_only_offered_methods(
    s: UserAuthView,
    ev: AuthEventView,
    authenticated: bool,
)
    ensures
        ({
            let (t, a) = auth_step(s, ev, authenticated);
            match t.phase {
                AuthPhase::AwaitAttempt(m) => {
                    &&& a == attempt_action(m)
                    &&& step_source(s, ev).contains(m)
                    &&& attemptable(m)
                    &&& !authenticated
                },
                _ => true,
            }
        }),
{
    lemma_next_attempt(step_source(s, ev), authenticated);
    lemma_next_attempt(s.methods, authenticated);
}

/// Authentication succeeds only on an authenticated session: it finishes with
/// `Ok` only when the session is authenticated, and once the session is
/// authenticated an attempt that returns without error finishes it with `Ok`.
pub proof fn law_success_only_when_authenticated(
    s: UserAuthView,
    ev: AuthEventView,
    authenticated: bool,
)
    ensures
        auth_step(s, ev, authenticated).1 == AuthActionView::Finish(Ok(())) ==> authenticated,
        (authenticated && ev is AttemptSucceeded) ==> auth_step(s, ev, authenticated).1
            == AuthActionView::Finish(Ok(())),
{
    lemma_next_attempt(step_source(s, ev), authenticated);
    lemma_next_attempt(s.methods, authenticated);
}

/// Authentication that runs out of methods unauthenticated fails with the message
/// that names the user and the host.
pub proof fn law_exhausted_methods_fail(s: UserAuthView, authenticated: bool)
    requires
        s.methods.len() == 0,
        !authenticated,
    ensures
        auth_step(s, AuthEventView::AttemptSkipped, authenticated).1 == AuthActionView::Finish(
            Err(auth_failed_message(s.username, s.host)),
        ),
{
}

/// After a failure with a TOTP key at hand, the method that failed and public key
/// are not tried again from the list that the server sends next.
pub proof fn law_failed_method_not_retried(
    s: UserAuthView,
    failed: AuthMethod,
    text: Seq<char>,
    authenticated: bool,
)
    requires
        s.phase == AuthPhase::AwaitRefreshAfterFailure(failed),
    ensures
        ({
            let (t, a) = auth_step(s, AuthEventView::MethodsListed(text), authenticated);
            &&& !t.methods.contains(failed)
            &&& !t.methods.contains(AuthMethod::PublicKey)
            &&& t.phase != AuthPhase::AwaitAttempt(failed)
            &&& t.phase != AuthPhase::AwaitAttempt(AuthMethod::PublicKey)
        }),
{
    let listed = parse_methods_any_case(text);
    let src = without(without(listed, failed), AuthMethod::PublicKey);
    lemma_next_attempt(src, authenticated);
    assert forall|x: AuthMethod| src.contains(x) implies x != failed && x
        != AuthMethod::PublicKey by {
        let a = without(listed, failed);
        let p2 = differs_from(AuthMethod::PublicKey);
        let p1 = differs_from(failed);
        let j = choose|j: int| 0 <= j < src.len() && src[j] == x;
        a.lemma_filter_pred(p2, j);
        a.lemma_filter_contains_rev(p2, x);
        let j1 = choose|j1: int| 0 <= j1 < a.len() && a[j1] == x;
        listed.lemma_filter_pred(p1, j1);
    }
    let (rest, next) = next_attempt(src, authenticated);
    let k = choose|k: int| 0 <= k <= src.len() && rest == src.subrange(k, src.len() as int);
    assert forall|x: AuthMethod| rest.contains(x) implies src.contains(x) by {
        let j = choose|j: int| 0 <= j < rest.len() && rest[j] == x;
        assert(src[k + j] == x);
    }
}

/// Within one list from the server each method is tried at most once: a step that
/// goes on with the current list leaves a shorter list when it attempts a method.
pub proof fn law_each_listed_method_tried_once(
    s: UserAuthView,
    ev: AuthEventView,
    authenticated: bool,
)
    requires
        !(ev is MethodsListed),
    ensures
        ({
            let (t, a) = auth_step(s, ev, authenticated);
            &&& t.methods.len() <= s.methods.len()
            &&& (t.phase is AwaitAttempt && !(a is QueryMethods) ==> t.methods.len()
                < s.methods.len())
        }),
{
    lemma_next_attempt(s.methods, authenticated);
}

} // verus!
