//! Addresses and credentials.
use std::collections::BTreeMap;
use std::sync::{Arc, Condvar, Mutex, MutexGuard};
use vstd::prelude::*;

use crate::text::{
    chars_of, concat_str, decimal, find_last, find_pair, last_pos, lemma_decimal,
    lemma_last_pos, lemma_pair_pos, pair_pos, parse_u16, parse_u16_spec, push_char, push_decimal,
    string_of_chars_range,
};

verus! {

/// A host name or address together with a port, written `host:port`.
#[derive(Clone, Debug, PartialEq, Eq, Hash)]
pub struct HostPort {
    pub host: String,
    pub port: u16,
}

/// The text of a host and port: `host:port`.
pub open spec fn host_port_text(host: Seq<char>, port: u16) -> Seq<char> {
    host + seq![':'] + decimal(port as nat)
}

/// What parsing `s` as `host:port` gives: the host and the port, or the error
/// message.
///
/// A text that begins with `[` is an IPv6 address in brackets, `[addr]:port`:
/// the host is what stands between the brackets.  Any other text is split at its
/// last `:`; both sides must be non-empty.  The port is read as `str::parse::<u16>`
/// reads it.
pub open spec fn parse_host_port(s: Seq<char>) -> Result<(Seq<char>, u16), Seq<char>> {
    if s.len() > 0 && s[0] == '[' {
        match pair_pos(s, ']', ':', 0) {
            Some(be) => {
                let port_str = s.subrange(be + 2, s.len() as int);
                match parse_u16_spec(port_str) {
                    Some(p) => Ok((s.subrange(1, be), p)),
                    None => Err("Invalid port number: "@ + port_str),
                }
            },
            None => Err("Invalid IPv6 host:port format: "@ + s),
        }
    } else {
        match last_pos(s, ':') {
            None => Err("Invalid host:port format: "@ + s),
            Some(c) => {
                let host = s.subrange(0, c);
                let port_str = s.subrange(c + 1, s.len() as int);
                if host.len() == 0 || port_str.len() == 0 {
                    Err("Invalid host:port format: "@ + s)
                } else {
                    match parse_u16_spec(port_str) {
                        Some(p) => Ok((host, p)),
                        None => Err("Invalid port number: "@ + port_str),
                    }
                }
            },
        }
    }
}

/// Whether a parse result `r` is the one that `parse_host_port` describes.
pub open spec fn parse_result_matches(
    r: Result<HostPort, String>,
    expected: Result<(Seq<char>, u16), Seq<char>>,
) -> bool {
    match (r, expected) {
        (Ok(hp), Ok((h, p))) => hp.host@ == h && hp.port == p,
        (Err(e), Err(m)) => e@ == m,
        _ => false,
    }
}

impl HostPort {
    /// A host and port.
    pub fn new(host: String, port: u16) -> (r: Self)
        ensures
            r.host == host,
            r.port == port,
    {
        HostPort { host, port }
    }

    /// The text `host:port`.
    pub fn to_string(&self) -> (r: String)
        ensures
            r@ == host_port_text(self.host@, self.port),
    {
        let mut r = self.host.clone();
        push_char(&mut r, ':');
        push_decimal(&mut r, self.port as u64);
        assert(r@ =~= host_port_text(self.host@, self.port));
        r
    }

    /// Parses `host:port`, or `[ipv6]:port`.
    pub fn from_str(s: &str) -> (r: Result<HostPort, String>)
        ensures
            parse_result_matches(r, parse_host_port(s@)),
    {
        let v = chars_of(s);
        let n = v.len();
        if n > 0 && v[0] == '[' {
            match find_pair(&v, ']', ':') {
                Some(be) => {
                    proof {
                        lemma_pair_pos(v@, ']', ':', 0);
                    }
                    let port_chars = slice_chars(&v, be + 2, n);
                    match parse_u16(&port_chars) {
                        Some(port) => {
                            let host = string_of_chars_range(&v, 1, be);
                            Ok(HostPort { host, port })
                        },
                        None => {
                            let port_str = string_of_chars_range(&v, be + 2, n);
                            Err(concat_str("Invalid port number: ", port_str.as_str()))
                        },
                    }
                },
                None => Err(concat_str("Invalid IPv6 host:port format: ", s)),
            }
        } else {
            match find_last(&v, ':') {
                None => Err(concat_str("Invalid host:port format: ", s)),
                Some(c) => {
                    proof {
                        lemma_last_pos(v@, ':');
                    }
                    if c == 0 || c + 1 == n {
                        Err(concat_str("Invalid host:port format: ", s))
                    } else {
                        let port_chars = slice_chars(&v, c + 1, n);
                        match parse_u16(&port_chars) {
                            Some(port) => {
                                let host = string_of_chars_range(&v, 0, c);
                                Ok(HostPort { host, port })
                            },
                            None => {
                                let port_str = string_of_chars_range(&v, c + 1, n);
                                Err(concat_str("Invalid port number: ", port_str.as_str()))
                            },
                        }
                    }
                },
            }
        }
    }

    /// Parses `host:port`, or `[ipv6]:port` (the same as `from_str`).
    pub fn try_from(s: &str) -> (r: Result<HostPort, String>)
        ensures
            parse_result_matches(r, parse_host_port(s@)),
    {
        HostPort::from_str(s)
    }
}

impl std::str::FromStr for HostPort {
    type Err = String;

    fn from_str(s: &str) -> (r: Result<HostPort, String>)
        ensures
            parse_result_matches(r, parse_host_port(s@)),
    {
        HostPort::from_str(s)
    }
}

/// The characters `v[from..to]`.
pub(crate) fn slice_chars(v: &Vec<char>, from: usize, to: usize) -> (r: Vec<char>)
    requires
        from <= to <= v@.len(),
    ensures
        r@ == v@.subrange(from as int, to as int),
{
    let mut r: Vec<char> = Vec::new();
    let mut k: usize = from;
    while k < to
        invariant
            from <= k <= to <= v@.len(),
            r@ == v@.subrange(from as int, k as int),
        decreases to - k,
    {
        r.push(v[k]);
        k = k + 1;
        assert(r@ =~= v@.subrange(from as int, k as int));
    }
    r
}

/// Writing a host and port and parsing the text back gives the same host and
/// port, for every non-empty host that does not begin with `[` (a host in
/// brackets is read as an IPv6 address, without the brackets).
pub proof fn law_host_port_round_trip(host: Seq<char>, port: u16)
    requires
        host.len() > 0,
        host[0] != '[',
    ensures
        parse_host_port(host_port_text(host, port)) == Ok::<(Seq<char>, u16), Seq<char>>(
            (host, port),
        ),
{
    let d = decimal(port as nat);
    let t = host_port_text(host, port);
    lemma_decimal(port as nat);
    lemma_last_pos(t, ':');
    let c = host.len() as int;
    assert(t[c] == ':');
    assert forall|j: int| c < j < t.len() implies t[j] != ':' by {
        assert(t[j] == d[j - c - 1]);
    }
    assert(last_pos(t, ':') == Some(c)) by {
        match last_pos(t, ':') {
            Some(p) => {
                if p < c {
                    assert(t[c] == ':');
                }
            },
            None => {},
        }
    }
    assert(t.subrange(0, c) =~= host);
    assert(t.subrange(c + 1, t.len() as int) =~= d);
    assert(t[0] == host[0]);
}

/// The credentials for one host.
#[derive(Debug, PartialEq, Clone)]
pub struct Creds {
    /// SSH username.
    pub username: String,
    /// SSH password.
    pub password: String,
    /// Optional base32 TOTP key for two-factor authentication.
    pub totp_key: Option<String>,
}

/// The credentials of each host, keyed by the host's `host:port` text.
pub type YamlCreds = BTreeMap<String, Creds>;

/// The error when the credentials file lists nothing for `host`.
pub open spec fn missing_creds_message(host: HostPort) -> Seq<char> {
    "Couldn't find credentials for "@ + host_port_text(host.host@, host.port)
}

/// The credentials of `host`, from what looking up its `host:port` text in the
/// credentials file found (`found`); the error names the host when nothing was
/// found.
pub fn creds_or_missing<'a>(found: Option<&'a Creds>, host: &HostPort) -> (r: Result<&'a Creds, String>)
    ensures
        match found {
            Some(c) => r == Ok::<&Creds, String>(c),
            Option::None => r is Err && r->Err_0@ == missing_creds_message(*host),
        },
{
    match found {
        Some(c) => Ok(c),
        Option::None => {
            let text = host.to_string();
            Err(concat_str("Couldn't find credentials for ", text.as_str()))
        },
    }
}

#[verifier::external_type_specification]
#[verifier::external_body]
#[verifier::reject_recursive_types(T)]
pub struct ExMutex<T: ?Sized>(Mutex<T>);

#[verifier::external_type_specification]
#[verifier::external_body]
#[verifier::reject_recursive_types(T)]
pub struct ExMutexGuard<'a, T: ?Sized + 'a>(MutexGuard<'a, T>);

#[verifier::external_type_specification]
#[verifier::external_body]
pub struct ExCondvar(Condvar);

/// The value that the lock `m` was made holding.  It names a fact fixed when the
/// lock is made, not what the lock holds later.
pub uninterp spec fn made_holding(m: Mutex<bool>) -> bool;

/// `Mutex::new`: a lock holding `value`.  The contract says that the lock was
/// made holding `value`; what a later lock reads is left unsaid: every holder of
/// the token may change it.
#[verifier::external_body]
fn new_flag(value: bool) -> (r: Mutex<bool>)
    ensures
        made_holding(r) == value,
{
    Mutex::new(value)
}

/// `Condvar::new`: a condition variable with no waiters.
#[verifier::external_body]
fn new_condvar() -> Condvar {
    Condvar::new()
}

/// `Arc::clone`: a second handle to the same shared state.
#[verifier::external_body]
fn share(state: &Arc<CancellationState>) -> (r: Arc<CancellationState>)
    ensures
        r == *state,
{
    Arc::clone(state)
}

/// `Mutex::lock`: the guard of the flag, or `None` when a holder panicked while
/// holding it (the lock is poisoned).  Blocks until the lock is free.  Which of
/// the two comes back is left unsaid: it rests on the other holders.
#[verifier::external_body]
fn lock_flag(flag: &Mutex<bool>) -> Option<MutexGuard<'_, bool>> {
    match flag.lock() {
        Ok(guard) => Some(guard),
        Err(_) => None,
    }
}

/// Reads the flag through its guard (`Deref`).  What it reads is left unsaid:
/// the other holders of the token set the flag.
#[verifier::external_body]
fn read_guard(guard: &MutexGuard<'_, bool>) -> bool {
    **guard
}

/// Writes the flag through its guard (`DerefMut`).  Nothing is stated of the
/// flag afterwards: it is shared state, which the contracts here do not model.
#[verifier::external_body]
fn write_guard(guard: &mut MutexGuard<'_, bool>, value: bool) {
    **guard = value;
}

/// `Condvar::notify_all`: wakes every thread waiting on `notify`.
#[verifier::external_body]
fn notify_all(notify: &Condvar) {
    notify.notify_all()
}

/// `Condvar::wait_while`: releases the lock and sleeps until the flag is
/// raised, then takes the lock again.  Returns when the flag has been read as
/// raised, or when the lock is poisoned while it waits.
#[verifier::external_body]
fn wait_until_raised(notify: &Condvar, guard: MutexGuard<'_, bool>) {
    let _result = notify.wait_while(guard, |raised| still_lowered(raised));
}

/// Whether a waiter on the flag goes on waiting: while it is not raised.
fn still_lowered(raised: &mut bool) -> (r: bool)
    ensures
        r == !*old(raised),
        *final(raised) == *old(raised),
{
    !*raised
}

/// The state that the clones of one token share.
struct CancellationState {
    cancelled: Mutex<bool>,
    notify: Condvar,
}

/// A flag that one thread raises and others read or wait for.  Clones share
/// one flag: once a clone is cancelled, all are.
pub struct CancellationToken {
    state: Arc<CancellationState>,
}

impl CancellationToken {
    /// Whether `self` and `other` hold the same shared state; a clone holds the
    /// state of the token it was made from.
    pub closed spec fn shares_flag_with(&self, other: &CancellationToken) -> bool {
        self.state == other.state
    }

    /// Whether the flag was raised when the token was made.
    pub closed spec fn made_cancelled(&self) -> bool {
        made_holding(self.state.cancelled)
    }

    /// A new token, not cancelled.
    pub fn new() -> (r: CancellationToken)
        ensures
            !r.made_cancelled(),
    {
        CancellationToken {
            state: Arc::new(CancellationState { cancelled: new_flag(false), notify: new_condvar() }),
        }
    }

    /// A second handle to the same flag.
    pub fn clone(&self) -> (r: CancellationToken)
        ensures
            r.shares_flag_with(self),
    {
        CancellationToken { state: share(&self.state) }
    }

    /// Raises the flag and wakes every waiter.  Where the lock is poisoned the
    /// flag stays as it is, and the waiters are woken all the same.
    pub fn cancel(&self) {
        match lock_flag(&self.state.cancelled) {
            Some(mut guard) => {
                write_guard(&mut guard, true);
                notify_all(&self.state.notify);
            },
            None => {
                notify_all(&self.state.notify);
            },
        }
    }

    /// Blocks until the flag is raised.  Returns at once where the lock is
    /// poisoned.
    pub fn wait_cancelled(&self) {
        match lock_flag(&self.state.cancelled) {
            Some(guard) => {
                wait_until_raised(&self.state.notify, guard);
            },
            None => {},
        }
    }

    /// Whether the flag is raised; `false` where the lock is poisoned.
    pub fn is_cancelled(&self) -> (r: bool) {
        match lock_flag(&self.state.cancelled) {
            Some(guard) => read_guard(&guard),
            None => false,
        }
    }
}

} // verus!
