//! The background daemon: the commands that clients send, the daemon's answers,
//! and its table of bindings.
//!
//! Running the bindings, the local socket and the process handling belong to
//! the caller; [`DaemonState::handle_command`] decides the answer, the change of
//! the table, and the bindings to start or stop.
use vstd::prelude::*;

use crate::registry::{has_key, keys_unique, law_insert_then_remove, AddrMap};
use crate::text::concat_str;

verus! {

/// A request from a client.
#[derive(Debug, PartialEq)]
pub enum DaemonCommand {
    Ping,
    Bind {
        addr: String,
        jump_hosts: Vec<String>,
        remote: Option<String>,
        sopsfile: String,
        cmd: Option<String>,
    },
    Unbind { addr: String },
    List,
    Shutdown,
}

/// The daemon's answer.
#[derive(Debug, PartialEq)]
pub enum DaemonResponse {
    Success(String),
    List(Vec<BindingDetails>),
    Error(String),
}

/// What the daemon records of a binding.
#[derive(Debug, PartialEq)]
pub struct BindingDetails {
    pub addr: String,
    pub jump_hosts: Vec<String>,
    pub cmd: Option<String>,
    pub remote: Option<String>,
    /// Seconds since the Unix epoch when the binding was made.
    pub timestamp: u64,
}

/// A binding to start or stop.
#[derive(Debug, PartialEq)]
pub enum DaemonEffect {
    /// Bind the local address (the library's `bind`).
    Bind {
        addr: String,
        jump_hosts: Vec<String>,
        remote: Option<String>,
        sopsfile: String,
        cmd: Option<String>,
    },
    /// Stop the binding on the local address (the library's `unbind`).
    Unbind(String),
}

/// A copy of the strings `v`.
fn copy_strings(v: &Vec<String>) -> (r: Vec<String>)
    ensures
        r@ == v@,
{
    let mut r: Vec<String> = Vec::new();
    let mut i: usize = 0;
    while i < v.len()
        invariant
            i <= v@.len(),
            r@ == v@.subrange(0, i as int),
        decreases v.len() - i,
    {
        r.push(v[i].clone());
        i = i + 1;
        assert(r@ =~= v@.subrange(0, i as int));
    }
    assert(v@.subrange(0, v@.len() as int) =~= v@);
    r
}

/// A copy of the optional string `v`.
fn copy_opt_string(v: &Option<String>) -> (r: Option<String>)
    ensures
        r == *v,
{
    match v {
        Some(s) => Some(s.clone()),
        Option::None => None,
    }
}

impl BindingDetails {
    /// A copy of the details.
    pub fn copy(&self) -> (r: BindingDetails)
        ensures
            same_details(r, *self),
    {
        BindingDetails {
            addr: self.addr.clone(),
            jump_hosts: copy_strings(&self.jump_hosts),
            cmd: copy_opt_string(&self.cmd),
            remote: copy_opt_string(&self.remote),
            timestamp: self.timestamp,
        }
    }
}

/// Whether two records of a binding hold the same details.
pub open spec fn same_details(a: BindingDetails, b: BindingDetails) -> bool {
    &&& a.addr@ == b.addr@
    &&& a.jump_hosts@ == b.jump_hosts@
    &&& a.cmd == b.cmd
    &&& a.remote == b.remote
    &&& a.timestamp == b.timestamp
}

/// The state of the daemon: its bindings, by local address, and whether it is to
/// end after the current request.
pub struct DaemonState {
    bindings: AddrMap<BindingDetails>,
    time_to_die: bool,
}

/// The state of the daemon, as mathematics sees it.
pub struct DaemonView {
    pub bindings: Seq<(Seq<char>, BindingDetails)>,
    pub time_to_die: bool,
}

impl View for DaemonState {
    type V = DaemonView;

    closed spec fn view(&self) -> DaemonView {
        DaemonView { bindings: self.bindings@, time_to_die: self.time_to_die }
    }
}

/// Whether `d` records the bind request with these arguments, made at `now`.
pub open spec fn records_request(
    d: BindingDetails,
    addr: String,
    jump_hosts: Vec<String>,
    remote: Option<String>,
    cmd: Option<String>,
    now: u64,
) -> bool {
    &&& d.addr@ == addr@
    &&& d.jump_hosts@ == jump_hosts@
    &&& d.cmd == cmd
    &&& d.remote == remote
    &&& d.timestamp == now
}

/// Whether `r` is the success answer with the text `t`.
pub open spec fn is_success(r: DaemonResponse, t: Seq<char>) -> bool {
    r is Success && r->Success_0@ == t
}

/// Whether `r` is the error answer with the text `t`.
pub open spec fn is_error(r: DaemonResponse, t: Seq<char>) -> bool {
    r is Error && r->Error_0@ == t
}

impl DaemonState {
    /// The state is consistent: no local address is bound twice.
    pub open spec fn wf(&self) -> bool {
        keys_unique(self@.bindings)
    }

    /// A daemon with no bindings.
    pub fn new() -> (r: Self)
        ensures
            r@.bindings == Seq::<(Seq<char>, BindingDetails)>::empty(),
            !r@.time_to_die,
            r.wf(),
    {
        DaemonState { bindings: AddrMap::new(), time_to_die: false }
    }

    /// Whether the daemon is to end after the current request.
    pub fn time_to_die(&self) -> (r: bool)
        ensures
            r == self@.time_to_die,
    {
        self.time_to_die
    }

    /// Answers a request; `now` is the time in seconds since the Unix epoch.
    ///
    /// `Ping` is answered `PONG`.  `Bind` records the binding and asks to start
    /// it, unless the address is bound already.  `Unbind` asks to stop the binding
    /// and forgets it.  `Shutdown` asks to stop every binding, forgets them all and
    /// marks the daemon to end.  `List` answers the recorded bindings, in order.
    pub fn handle_command(&mut self, cmd: DaemonCommand, now: u64) -> (r: (
        DaemonResponse,
        Vec<DaemonEffect>,
    ))
        requires
            old(self).wf(),
        ensures
            final(self).wf(),
            match cmd {
                DaemonCommand::Ping => {
                    &&& is_success(r.0, "PONG"@)
                    &&& r.1@.len() == 0
                    &&& final(self)@ == old(self)@
                },
                DaemonCommand::Bind { addr, jump_hosts, remote, sopsfile, cmd } => if has_key(
                    old(self)@.bindings,
                    addr@,
                ) {
                    &&& is_error(r.0, "Address "@ + addr@ + " is already bound."@)
                    &&& r.1@.len() == 0
                    &&& final(self)@ == old(self)@
                } else {
                    &&& is_success(r.0, "Bound at "@ + addr@)
                    &&& r.1@ == seq![
                        DaemonEffect::Bind { addr, jump_hosts, remote, sopsfile, cmd },
                    ]
                    &&& final(self)@.bindings.len() == old(self)@.bindings.len() + 1
                    &&& final(self)@.bindings.drop_last() == old(self)@.bindings
                    &&& final(self)@.bindings.last().0 == addr@
                    &&& records_request(
                        final(self)@.bindings.last().1,
                        addr,
                        jump_hosts,
                        remote,
                        cmd,
                        now,
                    )
                    &&& final(self)@.time_to_die == old(self)@.time_to_die
                },
                DaemonCommand::Unbind { addr } => {
                    &&& is_success(r.0, "Unbound "@ + addr@)
                    &&& r.1@ == seq![DaemonEffect::Unbind(addr)]
                    &&& !has_key(final(self)@.bindings, addr@)
                    &&& final(self)@.time_to_die == old(self)@.time_to_die
                    &&& (if has_key(old(self)@.bindings, addr@) {
                        exists|i: int|
                            0 <= i < old(self)@.bindings.len() && old(self)@.bindings[i].0 == addr@
                                && final(self)@.bindings == old(self)@.bindings.remove(i)
                    } else {
                        final(self)@.bindings == old(self)@.bindings
                    })
                },
                DaemonCommand::Shutdown => {
                    &&& is_success(r.0, "All bindings cleared. Shutting down."@)
                    &&& r.1@.len() == old(self)@.bindings.len()
                    &&& forall|i: int|
                        0 <= i < r.1@.len() ==> #[trigger] r.1@[i] is Unbind && r.1@[i]->Unbind_0@
                            == old(self)@.bindings[i].0
                    &&& final(self)@.bindings == Seq::<(Seq<char>, BindingDetails)>::empty()
                    &&& final(self)@.time_to_die
                },
                DaemonCommand::List => {
                    &&& r.0 is List
                    &&& r.0->List_0@.len() == old(self)@.bindings.len()
                    &&& forall|i: int|
                        0 <= i < r.0->List_0@.len() ==> same_details(
                            #[trigger] r.0->List_0@[i],
                            old(self)@.bindings[i].1,
                        )
                    &&& r.1@.len() == 0
                    &&& final(self)@ == old(self)@
                },
            },
    {
        match cmd {
            DaemonCommand::Ping => {
                let msg = String::from_str("PONG");
                let effects: Vec<DaemonEffect> = Vec::new();
                assert(effects@.len() == 0);
                (DaemonResponse::Success(msg), effects)
            },
            DaemonCommand::Bind { addr, jump_hosts, remote, sopsfile, cmd } => {
                if self.bindings.contains(addr.as_str()) {
                    let mut msg = concat_str("Address ", addr.as_str());
                    msg.append(" is already bound.");
                    (DaemonResponse::Error(msg), Vec::new())
                } else {
                    let details = BindingDetails {
                        addr: addr.clone(),
                        jump_hosts: copy_strings(&jump_hosts),
                        cmd: copy_opt_string(&cmd),
                        remote: copy_opt_string(&remote),
                        timestamp: now,
                    };
                    let key = addr.clone();
                    let _ = self.bindings.insert(key, details);
                    let msg = concat_str("Bound at ", addr.as_str());
                    let mut effects: Vec<DaemonEffect> = Vec::new();
                    effects.push(DaemonEffect::Bind { addr, jump_hosts, remote, sopsfile, cmd });
                    assert(effects@ =~= seq![
                        DaemonEffect::Bind { addr, jump_hosts, remote, sopsfile, cmd },
                    ]);
                    (DaemonResponse::Success(msg), effects)
                }
            },
            DaemonCommand::Unbind { addr } => {
                let _ = self.bindings.remove(addr.as_str());
                proof {
                    if has_key(old(self)@.bindings, addr@) {
                        let i = choose|i: int|
                            0 <= i < old(self)@.bindings.len() && old(self)@.bindings[i].0
                                == addr@;
                        crate::registry::law_removed_address_absent(
                            old(self)@.bindings,
                            addr@,
                            i,
                        );
                    }
                }
                let msg = concat_str("Unbound ", addr.as_str());
                let mut effects: Vec<DaemonEffect> = Vec::new();
                effects.push(DaemonEffect::Unbind(addr));
                assert(effects@ =~= seq![DaemonEffect::Unbind(addr)]);
                (DaemonResponse::Success(msg), effects)
            },
            DaemonCommand::Shutdown => {
                let addrs = self.bindings.addrs();
                let mut effects: Vec<DaemonEffect> = Vec::new();
                let mut i: usize = 0;
                while i < addrs.len()
                    invariant
                        i <= addrs@.len(),
                        effects@.len() == i,
                        forall|j: int|
                            0 <= j < i ==> #[trigger] effects@[j] is Unbind && effects@[j]->Unbind_0@
                                == addrs@[j]@,
                    decreases addrs.len() - i,
                {
                    effects.push(DaemonEffect::Unbind(addrs[i].clone()));
                    i = i + 1;
                }
                self.bindings.clear();
                self.time_to_die = true;
                (
                    DaemonResponse::Success(String::from_str("All bindings cleared. Shutting down.")),
                    effects,
                )
            },
            DaemonCommand::List => {
                let values = self.bindings.values();
                let mut list: Vec<BindingDetails> = Vec::new();
                let mut i: usize = 0;
                while i < values.len()
                    invariant
                        i <= values@.len(),
                        list@.len() == i,
                        forall|j: int| 0 <= j < i ==> same_details(#[trigger] list@[j], *values@[j]),
                    decreases values.len() - i,
                {
                    list.push(values[i].copy());
                    i = i + 1;
                }
                (DaemonResponse::List(list), Vec::new())
            },
        }
    }
}

/// Binding a free local address through the daemon and unbinding it again
/// leaves the daemon's table as it was.
pub proof fn law_bind_then_unbind_restores(
    before: Seq<(Seq<char>, BindingDetails)>,
    addr: Seq<char>,
    details: BindingDetails,
    after: Seq<(Seq<char>, BindingDetails)>,
    i: int,
)
    requires
        keys_unique(before),
        !has_key(before, addr),
        0 <= i < before.push((addr, details)).len(),
        before.push((addr, details))[i].0 == addr,
        after == before.push((addr, details)).remove(i),
    ensures
        after == before,
{
    law_insert_then_remove(before, addr, details, after, i);
}

// ---------------------------------------------------------------------------
// Framing of messages on the local socket
// ---------------------------------------------------------------------------

/// How reading a message goes on after one more byte was read.
#[derive(Debug, PartialEq, Eq, Clone, Copy, Structural)]
pub enum LineStep {
    /// The byte belongs to the message; read on.
    Continue,
    /// The newline ends the message.
    Complete,
    /// The other side closed the connection before the message ended.
    Closed,
}

/// One read of the byte-by-byte reading of a message: the buffer and the outcome
/// after reading `byte` (`None` when the read returned no byte).  A newline ends
/// the message; every other byte is added to the buffer.
pub open spec fn line_step(buf: Seq<u8>, byte: Option<u8>) -> (Seq<u8>, LineStep) {
    match byte {
        Option::None => (buf, LineStep::Closed),
        Some(b) => if b == 10 {
            (buf, LineStep::Complete)
        } else {
            (buf.push(b), LineStep::Continue)
        },
    }
}

/// Reading the bytes `input` one at a time into `buf`, until a read does not
/// continue; the other side closes the connection when the input runs out.
pub open spec fn read_message(buf: Seq<u8>, input: Seq<u8>) -> (Seq<u8>, LineStep)
    decreases input.len(),
{
    if input.len() == 0 {
        line_step(buf, Option::None)
    } else {
        let (next, step) = line_step(buf, Some(input[0]));
        if step == LineStep::Continue {
            read_message(next, input.drop_first())
        } else {
            (next, step)
        }
    }
}

/// Takes one read of the byte-by-byte reading of a message: `None` means that
/// the read returned no byte.  Every byte before the newline is added to `buf`.
pub fn read_line_step(buf: &mut Vec<u8>, byte: Option<u8>) -> (r: LineStep)
    ensures
        (final(buf)@, r) == line_step(old(buf)@, byte),
{
    match byte {
        Option::None => LineStep::Closed,
        Some(b) => {
            if b == 10 {
                LineStep::Complete
            } else {
                buf.push(b);
                LineStep::Continue
            }
        },
    }
}

/// The bytes that carry `payload` on the socket: the payload and a newline.
pub fn frame_message(payload: &Vec<u8>) -> (r: Vec<u8>)
    ensures
        r@ == payload@.push(10u8),
{
    let mut r: Vec<u8> = Vec::new();
    let mut i: usize = 0;
    while i < payload.len()
        invariant
            i <= payload@.len(),
            r@ == payload@.subrange(0, i as int),
        decreases payload.len() - i,
    {
        r.push(payload[i]);
        i = i + 1;
        assert(r@ =~= payload@.subrange(0, i as int));
    }
    r.push(10u8);
    assert(r@ =~= payload@.push(10u8));
    r
}

/// What is read of a message already partly read into `buf`: the rest of the
/// payload is added, and the newline completes the message.
pub proof fn lemma_read_framed(buf: Seq<u8>, payload: Seq<u8>)
    requires
        forall|i: int| 0 <= i < payload.len() ==> payload[i] != 10u8,
    ensures
        read_message(buf, payload.push(10u8)) == (buf + payload, LineStep::Complete),
    decreases payload.len(),
{
    if payload.len() == 0 {
        assert(buf + payload =~= buf);
        assert(payload.push(10u8)[0] == 10u8);
    } else {
        let rest = payload.drop_first();
        assert(payload.push(10u8)[0] == payload[0]);
        assert(payload.push(10u8).drop_first() =~= rest.push(10u8));
        assert forall|i: int| 0 <= i < rest.len() implies rest[i] != 10u8 by {
            assert(rest[i] == payload[i + 1]);
        }
        lemma_read_framed(buf.push(payload[0]), rest);
        assert(buf.push(payload[0]) + rest =~= buf + payload);
    }
}

/// A message framed for the socket reads back as the payload, when the payload
/// holds no newline (as serialised JSON never does).
pub proof fn law_framed_message_reads_back(payload: Seq<u8>)
    requires
        forall|i: int| 0 <= i < payload.len() ==> payload[i] != 10u8,
    ensures
        read_message(Seq::<u8>::empty(), payload.push(10u8)) == (payload, LineStep::Complete),
{
    lemma_read_framed(Seq::<u8>::empty(), payload);
    assert(Seq::<u8>::empty() + payload =~= payload);
}

// ---------------------------------------------------------------------------
// Starting the daemon
// ---------------------------------------------------------------------------

/// What a non-blocking wait on the "server ready" semaphore gave.
#[derive(Debug, PartialEq, Eq, Clone, Copy, Structural)]
pub enum ReadyProbe {
    /// The semaphore was taken: a daemon is serving.
    Taken,
    /// The semaphore would block: no daemon is serving.
    WouldBlock,
    /// The wait failed otherwise.
    Failed,
}

// ---------------------------------------------------------------------------
// The start-up protocols on the named semaphores
// ---------------------------------------------------------------------------

/// The named semaphores that let one daemon serve.
#[derive(Debug, PartialEq, Eq, Clone, Copy, Structural)]
pub enum Sem {
    /// Taken while a daemon serves.
    ServerReady,
    /// Held while one process checks whether a daemon serves.
    CheckLock,
    /// Posted once the daemon listens.
    FloodGate,
    /// Held by a client while it makes sure a daemon serves.
    SendingStick,
}

/// One step of a start-up protocol.
#[derive(Debug, PartialEq, Eq, Clone, Copy, Structural)]
pub enum StartStep {
    /// Wait on the semaphore.
    Wait(Sem),
    /// Take the semaphore if it is free, without waiting.
    TryWait(Sem),
    /// Post the semaphore.
    Post(Sem),
    /// Start a daemon process.
    SpawnDaemon,
    /// Open the daemon's local socket.
    OpenSocket,
}

/// Who runs a protocol.
#[derive(Debug, PartialEq, Eq, Clone, Copy, Structural)]
pub enum StartRole {
    /// A client that makes sure a daemon serves.
    Client,
    /// A daemon that starts to serve, unless another serves already.
    Daemon,
    /// A daemon that ends and resets the semaphores.
    Cleanup,
}

/// How the last step went.
#[derive(Debug, PartialEq, Eq, Clone, Copy, Structural)]
pub enum StepResult {
    /// The step succeeded.
    Done,
    /// The step failed.
    Failed,
    /// The non-blocking wait gave this.
    Probed(ReadyProbe),
}

/// What the caller does next.
#[derive(Debug, PartialEq, Eq, Clone, Copy, Structural)]
pub enum StartAction {
    /// Perform the step.
    Do(StartStep),
    /// Serve the local socket.
    Serve,
    /// The protocol is over; `true` when it succeeded.
    Finish(bool),
}

/// The steps of the protocol of `role`, once the non-blocking wait gave `probe`
/// (before it, `probe` is `None`).
///
/// A client takes the sending stick and the check lock and probes "server
/// ready": a serving daemon's semaphore is given back; otherwise it starts a
/// daemon, gives back the check lock, waits for the flood gate and passes it on.
/// Either way it gives back the sending stick.  A starting daemon takes the
/// check lock and probes: when a daemon serves it gives back the check lock;
/// otherwise it opens its socket and posts "server ready", the check lock and the
/// flood gate.  An ending daemon resets the semaphores.
pub open spec fn protocol(role: StartRole, probe: Option<ReadyProbe>) -> Seq<StartStep> {
    match role {
        StartRole::Client => {
            let p = seq![
                StartStep::Wait(Sem::SendingStick),
                StartStep::Wait(Sem::CheckLock),
                StartStep::TryWait(Sem::ServerReady),
            ];
            match probe {
                Some(ReadyProbe::Taken) => p + seq![
                    StartStep::Post(Sem::ServerReady),
                    StartStep::Post(Sem::CheckLock),
                    StartStep::Post(Sem::SendingStick),
                ],
                Some(ReadyProbe::WouldBlock) => p + seq![
                    StartStep::SpawnDaemon,
                    StartStep::Post(Sem::CheckLock),
                    StartStep::Wait(Sem::FloodGate),
                    StartStep::Post(Sem::FloodGate),
                    StartStep::Post(Sem::SendingStick),
                ],
                _ => p,
            }
        },
        StartRole::Daemon => {
            let p = seq![StartStep::Wait(Sem::CheckLock), StartStep::TryWait(Sem::ServerReady)];
            match probe {
                Some(ReadyProbe::Taken) => p + seq![StartStep::Post(Sem::CheckLock)],
                Some(_) => p + seq![
                    StartStep::OpenSocket,
                    StartStep::Post(Sem::ServerReady),
                    StartStep::Post(Sem::CheckLock),
                    StartStep::Post(Sem::FloodGate),
                ],
                Option::None => p,
            }
        },
        StartRole::Cleanup => seq![
            StartStep::Wait(Sem::SendingStick),
            StartStep::Wait(Sem::CheckLock),
            StartStep::Wait(Sem::ServerReady),
            StartStep::Post(Sem::CheckLock),
            StartStep::Wait(Sem::FloodGate),
            StartStep::Post(Sem::SendingStick),
        ],
    }
}

/// The steps of the protocol of `role` after `probe`.
pub fn protocol_steps(role: StartRole, probe: Option<ReadyProbe>) -> (r: Vec<StartStep>)
    ensures
        r@ == protocol(role, probe),
{
    let r = match role {
        StartRole::Client => match probe {
            Some(ReadyProbe::Taken) => vec![
                StartStep::Wait(Sem::SendingStick),
                StartStep::Wait(Sem::CheckLock),
                StartStep::TryWait(Sem::ServerReady),
                StartStep::Post(Sem::ServerReady),
                StartStep::Post(Sem::CheckLock),
                StartStep::Post(Sem::SendingStick),
            ],
            Some(ReadyProbe::WouldBlock) => vec![
                StartStep::Wait(Sem::SendingStick),
                StartStep::Wait(Sem::CheckLock),
                StartStep::TryWait(Sem::ServerReady),
                StartStep::SpawnDaemon,
                StartStep::Post(Sem::CheckLock),
                StartStep::Wait(Sem::FloodGate),
                StartStep::Post(Sem::FloodGate),
                StartStep::Post(Sem::SendingStick),
            ],
            _ => vec![
                StartStep::Wait(Sem::SendingStick),
                StartStep::Wait(Sem::CheckLock),
                StartStep::TryWait(Sem::ServerReady),
            ],
        },
        StartRole::Daemon => match probe {
            Some(ReadyProbe::Taken) => vec![
                StartStep::Wait(Sem::CheckLock),
                StartStep::TryWait(Sem::ServerReady),
                StartStep::Post(Sem::CheckLock),
            ],
            Some(_) => vec![
                StartStep::Wait(Sem::CheckLock),
                StartStep::TryWait(Sem::ServerReady),
                StartStep::OpenSocket,
                StartStep::Post(Sem::ServerReady),
                StartStep::Post(Sem::CheckLock),
                StartStep::Post(Sem::FloodGate),
            ],
            Option::None => vec![StartStep::Wait(Sem::CheckLock), StartStep::TryWait(Sem::ServerReady)],
        },
        StartRole::Cleanup => vec![
            StartStep::Wait(Sem::SendingStick),
            StartStep::Wait(Sem::CheckLock),
            StartStep::Wait(Sem::ServerReady),
            StartStep::Post(Sem::CheckLock),
            StartStep::Wait(Sem::FloodGate),
            StartStep::Post(Sem::SendingStick),
        ],
    };
    assert(r@ =~= protocol(role, probe));
    r
}

/// A start-up protocol under way, as mathematics sees it: who runs it, what the
/// probe gave, how many steps are done, whether it is giving back the check lock
/// after its socket failed to open, and whether it is over.
pub struct StartView {
    pub role: StartRole,
    pub probe: Option<ReadyProbe>,
    pub done: nat,
    pub recovering: bool,
    pub finished: bool,
}

/// The next step of the protocol once `t.done` steps are done; at the end, a
/// starting daemon serves unless another daemon serves, and the others succeed.
pub open spec fn next_action(t: StartView) -> (StartView, StartAction) {
    let steps = protocol(t.role, t.probe);
    if t.done < steps.len() {
        (t, StartAction::Do(steps[t.done as int]))
    } else if t.role == StartRole::Daemon && t.probe != Some(ReadyProbe::Taken) {
        (StartView { finished: true, ..t }, StartAction::Serve)
    } else {
        (StartView { finished: true, ..t }, StartAction::Finish(true))
    }
}

/// Whether `ev` reports on the step that `s` waits for: the probe answers the
/// non-blocking wait, the other steps succeed or fail.
pub open spec fn step_fits(s: StartView, ev: StepResult) -> bool {
    &&& !s.finished
    &&& if s.recovering {
        !(ev is Probed)
    } else {
        &&& s.done < protocol(s.role, s.probe).len()
        &&& (protocol(s.role, s.probe)[s.done as int] is TryWait <==> ev is Probed)
    }
}

/// One step of a start-up protocol, given how the last step went.  A failed
/// step ends the protocol, except that a daemon whose socket did not open gives
/// back the check lock first; a client whose probe failed stops there.
pub open spec fn start_step(s: StartView, ev: StepResult) -> (StartView, StartAction) {
    if s.recovering {
        (StartView { finished: true, ..s }, StartAction::Finish(false))
    } else {
        let step = protocol(s.role, s.probe)[s.done as int];
        match ev {
            StepResult::Failed => if step == StartStep::OpenSocket {
                (StartView { recovering: true, ..s }, StartAction::Do(StartStep::Post(Sem::CheckLock)))
            } else {
                (StartView { finished: true, ..s }, StartAction::Finish(false))
            },
            StepResult::Probed(p) => {
                let t = StartView { probe: Some(p), done: s.done + 1, ..s };
                if s.role == StartRole::Client && p == ReadyProbe::Failed {
                    (StartView { finished: true, ..t }, StartAction::Finish(false))
                } else {
                    next_action(t)
                }
            },
            StepResult::Done => next_action(StartView { done: s.done + 1, ..s }),
        }
    }
}

/// A start-up protocol under way.
pub struct StartProtocol {
    role: StartRole,
    probe: Option<ReadyProbe>,
    done: usize,
    recovering: bool,
    finished: bool,
}

impl View for StartProtocol {
    type V = StartView;

    closed spec fn view(&self) -> StartView {
        StartView {
            role: self.role,
            probe: self.probe,
            done: self.done as nat,
            recovering: self.recovering,
            finished: self.finished,
        }
    }
}

impl StartProtocol {
    /// The protocol is consistent: no more steps are done than it has.
    pub closed spec fn wf(&self) -> bool {
        self.done <= protocol(self.role, self.probe).len()
    }

    /// Starts the protocol of `role`; the first action is its first step.
    pub fn new(role: StartRole) -> (r: (StartProtocol, StartAction))
        ensures
            r.0.wf(),
            r.0@ == (StartView {
                role,
                probe: Option::None,
                done: 0,
                recovering: false,
                finished: false,
            }),
            r.1 == StartAction::Do(protocol(role, Option::None)[0]),
    {
        let steps = protocol_steps(role, None);
        let first = steps[0];
        (StartProtocol { role, probe: None, done: 0, recovering: false, finished: false }, StartAction::Do(first))
    }

    fn next(&mut self) -> (r: StartAction)
        requires
            old(self).done <= protocol(old(self).role, old(self).probe).len(),
            !old(self).recovering,
        ensures
            final(self).wf(),
            (final(self)@, r) == next_action(old(self)@),
    {
        let steps = protocol_steps(self.role, self.probe);
        if self.done < steps.len() {
            StartAction::Do(steps[self.done])
        } else if self.role == StartRole::Daemon && self.probe != Some(ReadyProbe::Taken) {
            self.finished = true;
            StartAction::Serve
        } else {
            self.finished = true;
            StartAction::Finish(true)
        }
    }

    /// Takes how the last step went and says what to do next.
    pub fn step(&mut self, ev: StepResult) -> (r: StartAction)
        requires
            old(self).wf(),
            step_fits(old(self)@, ev),
        ensures
            final(self).wf(),
            (final(self)@, r) == start_step(old(self)@, ev),
    {
        if self.recovering {
            self.finished = true;
            return StartAction::Finish(false);
        }
        let steps = protocol_steps(self.role, self.probe);
        let step = steps[self.done];
        match ev {
            StepResult::Failed => {
                if step == StartStep::OpenSocket {
                    self.recovering = true;
                    StartAction::Do(StartStep::Post(Sem::CheckLock))
                } else {
                    self.finished = true;
                    StartAction::Finish(false)
                }
            },
            StepResult::Probed(p) => {
                self.probe = Some(p);
                self.done = self.done + 1;
                if self.role == StartRole::Client && p == ReadyProbe::Failed {
                    self.finished = true;
                    StartAction::Finish(false)
                } else {
                    self.next()
                }
            },
            StepResult::Done => {
                self.done = self.done + 1;
                self.next()
            },
        }
    }
}

/// How many times the steps take `sem` minus how many times they give it back.
pub open spec fn held(steps: Seq<StartStep>, sem: Sem) -> int
    decreases steps.len(),
{
    if steps.len() == 0 {
        0
    } else {
        let rest = held(steps.drop_last(), sem);
        match steps.last() {
            StartStep::Wait(x) => if x == sem {
                rest + 1
            } else {
                rest
            },
            StartStep::Post(x) => if x == sem {
                rest - 1
            } else {
                rest
            },
            _ => rest,
        }
    }
}

/// Every start-up protocol that runs to its end gives back the check lock and
/// the sending stick it took.
pub proof fn law_completed_protocols_give_back_locks(role: StartRole, probe: Option<ReadyProbe>)
    requires
        role == StartRole::Client ==> probe == Some(ReadyProbe::Taken) || probe == Some(
            ReadyProbe::WouldBlock,
        ),
        role == StartRole::Daemon ==> probe is Some,
    ensures
        held(protocol(role, probe), Sem::CheckLock) == 0,
        held(protocol(role, probe), Sem::SendingStick) == 0,
{
    reveal_with_fuel(held, 9);
    let steps = protocol(role, probe);
    match role {
        StartRole::Client => {
            if probe == Some(ReadyProbe::Taken) {
                assert(steps =~= seq![
                    StartStep::Wait(Sem::SendingStick),
                    StartStep::Wait(Sem::CheckLock),
                    StartStep::TryWait(Sem::ServerReady),
                    StartStep::Post(Sem::ServerReady),
                    StartStep::Post(Sem::CheckLock),
                    StartStep::Post(Sem::SendingStick),
                ]);
            } else {
                assert(steps =~= seq![
                    StartStep::Wait(Sem::SendingStick),
                    StartStep::Wait(Sem::CheckLock),
                    StartStep::TryWait(Sem::ServerReady),
                    StartStep::SpawnDaemon,
                    StartStep::Post(Sem::CheckLock),
                    StartStep::Wait(Sem::FloodGate),
                    StartStep::Post(Sem::FloodGate),
                    StartStep::Post(Sem::SendingStick),
                ]);
            }
        },
        StartRole::Daemon => {
            if probe == Some(ReadyProbe::Taken) {
                assert(steps =~= seq![
                    StartStep::Wait(Sem::CheckLock),
                    StartStep::TryWait(Sem::ServerReady),
                    StartStep::Post(Sem::CheckLock),
                ]);
            } else {
                assert(steps =~= seq![
                    StartStep::Wait(Sem::CheckLock),
                    StartStep::TryWait(Sem::ServerReady),
                    StartStep::OpenSocket,
                    StartStep::Post(Sem::ServerReady),
                    StartStep::Post(Sem::CheckLock),
                    StartStep::Post(Sem::FloodGate),
                ]);
            }
        },
        StartRole::Cleanup => {},
    }
}

/// Whether the step waits on, probes or posts `sem`.
pub open spec fn touches(step: StartStep, sem: Sem) -> bool {
    step == StartStep::Wait(sem) || step == StartStep::TryWait(sem) || step == StartStep::Post(sem)
}

/// How many times the steps take `sem` minus how many times they give it back,
/// where a non-blocking wait takes it when `took` holds (its probe found it
/// raised) and leaves it otherwise.
pub open spec fn net_taken(steps: Seq<StartStep>, sem: Sem, took: bool) -> int
    decreases steps.len(),
{
    if steps.len() == 0 {
        0
    } else {
        let rest = net_taken(steps.drop_last(), sem, took);
        if steps.last() == StartStep::Wait(sem) {
            rest + 1
        } else if steps.last() == StartStep::TryWait(sem) && took {
            rest + 1
        } else if steps.last() == StartStep::Post(sem) {
            rest - 1
        } else {
            rest
        }
    }
}

/// What a whole run leaves of "server ready" and the flood gate (taken minus
/// given back): a client gives back what it takes; a daemon that finds another
/// serving keeps the "server ready" it took; a daemon that serves raises both;
/// an ending daemon takes both back.
pub proof fn law_protocol_signals(role: StartRole, probe: Option<ReadyProbe>)
    requires
        role == StartRole::Client ==> probe == Some(ReadyProbe::Taken) || probe == Some(
            ReadyProbe::WouldBlock,
        ),
        role == StartRole::Daemon ==> probe is Some,
    ensures
        ({
            let steps = protocol(role, probe);
            let took = probe == Some(ReadyProbe::Taken);
            &&& role == StartRole::Client ==> net_taken(steps, Sem::ServerReady, took) == 0
                && net_taken(steps, Sem::FloodGate, took) == 0
            &&& role == StartRole::Daemon && took ==> net_taken(steps, Sem::ServerReady, took) == 1
                && net_taken(steps, Sem::FloodGate, took) == 0
            &&& role == StartRole::Daemon && !took ==> net_taken(steps, Sem::ServerReady, took)
                == -1 && net_taken(steps, Sem::FloodGate, took) == -1
            &&& role == StartRole::Cleanup ==> net_taken(steps, Sem::ServerReady, took) == 1
                && net_taken(steps, Sem::FloodGate, took) == 1
        }),
{
    reveal_with_fuel(net_taken, 9);
    let steps = protocol(role, probe);
    if role == StartRole::Client && probe == Some(ReadyProbe::Taken) {
        assert(steps =~= seq![StartStep::Wait(Sem::SendingStick), StartStep::Wait(Sem::CheckLock), StartStep::TryWait(Sem::ServerReady), StartStep::Post(Sem::ServerReady), StartStep::Post(Sem::CheckLock), StartStep::Post(Sem::SendingStick)]);
    } else if role == StartRole::Client && probe == Some(ReadyProbe::WouldBlock) {
        assert(steps =~= seq![StartStep::Wait(Sem::SendingStick), StartStep::Wait(Sem::CheckLock), StartStep::TryWait(Sem::ServerReady), StartStep::SpawnDaemon, StartStep::Post(Sem::CheckLock), StartStep::Wait(Sem::FloodGate), StartStep::Post(Sem::FloodGate), StartStep::Post(Sem::SendingStick)]);
    } else if role == StartRole::Client {
        assert(steps =~= seq![StartStep::Wait(Sem::SendingStick), StartStep::Wait(Sem::CheckLock), StartStep::TryWait(Sem::ServerReady)]);
    } else if role == StartRole::Daemon && probe == Some(ReadyProbe::Taken) {
        assert(steps =~= seq![StartStep::Wait(Sem::CheckLock), StartStep::TryWait(Sem::ServerReady), StartStep::Post(Sem::CheckLock)]);
    } else if role == StartRole::Daemon && probe is Some {
        assert(steps =~= seq![StartStep::Wait(Sem::CheckLock), StartStep::TryWait(Sem::ServerReady), StartStep::OpenSocket, StartStep::Post(Sem::ServerReady), StartStep::Post(Sem::CheckLock), StartStep::Post(Sem::FloodGate)]);
    } else if role == StartRole::Daemon {
        assert(steps =~= seq![StartStep::Wait(Sem::CheckLock), StartStep::TryWait(Sem::ServerReady)]);
    } else {
        assert(steps =~= seq![StartStep::Wait(Sem::SendingStick), StartStep::Wait(Sem::CheckLock), StartStep::Wait(Sem::ServerReady), StartStep::Post(Sem::CheckLock), StartStep::Wait(Sem::FloodGate), StartStep::Post(Sem::SendingStick)]);
    }
}

/// "Server ready" is waited on, probed or posted only while the check lock is
/// held: whether a daemon serves is checked and changed by one process at a time.
pub proof fn law_server_ready_under_check_lock(role: StartRole, probe: Option<ReadyProbe>, i: int)
    requires
        0 <= i < protocol(role, probe).len(),
        touches(protocol(role, probe)[i], Sem::ServerReady),
    ensures
        held(protocol(role, probe).take(i), Sem::CheckLock) == 1,
{
    reveal_with_fuel(held, 9);
    let steps = protocol(role, probe);
    if role == StartRole::Client && probe == Some(ReadyProbe::Taken) {
        assert(steps =~= seq![StartStep::Wait(Sem::SendingStick), StartStep::Wait(Sem::CheckLock), StartStep::TryWait(Sem::ServerReady), StartStep::Post(Sem::ServerReady), StartStep::Post(Sem::CheckLock), StartStep::Post(Sem::SendingStick)]);
        if i == 2 {
            assert(steps.take(i) =~= seq![StartStep::Wait(Sem::SendingStick), StartStep::Wait(Sem::CheckLock)]);
        }
        if i == 3 {
            assert(steps.take(i) =~= seq![StartStep::Wait(Sem::SendingStick), StartStep::Wait(Sem::CheckLock), StartStep::TryWait(Sem::ServerReady)]);
        }
    } else if role == StartRole::Client && probe == Some(ReadyProbe::WouldBlock) {
        assert(steps =~= seq![StartStep::Wait(Sem::SendingStick), StartStep::Wait(Sem::CheckLock), StartStep::TryWait(Sem::ServerReady), StartStep::SpawnDaemon, StartStep::Post(Sem::CheckLock), StartStep::Wait(Sem::FloodGate), StartStep::Post(Sem::FloodGate), StartStep::Post(Sem::SendingStick)]);
        if i == 2 {
            assert(steps.take(i) =~= seq![StartStep::Wait(Sem::SendingStick), StartStep::Wait(Sem::CheckLock)]);
        }
    } else if role == StartRole::Client {
        assert(steps =~= seq![StartStep::Wait(Sem::SendingStick), StartStep::Wait(Sem::CheckLock), StartStep::TryWait(Sem::ServerReady)]);
        if i == 2 {
            assert(steps.take(i) =~= seq![StartStep::Wait(Sem::SendingStick), StartStep::Wait(Sem::CheckLock)]);
        }
    } else if role == StartRole::Daemon && probe == Some(ReadyProbe::Taken) {
        assert(steps =~= seq![StartStep::Wait(Sem::CheckLock), StartStep::TryWait(Sem::ServerReady), StartStep::Post(Sem::CheckLock)]);
        if i == 1 {
            assert(steps.take(i) =~= seq![StartStep::Wait(Sem::CheckLock)]);
        }
    } else if role == StartRole::Daemon && probe is Some {
        assert(steps =~= seq![StartStep::Wait(Sem::CheckLock), StartStep::TryWait(Sem::ServerReady), StartStep::OpenSocket, StartStep::Post(Sem::ServerReady), StartStep::Post(Sem::CheckLock), StartStep::Post(Sem::FloodGate)]);
        if i == 1 {
            assert(steps.take(i) =~= seq![StartStep::Wait(Sem::CheckLock)]);
        }
        if i == 3 {
            assert(steps.take(i) =~= seq![StartStep::Wait(Sem::CheckLock), StartStep::TryWait(Sem::ServerReady), StartStep::OpenSocket]);
        }
    } else if role == StartRole::Daemon {
        assert(steps =~= seq![StartStep::Wait(Sem::CheckLock), StartStep::TryWait(Sem::ServerReady)]);
        if i == 1 {
            assert(steps.take(i) =~= seq![StartStep::Wait(Sem::CheckLock)]);
        }
    } else {
        assert(steps =~= seq![StartStep::Wait(Sem::SendingStick), StartStep::Wait(Sem::CheckLock), StartStep::Wait(Sem::ServerReady), StartStep::Post(Sem::CheckLock), StartStep::Wait(Sem::FloodGate), StartStep::Post(Sem::SendingStick)]);
        if i == 2 {
            assert(steps.take(i) =~= seq![StartStep::Wait(Sem::SendingStick), StartStep::Wait(Sem::CheckLock)]);
        }
    }
}

/// The flood gate is waited on or posted only while the check lock is free, so a
/// client waiting for the daemon never blocks the daemon's check.
pub proof fn law_flood_gate_outside_check_lock(role: StartRole, probe: Option<ReadyProbe>, i: int)
    requires
        0 <= i < protocol(role, probe).len(),
        touches(protocol(role, probe)[i], Sem::FloodGate),
    ensures
        held(protocol(role, probe).take(i), Sem::CheckLock) == 0,
{
    reveal_with_fuel(held, 9);
    let steps = protocol(role, probe);
    if role == StartRole::Client && probe == Some(ReadyProbe::Taken) {
        assert(steps =~= seq![StartStep::Wait(Sem::SendingStick), StartStep::Wait(Sem::CheckLock), StartStep::TryWait(Sem::ServerReady), StartStep::Post(Sem::ServerReady), StartStep::Post(Sem::CheckLock), StartStep::Post(Sem::SendingStick)]);
    } else if role == StartRole::Client && probe == Some(ReadyProbe::WouldBlock) {
        assert(steps =~= seq![StartStep::Wait(Sem::SendingStick), StartStep::Wait(Sem::CheckLock), StartStep::TryWait(Sem::ServerReady), StartStep::SpawnDaemon, StartStep::Post(Sem::CheckLock), StartStep::Wait(Sem::FloodGate), StartStep::Post(Sem::FloodGate), StartStep::Post(Sem::SendingStick)]);
        if i == 5 {
            assert(steps.take(i) =~= seq![StartStep::Wait(Sem::SendingStick), StartStep::Wait(Sem::CheckLock), StartStep::TryWait(Sem::ServerReady), StartStep::SpawnDaemon, StartStep::Post(Sem::CheckLock)]);
        }
        if i == 6 {
            assert(steps.take(i) =~= seq![StartStep::Wait(Sem::SendingStick), StartStep::Wait(Sem::CheckLock), StartStep::TryWait(Sem::ServerReady), StartStep::SpawnDaemon, StartStep::Post(Sem::CheckLock), StartStep::Wait(Sem::FloodGate)]);
        }
    } else if role == StartRole::Client {
        assert(steps =~= seq![StartStep::Wait(Sem::SendingStick), StartStep::Wait(Sem::CheckLock), StartStep::TryWait(Sem::ServerReady)]);
    } else if role == StartRole::Daemon && probe == Some(ReadyProbe::Taken) {
        assert(steps =~= seq![StartStep::Wait(Sem::CheckLock), StartStep::TryWait(Sem::ServerReady), StartStep::Post(Sem::CheckLock)]);
    } else if role == StartRole::Daemon && probe is Some {
        assert(steps =~= seq![StartStep::Wait(Sem::CheckLock), StartStep::TryWait(Sem::ServerReady), StartStep::OpenSocket, StartStep::Post(Sem::ServerReady), StartStep::Post(Sem::CheckLock), StartStep::Post(Sem::FloodGate)]);
        if i == 5 {
            assert(steps.take(i) =~= seq![StartStep::Wait(Sem::CheckLock), StartStep::TryWait(Sem::ServerReady), StartStep::OpenSocket, StartStep::Post(Sem::ServerReady), StartStep::Post(Sem::CheckLock)]);
        }
    } else if role == StartRole::Daemon {
        assert(steps =~= seq![StartStep::Wait(Sem::CheckLock), StartStep::TryWait(Sem::ServerReady)]);
    } else {
        assert(steps =~= seq![StartStep::Wait(Sem::SendingStick), StartStep::Wait(Sem::CheckLock), StartStep::Wait(Sem::ServerReady), StartStep::Post(Sem::CheckLock), StartStep::Wait(Sem::FloodGate), StartStep::Post(Sem::SendingStick)]);
        if i == 4 {
            assert(steps.take(i) =~= seq![StartStep::Wait(Sem::SendingStick), StartStep::Wait(Sem::CheckLock), StartStep::Wait(Sem::ServerReady), StartStep::Post(Sem::CheckLock)]);
        }
    }
}

/// A client and an ending daemon take the sending stick first and keep it for
/// every later step of their run; a starting daemon never touches it.
pub proof fn law_sending_stick_held_throughout(role: StartRole, probe: Option<ReadyProbe>, i: int)
    requires
        0 <= i < protocol(role, probe).len(),
    ensures
        role != StartRole::Daemon && i > 0 ==> held(protocol(role, probe).take(i), Sem::SendingStick)
            == 1,
        role == StartRole::Daemon ==> !touches(protocol(role, probe)[i], Sem::SendingStick),
{
    reveal_with_fuel(held, 9);
    let steps = protocol(role, probe);
    if role == StartRole::Client && probe == Some(ReadyProbe::Taken) {
        assert(steps =~= seq![StartStep::Wait(Sem::SendingStick), StartStep::Wait(Sem::CheckLock), StartStep::TryWait(Sem::ServerReady), StartStep::Post(Sem::ServerReady), StartStep::Post(Sem::CheckLock), StartStep::Post(Sem::SendingStick)]);
        if i == 1 {
            assert(steps.take(i) =~= seq![StartStep::Wait(Sem::SendingStick)]);
        }
        if i == 2 {
            assert(steps.take(i) =~= seq![StartStep::Wait(Sem::SendingStick), StartStep::Wait(Sem::CheckLock)]);
        }
        if i == 3 {
            assert(steps.take(i) =~= seq![StartStep::Wait(Sem::SendingStick), StartStep::Wait(Sem::CheckLock), StartStep::TryWait(Sem::ServerReady)]);
        }
        if i == 4 {
            assert(steps.take(i) =~= seq![StartStep::Wait(Sem::SendingStick), StartStep::Wait(Sem::CheckLock), StartStep::TryWait(Sem::ServerReady), StartStep::Post(Sem::ServerReady)]);
        }
        if i == 5 {
            assert(steps.take(i) =~= seq![StartStep::Wait(Sem::SendingStick), StartStep::Wait(Sem::CheckLock), StartStep::TryWait(Sem::ServerReady), StartStep::Post(Sem::ServerReady), StartStep::Post(Sem::CheckLock)]);
        }
    } else if role == StartRole::Client && probe == Some(ReadyProbe::WouldBlock) {
        assert(steps =~= seq![StartStep::Wait(Sem::SendingStick), StartStep::Wait(Sem::CheckLock), StartStep::TryWait(Sem::ServerReady), StartStep::SpawnDaemon, StartStep::Post(Sem::CheckLock), StartStep::Wait(Sem::FloodGate), StartStep::Post(Sem::FloodGate), StartStep::Post(Sem::SendingStick)]);
        if i == 1 {
            assert(steps.take(i) =~= seq![StartStep::Wait(Sem::SendingStick)]);
        }
        if i == 2 {
            assert(steps.take(i) =~= seq![StartStep::Wait(Sem::SendingStick), StartStep::Wait(Sem::CheckLock)]);
        }
        if i == 3 {
            assert(steps.take(i) =~= seq![StartStep::Wait(Sem::SendingStick), StartStep::Wait(Sem::CheckLock), StartStep::TryWait(Sem::ServerReady)]);
        }
        if i == 4 {
            assert(steps.take(i) =~= seq![StartStep::Wait(Sem::SendingStick), StartStep::Wait(Sem::CheckLock), StartStep::TryWait(Sem::ServerReady), StartStep::SpawnDaemon]);
        }
        if i == 5 {
            assert(steps.take(i) =~= seq![StartStep::Wait(Sem::SendingStick), StartStep::Wait(Sem::CheckLock), StartStep::TryWait(Sem::ServerReady), StartStep::SpawnDaemon, StartStep::Post(Sem::CheckLock)]);
        }
        if i == 6 {
            assert(steps.take(i) =~= seq![StartStep::Wait(Sem::SendingStick), StartStep::Wait(Sem::CheckLock), StartStep::TryWait(Sem::ServerReady), StartStep::SpawnDaemon, StartStep::Post(Sem::CheckLock), StartStep::Wait(Sem::FloodGate)]);
        }
        if i == 7 {
            assert(steps.take(i) =~= seq![StartStep::Wait(Sem::SendingStick), StartStep::Wait(Sem::CheckLock), StartStep::TryWait(Sem::ServerReady), StartStep::SpawnDaemon, StartStep::Post(Sem::CheckLock), StartStep::Wait(Sem::FloodGate), StartStep::Post(Sem::FloodGate)]);
        }
    } else if role == StartRole::Client {
        assert(steps =~= seq![StartStep::Wait(Sem::SendingStick), StartStep::Wait(Sem::CheckLock), StartStep::TryWait(Sem::ServerReady)]);
        if i == 1 {
            assert(steps.take(i) =~= seq![StartStep::Wait(Sem::SendingStick)]);
        }
        if i == 2 {
            assert(steps.take(i) =~= seq![StartStep::Wait(Sem::SendingStick), StartStep::Wait(Sem::CheckLock)]);
        }
    } else if role == StartRole::Daemon && probe == Some(ReadyProbe::Taken) {
        assert(steps =~= seq![StartStep::Wait(Sem::CheckLock), StartStep::TryWait(Sem::ServerReady), StartStep::Post(Sem::CheckLock)]);
        if i == 1 {
            assert(steps.take(i) =~= seq![StartStep::Wait(Sem::CheckLock)]);
        }
        if i == 2 {
            assert(steps.take(i) =~= seq![StartStep::Wait(Sem::CheckLock), StartStep::TryWait(Sem::ServerReady)]);
        }
    } else if role == StartRole::Daemon && probe is Some {
        assert(steps =~= seq![StartStep::Wait(Sem::CheckLock), StartStep::TryWait(Sem::ServerReady), StartStep::OpenSocket, StartStep::Post(Sem::ServerReady), StartStep::Post(Sem::CheckLock), StartStep::Post(Sem::FloodGate)]);
        if i == 1 {
            assert(steps.take(i) =~= seq![StartStep::Wait(Sem::CheckLock)]);
        }
        if i == 2 {
            assert(steps.take(i) =~= seq![StartStep::Wait(Sem::CheckLock), StartStep::TryWait(Sem::ServerReady)]);
        }
        if i == 3 {
            assert(steps.take(i) =~= seq![StartStep::Wait(Sem::CheckLock), StartStep::TryWait(Sem::ServerReady), StartStep::OpenSocket]);
        }
        if i == 4 {
            assert(steps.take(i) =~= seq![StartStep::Wait(Sem::CheckLock), StartStep::TryWait(Sem::ServerReady), StartStep::OpenSocket, StartStep::Post(Sem::ServerReady)]);
        }
        if i == 5 {
            assert(steps.take(i) =~= seq![StartStep::Wait(Sem::CheckLock), StartStep::TryWait(Sem::ServerReady), StartStep::OpenSocket, StartStep::Post(Sem::ServerReady), StartStep::Post(Sem::CheckLock)]);
        }
    } else if role == StartRole::Daemon {
        assert(steps =~= seq![StartStep::Wait(Sem::CheckLock), StartStep::TryWait(Sem::ServerReady)]);
        if i == 1 {
            assert(steps.take(i) =~= seq![StartStep::Wait(Sem::CheckLock)]);
        }
    } else {
        assert(steps =~= seq![StartStep::Wait(Sem::SendingStick), StartStep::Wait(Sem::CheckLock), StartStep::Wait(Sem::ServerReady), StartStep::Post(Sem::CheckLock), StartStep::Wait(Sem::FloodGate), StartStep::Post(Sem::SendingStick)]);
        if i == 1 {
            assert(steps.take(i) =~= seq![StartStep::Wait(Sem::SendingStick)]);
        }
        if i == 2 {
            assert(steps.take(i) =~= seq![StartStep::Wait(Sem::SendingStick), StartStep::Wait(Sem::CheckLock)]);
        }
        if i == 3 {
            assert(steps.take(i) =~= seq![StartStep::Wait(Sem::SendingStick), StartStep::Wait(Sem::CheckLock), StartStep::Wait(Sem::ServerReady)]);
        }
        if i == 4 {
            assert(steps.take(i) =~= seq![StartStep::Wait(Sem::SendingStick), StartStep::Wait(Sem::CheckLock), StartStep::Wait(Sem::ServerReady), StartStep::Post(Sem::CheckLock)]);
        }
        if i == 5 {
            assert(steps.take(i) =~= seq![StartStep::Wait(Sem::SendingStick), StartStep::Wait(Sem::CheckLock), StartStep::Wait(Sem::ServerReady), StartStep::Post(Sem::CheckLock), StartStep::Wait(Sem::FloodGate)]);
        }
    }
}

/// How a report on a step moves a start-up protocol on.  A report after the
/// check lock was given back for a failed socket ends the run in failure.  A
/// failed step ends the run in failure, except a failed socket opening, after
/// which the check lock is posted.  A client whose probe failed stops in
/// failure.  Otherwise the step counts as done (a probe is remembered) and the
/// next step of the protocol follows; after the last one a starting daemon that
/// found no other daemon serves, and every other run ends in success.
pub proof fn law_step_reports(s: StartView, ev: StepResult)
    requires
        step_fits(s, ev),
    ensures
        ({
            let (t, a) = start_step(s, ev);
            let step = protocol(s.role, s.probe)[s.done as int];
            let moves_on = !s.recovering && ev != StepResult::Failed && !(s.role == StartRole::Client
                && ev == StepResult::Probed(ReadyProbe::Failed));
            &&& t.role == s.role
            &&& s.recovering ==> a == StartAction::Finish(false) && t.finished
            &&& !s.recovering && ev == StepResult::Failed && step == StartStep::OpenSocket ==> a
                == StartAction::Do(StartStep::Post(Sem::CheckLock)) && t.recovering && !t.finished
            &&& !s.recovering && ev == StepResult::Failed && step != StartStep::OpenSocket ==> a
                == StartAction::Finish(false) && t.finished
            &&& !s.recovering && s.role == StartRole::Client && ev == StepResult::Probed(
                ReadyProbe::Failed,
            ) ==> a == StartAction::Finish(false) && t.finished
            &&& moves_on ==> {
                &&& t.done == s.done + 1
                &&& !t.recovering
                &&& (ev matches StepResult::Probed(p) ==> t.probe == Some(p))
                &&& (ev == StepResult::Done ==> t.probe == s.probe)
                &&& (t.done < protocol(t.role, t.probe).len() ==> a == StartAction::Do(
                    protocol(t.role, t.probe)[t.done as int],
                ) && !t.finished)
                &&& (t.done >= protocol(t.role, t.probe).len() ==> t.finished && (a
                    == StartAction::Serve <==> t.role == StartRole::Daemon && t.probe != Some(
                    ReadyProbe::Taken,
                )) && (a == StartAction::Serve || a == StartAction::Finish(true)))
            }
        }),
{
}

/// A daemon whose socket does not open gives back the check lock: the steps it
/// makes, up to the failed opening and the post after it, leave the check lock
/// as it was.
pub proof fn law_failed_socket_gives_back_check_lock(p: ReadyProbe)
    requires
        p != ReadyProbe::Taken,
    ensures
        protocol(StartRole::Daemon, Some(p))[2] == StartStep::OpenSocket,
        held(
            protocol(StartRole::Daemon, Some(p)).take(3).push(StartStep::Post(Sem::CheckLock)),
            Sem::CheckLock,
        ) == 0,
{
    reveal_with_fuel(held, 5);
    assert(protocol(StartRole::Daemon, Some(p)).take(3).push(StartStep::Post(Sem::CheckLock))
        =~= seq![
        StartStep::Wait(Sem::CheckLock),
        StartStep::TryWait(Sem::ServerReady),
        StartStep::OpenSocket,
        StartStep::Post(Sem::CheckLock),
    ]);
}

/// A protocol succeeds only once all its steps are done, after a probe that lets
/// it: a client whose probe failed, or a protocol stopped by a failed step, does
/// not succeed.  With the law above, every successful run gives back the check
/// lock and the sending stick.
pub proof fn law_success_only_after_whole_protocol(s: StartView, ev: StepResult)
    requires
        step_fits(s, ev),
    ensures
        ({
            let (t, a) = start_step(s, ev);
            (a == StartAction::Finish(true) || a == StartAction::Serve) ==> {
                &&& t.done == protocol(t.role, t.probe).len()
                &&& !t.recovering
                &&& (t.role == StartRole::Client ==> t.probe == Some(ReadyProbe::Taken) || t.probe
                    == Some(ReadyProbe::WouldBlock))
                &&& (t.role == StartRole::Daemon ==> t.probe is Some)
                &&& held(protocol(t.role, t.probe), Sem::CheckLock) == 0
                &&& held(protocol(t.role, t.probe), Sem::SendingStick) == 0
            }
        }),
{
    let (t, a) = start_step(s, ev);
    if a == StartAction::Finish(true) || a == StartAction::Serve {
        if t.role == StartRole::Client && t.probe != Some(ReadyProbe::Taken) && t.probe != Some(
            ReadyProbe::WouldBlock,
        ) {
            assert(protocol(s.role, s.probe)[2] is TryWait);
        }
        if t.role == StartRole::Daemon && t.probe is None {
            assert(protocol(s.role, s.probe)[1] is TryWait);
        }
        law_completed_protocols_give_back_locks(t.role, t.probe);
    }
}

} // verus!
