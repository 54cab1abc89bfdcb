//! The decisions of binding a local address: reading the targets, finding the
//! `sops` tool, and keeping the table of running bindings.
use vstd::prelude::*;

use crate::registry::{has_key, AddrMap};
use crate::types::{parse_host_port, HostPort};

verus! {

/// Why the targets of a binding could not be read.
#[derive(Debug, PartialEq)]
pub enum BindError {
    /// A jump host is not `host:port`; the parser's message.
    InvalidJumpHost(String),
    /// The remote address is not `host:port`; the parser's message.
    InvalidRemote(String),
}

/// Whether the host and port `hp` are what parsing `s` gives.
pub open spec fn parses_to(s: Seq<char>, hp: HostPort) -> bool {
    parse_host_port(s) == Ok::<(Seq<char>, u16), Seq<char>>((hp.host@, hp.port))
}

/// Reads the jump hosts and the remote address of a binding.  The first jump
/// host that is not `host:port` makes the error; then the remote address, if
/// there is one.
pub fn parse_bind_targets(jump_hosts: &Vec<String>, remote: &Option<String>) -> (r: Result<
    (Vec<HostPort>, Option<HostPort>),
    BindError,
>)
    ensures
        match r {
            Ok((hosts, rem)) => {
                &&& hosts.len() == jump_hosts.len()
                &&& forall|i: int|
                    0 <= i < jump_hosts.len() ==> parses_to(#[trigger] jump_hosts[i]@, hosts[i])
                &&& match remote {
                    Option::None => rem is None,
                    Some(s) => rem is Some && parses_to(s@, rem->0),
                }
            },
            Err(BindError::InvalidJumpHost(m)) => exists|i: int|
                0 <= i < jump_hosts.len() && parse_host_port(#[trigger] jump_hosts[i]@) == Err::<
                    (Seq<char>, u16),
                    Seq<char>,
                >(m@) && forall|j: int| 0 <= j < i ==> parse_host_port(#[trigger] jump_hosts[j]@) is Ok,
            Err(BindError::InvalidRemote(m)) => {
                &&& forall|i: int|
                    0 <= i < jump_hosts.len() ==> parse_host_port(#[trigger] jump_hosts[i]@) is Ok
                &&& remote is Some
                &&& parse_host_port(remote->0@) == Err::<(Seq<char>, u16), Seq<char>>(m@)
            },
        },
{
    let mut hosts: Vec<HostPort> = Vec::new();
    let mut i: usize = 0;
    while i < jump_hosts.len()
        invariant
            i <= jump_hosts.len(),
            hosts.len() == i,
            forall|j: int| 0 <= j < i ==> parses_to(#[trigger] jump_hosts[j]@, hosts[j]),
        decreases jump_hosts.len() - i,
    {
        match HostPort::try_from(jump_hosts[i].as_str()) {
            Ok(hp) => {
                hosts.push(hp);
            },
            Err(m) => {
                assert forall|j: int| 0 <= j < i implies parse_host_port(
                    #[trigger] jump_hosts[j]@,
                ) is Ok by {
                    assert(parses_to(jump_hosts[j]@, hosts[j]));
                }
                return Err(BindError::InvalidJumpHost(m));
            },
        }
        i = i + 1;
    }
    assert forall|j: int| 0 <= j < jump_hosts.len() implies parse_host_port(
        #[trigger] jump_hosts[j]@,
    ) is Ok by {
        assert(parses_to(jump_hosts[j]@, hosts[j]));
    }
    match remote {
        Option::None => Ok((hosts, None)),
        Some(s) => match HostPort::try_from(s.as_str()) {
            Ok(hp) => Ok((hosts, Some(hp))),
            Err(m) => Err(BindError::InvalidRemote(m)),
        },
    }
}

/// One directory of the search path, and what it holds of `sops`.
pub struct SopsCandidate {
    /// The path `<dir>/sops`.
    pub sops_path: String,
    /// Whether `<dir>/sops` is a file.
    pub sops_is_file: bool,
    /// The path `<dir>/sops.exe`.
    pub exe_path: String,
    /// Whether `<dir>/sops.exe` is a file.
    pub exe_is_file: bool,
}

/// The path of the `sops` tool that a search of `dirs` finds: the first
/// directory that holds it decides, and there `sops` goes before `sops.exe`.
pub open spec fn sops_in(dirs: Seq<SopsCandidate>) -> Option<Seq<char>>
    decreases dirs.len(),
{
    if dirs.len() == 0 {
        Option::None
    } else if dirs[0].sops_is_file {
        Some(dirs[0].sops_path@)
    } else if dirs[0].exe_is_file {
        Some(dirs[0].exe_path@)
    } else {
        sops_in(dirs.drop_first())
    }
}

/// The error when the search path holds no `sops` tool.
pub open spec fn sops_missing_message() -> Seq<char> {
    "`sops` binary not found in system's PATH."@
}

/// Finds the `sops` tool among the directories of the search path, in order.
pub fn find_sops_binary(dirs: &Vec<SopsCandidate>) -> (r: Result<String, String>)
    ensures
        match sops_in(dirs@) {
            Some(p) => r is Ok && r->Ok_0@ == p,
            Option::None => r is Err && r->Err_0@ == sops_missing_message(),
        },
{
    let mut i: usize = 0;
    assert(dirs@.subrange(0, dirs@.len() as int) =~= dirs@);
    while i < dirs.len()
        invariant
            i <= dirs@.len(),
            sops_in(dirs@) == sops_in(dirs@.subrange(i as int, dirs@.len() as int)),
        decreases dirs.len() - i,
    {
        assert(dirs@.subrange(i as int, dirs@.len() as int)[0] == dirs@[i as int]);
        assert(dirs@.subrange(i as int, dirs@.len() as int).drop_first() =~= dirs@.subrange(
            i + 1,
            dirs@.len() as int,
        ));
        let d = &dirs[i];
        if d.sops_is_file {
            return Ok(d.sops_path.clone());
        } else if d.exe_is_file {
            return Ok(d.exe_path.clone());
        }
        i = i + 1;
    }
    Err(String::from_str("`sops` binary not found in system's PATH."))
}

/// Records the running binding `handle` for the local address `addr`; a binding
/// already recorded there is handed back.
pub fn register_binding<H>(bindings: &mut AddrMap<H>, addr: &str, handle: H) -> (r: Option<H>)
    requires
        old(bindings).wf(),
    ensures
        final(bindings).wf(),
        match r {
            Some(o) => exists|i: int|
                0 <= i < old(bindings)@.len() && old(bindings)@[i].0 == addr@ && old(bindings)@[i].1 == o && final(bindings)@ == old(bindings)@.update(i, (addr@, handle)),
            Option::None => !has_key(old(bindings)@, addr@) && final(bindings)@ == old(bindings)@.push((addr@, handle)),
        },
{
    bindings.insert(String::from_str(addr), handle)
}

/// Takes the binding for `addr` out of the table, so that the caller can cancel
/// it and wait for it to end; `None` when nothing is bound there.
pub fn unbind<H>(bindings: &mut AddrMap<H>, addr: &str) -> (r: Option<H>)
    requires
        old(bindings).wf(),
    ensures
        final(bindings).wf(),
        !has_key(final(bindings)@, addr@),
        match r {
            Some(h) => exists|i: int|
                0 <= i < old(bindings)@.len() && old(bindings)@[i].0 == addr@ && old(bindings)@[i].1 == h && final(bindings)@ == old(bindings)@.remove(i),
            Option::None => !has_key(old(bindings)@, addr@) && final(bindings)@ == old(bindings)@,
        },
{
    let r = bindings.remove(addr);
    proof {
        if r is Some {
            let h = r->Some_0;
            let i = choose|i: int|
                0 <= i < old(bindings)@.len() && old(bindings)@[i].0 == addr@ && old(bindings)@[i].1 == h && bindings@ == old(bindings)@.remove(i);
            crate::registry::law_removed_address_absent(old(bindings)@, addr@, i);
        }
    }
    r
}

} // verus!
