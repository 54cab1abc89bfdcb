use sshbind::daemon::{
    frame_message, protocol_steps, read_line_step, DaemonCommand, DaemonEffect, DaemonResponse,
    DaemonState, LineStep, ReadyProbe, Sem, StartAction, StartProtocol, StartRole, StartStep,
    StepResult,
};

fn bind_cmd(addr: &str) -> DaemonCommand {
    DaemonCommand::Bind {
        addr: addr.to_string(),
        jump_hosts: vec!["j1:22".to_string(), "j2:22".to_string()],
        remote: Some("svc:80".to_string()),
        sopsfile: "secrets.yaml".to_string(),
        cmd: None,
    }
}

#[test]
fn daemon_ping() {
    let mut d = DaemonState::new();
    let (r, effects) = d.handle_command(DaemonCommand::Ping, 0);
    assert_eq!(r, DaemonResponse::Success("PONG".to_string()));
    assert!(effects.is_empty());
}

#[test]
fn daemon_bind_list_unbind() {
    let mut d = DaemonState::new();
    let (r, effects) = d.handle_command(bind_cmd("127.0.0.1:7000"), 1700000000);
    assert_eq!(r, DaemonResponse::Success("Bound at 127.0.0.1:7000".to_string()));
    assert_eq!(
        effects,
        vec![DaemonEffect::Bind {
            addr: "127.0.0.1:7000".to_string(),
            jump_hosts: vec!["j1:22".to_string(), "j2:22".to_string()],
            remote: Some("svc:80".to_string()),
            sopsfile: "secrets.yaml".to_string(),
            cmd: None,
        }]
    );

    let (r, effects) = d.handle_command(bind_cmd("127.0.0.1:7000"), 1700000001);
    assert_eq!(r, DaemonResponse::Error("Address 127.0.0.1:7000 is already bound.".to_string()));
    assert!(effects.is_empty());

    let (r, _) = d.handle_command(DaemonCommand::List, 5);
    match r {
        DaemonResponse::List(list) => {
            assert_eq!(list.len(), 1);
            assert_eq!(list[0].addr, "127.0.0.1:7000");
            assert_eq!(list[0].jump_hosts, vec!["j1:22".to_string(), "j2:22".to_string()]);
            assert_eq!(list[0].remote, Some("svc:80".to_string()));
            assert_eq!(list[0].cmd, None);
            assert_eq!(list[0].timestamp, 1700000000);
        }
        other => panic!("unexpected answer {:?}", other),
    }

    let (r, effects) = d.handle_command(
        DaemonCommand::Unbind { addr: "127.0.0.1:7000".to_string() },
        6,
    );
    assert_eq!(r, DaemonResponse::Success("Unbound 127.0.0.1:7000".to_string()));
    assert_eq!(effects, vec![DaemonEffect::Unbind("127.0.0.1:7000".to_string())]);

    // Bind then unbind leaves the table as it was.
    let (r, _) = d.handle_command(DaemonCommand::List, 7);
    assert_eq!(r, DaemonResponse::List(Vec::new()));
    assert!(!d.time_to_die());
}

#[test]
fn daemon_unbind_unknown_address() {
    let mut d = DaemonState::new();
    let (r, effects) = d.handle_command(DaemonCommand::Unbind { addr: "x:1".to_string() }, 0);
    assert_eq!(r, DaemonResponse::Success("Unbound x:1".to_string()));
    assert_eq!(effects, vec![DaemonEffect::Unbind("x:1".to_string())]);
}

#[test]
fn daemon_shutdown_stops_everything() {
    let mut d = DaemonState::new();
    d.handle_command(bind_cmd("a:1"), 0);
    d.handle_command(bind_cmd("b:2"), 0);
    let (r, effects) = d.handle_command(DaemonCommand::Shutdown, 0);
    assert_eq!(r, DaemonResponse::Success("All bindings cleared. Shutting down.".to_string()));
    assert_eq!(
        effects,
        vec![DaemonEffect::Unbind("a:1".to_string()), DaemonEffect::Unbind("b:2".to_string())]
    );
    assert!(d.time_to_die());
    let (r, _) = d.handle_command(DaemonCommand::List, 0);
    assert_eq!(r, DaemonResponse::List(Vec::new()));
}

#[test]
fn message_framing() {
    let mut buf = Vec::new();
    assert_eq!(read_line_step(&mut buf, Some(b'o')), LineStep::Continue);
    assert_eq!(read_line_step(&mut buf, Some(b'k')), LineStep::Continue);
    assert_eq!(read_line_step(&mut buf, Some(b'\n')), LineStep::Complete);
    assert_eq!(buf, b"ok".to_vec());
    assert_eq!(read_line_step(&mut buf, None), LineStep::Closed);
    assert_eq!(buf, b"ok".to_vec());

    assert_eq!(frame_message(&b"{\"Ping\":null}".to_vec()), b"{\"Ping\":null}\n".to_vec());
    assert_eq!(frame_message(&Vec::new()), vec![b'\n']);
}

/// Runs a protocol, answering each step with the next result; gives the actions.
fn run(role: StartRole, results: &[StepResult]) -> Vec<StartAction> {
    let (mut p, first) = StartProtocol::new(role);
    let mut actions = vec![first];
    for ev in results {
        actions.push(p.step(*ev));
    }
    actions
}

#[test]
fn client_finds_a_serving_daemon() {
    let actions = run(
        StartRole::Client,
        &[
            StepResult::Done,
            StepResult::Done,
            StepResult::Probed(ReadyProbe::Taken),
            StepResult::Done,
            StepResult::Done,
            StepResult::Done,
        ],
    );
    assert_eq!(
        actions,
        vec![
            StartAction::Do(StartStep::Wait(Sem::SendingStick)),
            StartAction::Do(StartStep::Wait(Sem::CheckLock)),
            StartAction::Do(StartStep::TryWait(Sem::ServerReady)),
            StartAction::Do(StartStep::Post(Sem::ServerReady)),
            StartAction::Do(StartStep::Post(Sem::CheckLock)),
            StartAction::Do(StartStep::Post(Sem::SendingStick)),
            StartAction::Finish(true),
        ]
    );
}

#[test]
fn client_starts_a_daemon_when_none_serves() {
    let mut results = vec![StepResult::Done, StepResult::Done];
    results.push(StepResult::Probed(ReadyProbe::WouldBlock));
    results.extend(std::iter::repeat(StepResult::Done).take(5));
    let actions = run(StartRole::Client, &results);
    assert_eq!(
        actions[3..].to_vec(),
        vec![
            StartAction::Do(StartStep::SpawnDaemon),
            StartAction::Do(StartStep::Post(Sem::CheckLock)),
            StartAction::Do(StartStep::Wait(Sem::FloodGate)),
            StartAction::Do(StartStep::Post(Sem::FloodGate)),
            StartAction::Do(StartStep::Post(Sem::SendingStick)),
            StartAction::Finish(true),
        ]
    );
}

#[test]
fn client_whose_probe_fails_stops() {
    let actions = run(
        StartRole::Client,
        &[StepResult::Done, StepResult::Done, StepResult::Probed(ReadyProbe::Failed)],
    );
    assert_eq!(actions.last(), Some(&StartAction::Finish(false)));
    let actions = run(StartRole::Client, &[StepResult::Failed]);
    assert_eq!(actions, vec![StartAction::Do(StartStep::Wait(Sem::SendingStick)), StartAction::Finish(false)]);
}

#[test]
fn daemon_serves_only_when_no_other_does() {
    let actions = run(
        StartRole::Daemon,
        &[StepResult::Done, StepResult::Probed(ReadyProbe::Taken), StepResult::Done],
    );
    assert_eq!(
        actions,
        vec![
            StartAction::Do(StartStep::Wait(Sem::CheckLock)),
            StartAction::Do(StartStep::TryWait(Sem::ServerReady)),
            StartAction::Do(StartStep::Post(Sem::CheckLock)),
            StartAction::Finish(true),
        ]
    );
    let actions = run(
        StartRole::Daemon,
        &[
            StepResult::Done,
            StepResult::Probed(ReadyProbe::WouldBlock),
            StepResult::Done,
            StepResult::Done,
            StepResult::Done,
            StepResult::Done,
        ],
    );
    assert_eq!(
        actions[2..].to_vec(),
        vec![
            StartAction::Do(StartStep::OpenSocket),
            StartAction::Do(StartStep::Post(Sem::ServerReady)),
            StartAction::Do(StartStep::Post(Sem::CheckLock)),
            StartAction::Do(StartStep::Post(Sem::FloodGate)),
            StartAction::Serve,
        ]
    );
}

#[test]
fn daemon_whose_socket_fails_gives_back_the_check_lock() {
    let actions = run(
        StartRole::Daemon,
        &[
            StepResult::Done,
            StepResult::Probed(ReadyProbe::WouldBlock),
            StepResult::Failed,
            StepResult::Done,
        ],
    );
    assert_eq!(
        actions[3..].to_vec(),
        vec![StartAction::Do(StartStep::Post(Sem::CheckLock)), StartAction::Finish(false)]
    );
}

#[test]
fn cleanup_resets_the_semaphores() {
    let steps = protocol_steps(StartRole::Cleanup, None);
    let actions = run(StartRole::Cleanup, &vec![StepResult::Done; steps.len()]);
    let expected: Vec<StartAction> = steps.iter().map(|s| StartAction::Do(*s)).collect();
    assert_eq!(actions[..steps.len()].to_vec(), expected);
    assert_eq!(actions.last(), Some(&StartAction::Finish(true)));
    assert_eq!(steps.len(), 6);
}

#[test]
fn framed_message_reads_back() {
    let payload = b"{\"Bind\":{\"addr\":\"127.0.0.1:7000\"}}".to_vec();
    let framed = frame_message(&payload);
    let mut buf = Vec::new();
    let mut outcome = LineStep::Closed;
    for byte in framed.iter().copied().map(Some).chain(std::iter::once(None)) {
        outcome = read_line_step(&mut buf, byte);
        if outcome != LineStep::Continue {
            break;
        }
    }
    assert_eq!(outcome, LineStep::Complete);
    assert_eq!(buf, payload);
}
