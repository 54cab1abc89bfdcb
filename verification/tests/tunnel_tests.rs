use sshbind::tunnel::{bridge_step, plan_tunnel, BridgeAction, BridgeEvent, ForwardRetry, TunnelPlan};
use sshbind::HostPort;

fn hp(s: &str) -> HostPort {
    HostPort::try_from(s).unwrap()
}

#[test]
fn tunnel_plans() {
    assert_eq!(plan_tunnel(false, None, Some(hp("a:1"))), TunnelPlan::Direct(hp("a:1")));
    assert_eq!(
        plan_tunnel(false, Some("run".to_string()), Some(hp("a:1"))),
        TunnelPlan::Direct(hp("a:1"))
    );
    assert_eq!(
        plan_tunnel(true, Some("run".to_string()), Some(hp("a:1"))),
        TunnelPlan::ExecThenForward { cmd: "run".to_string(), remote: hp("a:1") }
    );
    assert_eq!(
        plan_tunnel(true, Some("cat".to_string()), None),
        TunnelPlan::ExecOverChannel("cat".to_string())
    );
    assert_eq!(plan_tunnel(true, None, Some(hp("b:2"))), TunnelPlan::Forward(hp("b:2")));
    assert_eq!(
        plan_tunnel(true, None, None),
        TunnelPlan::Reject("Either a command or a remote address must be provided.".to_string())
    );
}

#[test]
fn forward_retry_waits_grow_then_stop() {
    let mut r = ForwardRetry::new();
    let mut waits = Vec::new();
    while let Some(ms) = r.failed() {
        waits.push(ms);
    }
    assert_eq!(waits, vec![5, 10, 15, 20, 25, 30, 35, 40, 45, 50]);
    assert_eq!(r.failed(), None);
}

#[test]
fn bridge_steps() {
    assert_eq!(bridge_step(BridgeEvent::Read { bytes: 7 }), BridgeAction::Forward(7));
    assert_eq!(bridge_step(BridgeEvent::Read { bytes: 0 }), BridgeAction::Stop { report: false });
    assert_eq!(
        bridge_step(BridgeEvent::ReadFailed { unexpected_eof: true }),
        BridgeAction::Stop { report: false }
    );
    assert_eq!(
        bridge_step(BridgeEvent::ReadFailed { unexpected_eof: false }),
        BridgeAction::Stop { report: true }
    );
    assert_eq!(
        bridge_step(BridgeEvent::WriteFailed { broken_pipe: true }),
        BridgeAction::Stop { report: false }
    );
    assert_eq!(
        bridge_step(BridgeEvent::WriteFailed { broken_pipe: false }),
        BridgeAction::Stop { report: true }
    );
}
