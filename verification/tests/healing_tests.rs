use sshbind::healing::{
    classify_tunnel_error, healing_delay_ms, lowercase_calls_for_healing, record_healing_result, record_tunnel_outcome,
    should_trigger_session_healing, HealAction, HealRetry, HealthMonitor, MonitorAction,
    TunnelOutcome,
};

#[test]
fn healing_triggers_on_session_errors() {
    assert!(should_trigger_session_healing("Broken PIPE while writing"));
    assert!(should_trigger_session_healing("Channel open failure"));
    assert!(should_trigger_session_healing("[Session(-7)] Unable to send channel-open request"));
    assert!(should_trigger_session_healing("Would Block"));
    assert!(should_trigger_session_healing("Connection reset by peer"));
    assert!(should_trigger_session_healing("transport read"));
    assert!(!should_trigger_session_healing("Authentication failed for user: u on host: h"));
    assert!(!should_trigger_session_healing(""));
}

#[test]
fn healing_delay_doubles_then_caps() {
    let expected = [1000u64, 2000, 4000, 8000, 16000, 30000, 30000];
    for (i, want) in expected.iter().enumerate() {
        assert_eq!(healing_delay_ms(i as u32 + 1), *want);
    }
    assert_eq!(healing_delay_ms(55), 30000);
    // The wait never shrinks and stays between one and thirty seconds.
    for a in 1..55u32 {
        let d = healing_delay_ms(a);
        assert!(d <= healing_delay_ms(a + 1));
        assert!((1000..=30000).contains(&d));
    }
}

#[test]
fn heal_retry_without_attempts() {
    let (_, a) = HealRetry::start(0);
    assert_eq!(a, HealAction::Finish(Err("Unexpected end of session healing retry loop".to_string())));
}

#[test]
fn heal_retry_backs_off_then_gives_up() {
    let (mut r, a) = HealRetry::start(3);
    assert_eq!(a, HealAction::Rebuild);
    assert_eq!(r.step(Err("e1".to_string())), HealAction::RetryAfter(1000));
    assert_eq!(r.step(Err("e2".to_string())), HealAction::RetryAfter(2000));
    assert_eq!(
        r.step(Err("e3".to_string())),
        HealAction::Finish(Err("Session healing failed after 3 attempts: e3".to_string()))
    );
}

#[test]
fn heal_retry_succeeds() {
    let (mut r, _) = HealRetry::start(3);
    assert_eq!(r.step(Err("down".to_string())), HealAction::RetryAfter(1000));
    assert_eq!(r.step(Ok(())), HealAction::Finish(Ok(())));
}

#[test]
fn tunnel_failures_count_towards_healing() {
    assert_eq!(classify_tunnel_error("broken pipe"), TunnelOutcome::Failed { healable: true });
    assert_eq!(classify_tunnel_error("no route"), TunnelOutcome::Failed { healable: false });

    let mut counter = 0u32;
    assert!(!record_tunnel_outcome(&mut counter, TunnelOutcome::Failed { healable: true }));
    assert_eq!(counter, 1);
    assert!(record_tunnel_outcome(&mut counter, TunnelOutcome::Failed { healable: true }));
    assert_eq!(counter, 2);
    assert!(!record_tunnel_outcome(&mut counter, TunnelOutcome::Failed { healable: false }));
    assert_eq!(counter, 0);
    record_tunnel_outcome(&mut counter, TunnelOutcome::Failed { healable: true });
    assert!(!record_tunnel_outcome(&mut counter, TunnelOutcome::Connected));
    assert_eq!(counter, 0);

    counter = 5;
    record_healing_result(&mut counter, false);
    assert_eq!(counter, 5);
    record_healing_result(&mut counter, true);
    assert_eq!(counter, 0);
}

#[test]
fn health_monitor_heals_once_at_a_time() {
    let mut m = HealthMonitor::new();
    let mut counter = 3u32;
    assert_eq!(m.check(false, &mut counter), MonitorAction::Heal);
    assert!(m.healing_in_progress);
    assert_eq!(m.consecutive_failures, 1);
    // While healing runs, checks only wait.
    assert_eq!(m.check(false, &mut counter), MonitorAction::Wait);
    assert_eq!(m.consecutive_failures, 1);
    m.healing_finished(false);
    assert!(!m.healing_in_progress);
    assert_eq!(m.consecutive_failures, 1);
    assert_eq!(m.check(false, &mut counter), MonitorAction::Heal);
    assert_eq!(m.consecutive_failures, 2);
    m.healing_finished(true);
    assert_eq!(m.consecutive_failures, 0);
    // A healthy check lowers the shared counter by one.
    assert_eq!(m.check(true, &mut counter), MonitorAction::Wait);
    assert_eq!(counter, 2);
    counter = 0;
    m.check(true, &mut counter);
    assert_eq!(counter, 0);
}

#[test]
fn healing_decision_on_lowercase_text() {
    assert!(lowercase_calls_for_healing("write failed: broken pipe"));
    assert!(lowercase_calls_for_healing("[session(-7)] unable to send channel-open request"));
    // The text is taken as it is: upper case is not recognised here.
    assert!(!lowercase_calls_for_healing("Broken Pipe"));
    assert!(!lowercase_calls_for_healing("timed out"));
}
