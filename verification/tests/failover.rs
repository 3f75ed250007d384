//! Tests for the failover decision table, probe reduction, rule rendering,
//! reconciliation planning, and incident event edges.

use nat_failover::decide;
use nat_failover::needs_mutation;
use nat_failover::Alert;
use nat_failover::Controller;
use nat_failover::CycleOutcome;
use nat_failover::FailoverState;
use nat_failover::NatRule;
use nat_failover::ProbeAttempt;
use nat_failover::ProbeRunner;
use nat_failover::ProbeSpec;
use nat_failover::ProbeVerdict;

fn probe_spec(count: usize) -> ProbeSpec {
    ProbeSpec::new("2001:4860:4860::8888".to_string(), None, count, 500)
}

#[test]
fn decide_both_reachable_is_direct() {
    let r = decide(&ProbeVerdict::Reachable, &ProbeVerdict::Reachable);
    assert_eq!(r, Some(FailoverState::Direct));
}

#[test]
fn decide_policy_unreachable_is_fallback() {
    let r = decide(&ProbeVerdict::Reachable, &ProbeVerdict::Unreachable);
    assert_eq!(r, Some(FailoverState::NatFallback));
}

#[test]
fn decide_policy_inconclusive_is_fallback() {
    let inconclusive = ProbeVerdict::Inconclusive("bind failed".to_string());
    let r = decide(&ProbeVerdict::Reachable, &inconclusive);
    assert_eq!(r, Some(FailoverState::NatFallback));
}

#[test]
fn decide_default_degraded_is_no_action() {
    let inconclusive = ProbeVerdict::Inconclusive("socket error".to_string());
    assert_eq!(decide(&ProbeVerdict::Unreachable, &ProbeVerdict::Reachable), None);
    assert_eq!(decide(&ProbeVerdict::Unreachable, &ProbeVerdict::Unreachable), None);
    assert_eq!(decide(&inconclusive, &ProbeVerdict::Reachable), None);
}

#[test]
fn probe_runner_short_circuits_on_success() {
    let mut runner = ProbeRunner::new(&probe_spec(5));
    for _ in 0..4 {
        let step = runner.step(ProbeAttempt::Failure);
        assert!(step.is_none());
    }
    let step = runner.step(ProbeAttempt::Success);
    assert!(matches!(step, Some(ProbeVerdict::Reachable)));
}

#[test]
fn probe_runner_unreachable_after_exhausting_retries() {
    let mut runner = ProbeRunner::new(&probe_spec(5));
    let mut verdict = None;
    for _ in 0..5 {
        assert!(verdict.is_none());
        verdict = runner.step(ProbeAttempt::Failure);
    }
    assert!(matches!(verdict, Some(ProbeVerdict::Unreachable)));
}

#[test]
fn probe_runner_local_error_is_inconclusive_not_reachable() {
    let mut runner = ProbeRunner::new(&probe_spec(5));
    assert!(runner.step(ProbeAttempt::Failure).is_none());
    let step = runner.step(ProbeAttempt::LocalError("cannot bind source".to_string()));
    match step {
        Some(ProbeVerdict::Inconclusive(m)) => assert_eq!(m, "cannot bind source"),
        other => panic!("expected an inconclusive verdict, got {:?}", other.is_some()),
    }
}

#[test]
fn probe_spec_raises_zero_retries_to_one() {
    let s = ProbeSpec::new("198.51.100.7".to_string(), Some("2001:db8::1".to_string()), 0, 250);
    assert_eq!(s.count, 1);
    assert_eq!(s.timeout_ms, 250);
    let mut runner = ProbeRunner::new(&s);
    assert!(matches!(runner.step(ProbeAttempt::Failure), Some(ProbeVerdict::Unreachable)));
}

#[test]
fn masquerade_rule_renders_exactly() {
    let rule = NatRule::new("eth0".to_string(), "2001:db8::1".to_string());
    assert_eq!(rule.masquerade_rule(), "-o eth0 ! -s 2001:db8::1 -j MASQUERADE");
}

#[test]
fn reconcile_mutates_only_on_difference() {
    assert!(needs_mutation(false, true));
    assert!(!needs_mutation(true, true));
    assert!(needs_mutation(true, false));
    assert!(!needs_mutation(false, false));
}

#[test]
fn ensure_present_twice_mutates_once() {
    // First call observes the rule missing and mutates; a successful
    // reconciliation leaves the rule present, so the second call is a no-op.
    assert!(needs_mutation(false, true));
    assert!(!needs_mutation(true, true));
}

#[test]
fn ensure_absent_twice_mutates_once() {
    assert!(needs_mutation(true, false));
    assert!(!needs_mutation(false, false));
}

#[test]
fn restart_with_preexisting_rule_converges() {
    // A fresh controller that decides Direct while the fallback rule is
    // already installed must issue the delete.
    assert_eq!(
        decide(&ProbeVerdict::Reachable, &ProbeVerdict::Reachable),
        Some(FailoverState::Direct)
    );
    assert!(needs_mutation(true, false));
}

#[test]
fn alert_emits_one_opened_event_across_repeated_triggers() {
    let mut alert = Alert::with_alertname("NAT enabled on router".to_string());
    let opened = alert.trigger_at("2024-05-01T08:00:00+00:00".to_string());
    let opened = opened.expect("first trigger must emit an opened event");
    assert_eq!(opened.starts_at, "2024-05-01T08:00:00+00:00");
    assert!(opened.ends_at.is_none());
    assert!(alert.trigger_at("2024-05-01T08:00:15+00:00".to_string()).is_none());
    assert!(alert.trigger_at("2024-05-01T08:00:30+00:00".to_string()).is_none());
    assert!(alert.starts_at.is_some());
}

#[test]
fn alert_emits_one_closed_event_then_stays_silent() {
    let mut alert = Alert::with_alertname("NAT enabled on router".to_string());
    alert.trigger_at("2024-05-01T08:00:00+00:00".to_string());
    let closed = alert.resolve_at("2024-05-01T08:05:00+00:00".to_string());
    let closed = closed.expect("first resolve after an open must emit a closed event");
    assert_eq!(closed.starts_at, "2024-05-01T08:00:00+00:00");
    assert_eq!(closed.ends_at.as_deref(), Some("2024-05-01T08:05:00+00:00"));
    assert!(alert.resolve_at("2024-05-01T08:05:15+00:00".to_string()).is_none());
    assert!(alert.starts_at.is_none());
    assert!(alert.ends_at.is_none());
}

#[test]
fn alert_resolve_before_any_trigger_is_silent() {
    let mut alert = Alert::with_alertname("NAT enabled on router".to_string());
    assert!(alert.resolve_at("2024-05-01T08:00:00+00:00".to_string()).is_none());
    assert!(alert.starts_at.is_none());
}

#[test]
fn alert_labels_and_annotations() {
    let alert = Alert::with_alertname("NAT enabled on router".to_string());
    assert_eq!(alert.labels.len(), 1);
    assert_eq!(alert.labels[0].0, "alertname");
    assert_eq!(alert.labels[0].1, "NAT enabled on router");
    assert_eq!(alert.annotations.len(), 1);
    assert_eq!(alert.annotations[0].0, "description");
    assert_eq!(alert.annotations[0].1, "NAT enabled as fallback for routing problem");
}

#[test]
fn scenario_direct_steady_state_keeps_incident_closed() {
    // Default probe reachable, policy probe reachable: desired Direct, the
    // rule is not wanted, and the incident never opens.
    let desired = decide(&ProbeVerdict::Reachable, &ProbeVerdict::Reachable);
    assert_eq!(desired, Some(FailoverState::Direct));
    assert!(!needs_mutation(false, false));
    let mut alert = Alert::with_alertname("NAT enabled on router".to_string());
    assert!(alert.resolve_at("2024-05-01T08:00:00+00:00".to_string()).is_none());
    assert!(alert.starts_at.is_none());
}

#[test]
fn scenario_fallback_then_recovery() {
    // Policy probe dead while the default path works: fallback is desired,
    // the rule is inserted, one opened event goes out. On recovery the rule
    // is removed and one closed event carries both timestamps.
    let desired = decide(&ProbeVerdict::Reachable, &ProbeVerdict::Unreachable);
    assert_eq!(desired, Some(FailoverState::NatFallback));
    assert!(needs_mutation(false, true));
    let mut alert = Alert::with_alertname("NAT enabled on router".to_string());
    let opened = alert.trigger_at("2024-05-01T08:00:00+00:00".to_string()).unwrap();
    assert!(opened.ends_at.is_none());

    let recovered = decide(&ProbeVerdict::Reachable, &ProbeVerdict::Reachable);
    assert_eq!(recovered, Some(FailoverState::Direct));
    assert!(needs_mutation(true, false));
    let closed = alert.resolve_at("2024-05-01T08:05:00+00:00".to_string()).unwrap();
    assert_eq!(closed.starts_at, "2024-05-01T08:00:00+00:00");
    assert_eq!(closed.ends_at.as_deref(), Some("2024-05-01T08:05:00+00:00"));
}

#[test]
fn controller_wan_degraded_cycle_touches_nothing() {
    // The firewall backend may be unavailable where this test runs; the
    // controller cannot be built then, which is itself the contracted
    // failure mode.
    match Controller::new("eth0".to_string(), "2001:db8::1".to_string(), true) {
        Err(e) => assert!(!e.is_empty()),
        Ok(mut controller) => {
            let out = controller.run_cycle(&ProbeVerdict::Unreachable, &ProbeVerdict::Reachable);
            assert!(matches!(out, CycleOutcome::WanDegraded));
            assert_eq!(controller.state, FailoverState::Direct);
            assert!(controller.alert.starts_at.is_none());
        }
    }
}
