//! The per-cycle failover decision and its application.
//!
//! Each cycle two probe verdicts come in: from the default path and from the
//! policy-routed path. If the default path itself is degraded nothing is
//! touched; otherwise the desired failover state follows the policy path,
//! the firewall rule is reconciled toward it, and the incident notifier is
//! driven across its edge.

use crate::alert::notifier_emits;
use crate::alert::Alert;
use crate::alert::AlertEvent;
use crate::firewall::present_after_reconcile;
use crate::firewall::reconcile_mutates;
use crate::firewall::FirewallError;
use crate::firewall::FirewallRuleManager;
use crate::firewall::NatRule;
use crate::firewall::RuleOutcome;
use crate::probe::ProbeVerdict;
use vstd::prelude::*;

verus! {

/// The two failover states: traffic flows directly, or through the NAT
/// fallback rule.
#[derive(Clone, Copy, PartialEq, Eq, Structural, Debug)]
pub enum FailoverState {
    Direct,
    NatFallback,
}

/// Whether a state wants the fallback rule installed.
pub open spec fn wants_fallback(s: FailoverState) -> bool {
    s is NatFallback
}

/// The per-cycle decision table: no desired state while the default path is
/// degraded; otherwise `Direct` exactly when the policy path is reachable.
pub open spec fn spec_decide(default_path: ProbeVerdict, policy_path: ProbeVerdict) -> Option<
    FailoverState,
> {
    if !(default_path is Reachable) {
        None
    } else if policy_path is Reachable {
        Some(FailoverState::Direct)
    } else {
        Some(FailoverState::NatFallback)
    }
}

/// Decides the desired failover state from the two probe verdicts.
pub fn decide(default_path: &ProbeVerdict, policy_path: &ProbeVerdict) -> (r: Option<
    FailoverState,
>)
    ensures
        r == spec_decide(*default_path, *policy_path),
{
    match default_path {
        ProbeVerdict::Reachable => match policy_path {
            ProbeVerdict::Reachable => Some(FailoverState::Direct),
            _ => Some(FailoverState::NatFallback),
        },
        _ => None,
    }
}

/// While the default path is unreachable or inconclusive no desired state is
/// computed at all, whatever the policy path reports: the cycle leaves the
/// firewall rule and the incident state untouched.
pub proof fn lemma_wan_degraded_no_action(default_path: ProbeVerdict, policy_path: ProbeVerdict)
    requires
        !(default_path is Reachable),
    ensures
        spec_decide(default_path, policy_path) is None,
{
}

/// Restart convergence: a controller that finds an externally pre-existing
/// fallback rule and observes a direct-desiring cycle (both paths reachable)
/// issues the delete, leaving the rule absent — presence is derived from the
/// probes, not from remembered state.
pub proof fn lemma_restart_convergence()
    ensures
        spec_decide(ProbeVerdict::Reachable, ProbeVerdict::Reachable) == Some(
            FailoverState::Direct,
        ),
        reconcile_mutates(true, wants_fallback(FailoverState::Direct)),
        !present_after_reconcile(true, wants_fallback(FailoverState::Direct)),
{
}

/// What one successfully reconciled cycle decided and did.
pub struct CycleReconciled {
    /// The state the cycle decided on and applied.
    pub state: FailoverState,
    /// What the firewall reconciliation observed and did.
    pub rule: RuleOutcome,
    /// The incident event to send, if this cycle crossed an edge.
    pub event: Option<AlertEvent>,
}

/// The outcome of one controller cycle.
pub enum CycleOutcome {
    /// The default path is degraded: nothing was touched.
    WanDegraded,
    /// Reconciliation failed; state was left untouched so that the next
    /// cycle retries the same transition.
    FirewallFailed(FirewallError),
    /// The rule was reconciled and the notifier driven.
    Reconciled(CycleReconciled),
}

/// The failover controller: the managed rule, the last applied state, the
/// incident alert, and the firewall handle.
pub struct Controller {
    /// The one masquerade exception rule under management.
    pub rule: NatRule,
    /// The last successfully applied state; informational, never trusted in
    /// place of reconciliation.
    pub state: FailoverState,
    /// The incident alert, open exactly while the fallback is applied.
    pub alert: Alert,
    /// Handle to the firewall backend.
    pub firewall: FirewallRuleManager,
}

impl Controller {
    /// Builds a controller for one interface and excluded source address;
    /// fails where the firewall backend is unavailable.
    pub fn new(iface: String, exclude_ip: String, is_ipv6: bool) -> (r: Result<Controller, String>)
        ensures
            r matches Ok(c) ==> c.state is Direct && !c.alert.is_open() && c.alert.starts_at
                is None && c.alert.ends_at is None && c.rule.iface == iface && c.rule.exclude_ip
                == exclude_ip,
    {
        match FirewallRuleManager::new(is_ipv6) {
            Err(e) => Err(e),
            Ok(firewall) => Ok(
                Controller {
                    rule: NatRule::new(iface, exclude_ip),
                    state: FailoverState::Direct,
                    alert: Alert::new(),
                    firewall,
                },
            ),
        }
    }

    /// Runs the decision-and-apply part of one cycle on the two probe
    /// verdicts: no action while the default path is degraded; otherwise the
    /// rule is reconciled toward the decided state and, only if that
    /// succeeded, the state is adopted and the notifier driven across its
    /// edge. After a reconciled cycle the incident is open exactly when the
    /// applied state is the fallback.
    pub fn run_cycle(&mut self, default_path: &ProbeVerdict, policy_path: &ProbeVerdict) -> (r:
        CycleOutcome)
        ensures
            final(self).rule == old(self).rule,
            spec_decide(*default_path, *policy_path) is None ==> *final(self) == *old(self) && r
                is WanDegraded,
            spec_decide(*default_path, *policy_path) matches Some(d) ==> !(r is WanDegraded) && (
            r matches CycleOutcome::FirewallFailed(_) ==> final(self).state == old(self).state
                && final(self).alert == old(self).alert) && (r
                matches CycleOutcome::Reconciled(out) ==> out.state == d && final(self).state == d
                && out.rule.mutated == reconcile_mutates(out.rule.existed, wants_fallback(d))
                && final(self).alert.is_open() == wants_fallback(d) && (out.event is Some
                <==> notifier_emits(old(self).alert.is_open(), wants_fallback(d)))),
            r matches CycleOutcome::Reconciled(out) ==> (final(self).alert.is_open()
                <==> wants_fallback(final(self).state)),
            r matches CycleOutcome::Reconciled(_) ==> final(self).alert.labels == old(
                self,
            ).alert.labels && final(self).alert.annotations == old(self).alert.annotations && (old(
                self,
            ).alert.ends_at is None ==> final(self).alert.ends_at is None),
    {
        match decide(default_path, policy_path) {
            None => CycleOutcome::WanDegraded,
            Some(desired) => {
                let want_present = match desired {
                    FailoverState::NatFallback => true,
                    FailoverState::Direct => false,
                };
                let reconciled = if want_present {
                    self.firewall.ensure_present(&self.rule)
                } else {
                    self.firewall.ensure_absent(&self.rule)
                };
                match reconciled {
                    Err(e) => CycleOutcome::FirewallFailed(e),
                    Ok(out) => {
                        self.state = desired;
                        let event = if want_present {
                            self.alert.trigger()
                        } else {
                            self.alert.resolve()
                        };
                        CycleOutcome::Reconciled(
                            CycleReconciled { state: desired, rule: out, event },
                        )
                    },
                }
            },
        }
    }
}

} // verus!


