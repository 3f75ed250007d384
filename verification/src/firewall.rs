//! Idempotent reconciliation of one NAT MASQUERADE exception rule.
//!
//! The firewall is external, mutable state, so its answers cannot be pinned
//! down here; what is verified is the check-before-mutate discipline: a
//! mutating command is issued exactly when the observed presence of the rule
//! differs from the desired presence.

use vstd::prelude::*;
use vstd::string::StringExecFns;

verus! {

/// Description of the one managed rule: masquerade everything leaving
/// `iface` except traffic from `exclude_ip`.
pub struct NatRule {
    /// Egress (WAN) interface name.
    pub iface: String,
    /// Source address whose routing is under test; left un-masqueraded.
    pub exclude_ip: String,
}

/// The iptables rule text for a masquerade exception on `iface`/`exclude_ip`.
pub open spec fn masquerade_rule_text(iface: Seq<char>, exclude_ip: Seq<char>) -> Seq<char> {
    ("-o ")@ + iface + (" ! -s ")@ + exclude_ip + (" -j MASQUERADE")@
}

impl NatRule {
    /// Builds the rule description for one interface and excluded source.
    pub fn new(iface: String, exclude_ip: String) -> (r: NatRule)
        ensures
            r.iface == iface,
            r.exclude_ip == exclude_ip,
    {
        NatRule { iface, exclude_ip }
    }

    /// Renders the rule as iptables arguments.
    pub fn masquerade_rule(&self) -> (r: String)
        ensures
            r@ == masquerade_rule_text(self.iface@, self.exclude_ip@),
    {
        let mut r = "-o ".to_owned();
        r.append(self.iface.as_str());
        r.append(" ! -s ");
        r.append(self.exclude_ip.as_str());
        r.append(" -j MASQUERADE");
        proof {
            assert(r@ =~= masquerade_rule_text(self.iface@, self.exclude_ip@));
        }
        r
    }
}

/// Why a reconciliation attempt failed; the two phases are reported apart so
/// the caller can log them distinctly.
pub enum FirewallError {
    /// The existence check itself could not be run.
    CheckFailed(String),
    /// The insert or delete command failed.
    MutationFailed(String),
}

/// Whether reconciliation must issue a mutating command: exactly when the
/// observed presence differs from the desired one.
pub open spec fn reconcile_mutates(present: bool, want_present: bool) -> bool {
    present != want_present
}

/// Presence of the rule after a reconciliation toward `want_present`
/// succeeds, whatever was observed before.
pub open spec fn present_after_reconcile(present: bool, want_present: bool) -> bool {
    want_present
}

/// Exactly when a mutating command is needed, given the observed and the
/// desired presence of the rule.
pub fn needs_mutation(present: bool, want_present: bool) -> (r: bool)
    ensures
        r == reconcile_mutates(present, want_present),
{
    present != want_present
}

/// Reconciling twice toward the same target without an external rule change
/// mutates the backend only on the first call: the second one finds the rule
/// already in the desired state and is a no-op.
pub proof fn lemma_reconcile_idempotent(present: bool, want_present: bool)
    ensures
        !reconcile_mutates(present_after_reconcile(present, want_present), want_present),
{
}

/// Reconciling toward a missing rule's presence, or toward an installed
/// rule's absence, issues exactly one mutating command over two consecutive
/// calls: one on the first call and none on the second.
pub proof fn lemma_single_mutation(present: bool, want_present: bool)
    requires
        present != want_present,
    ensures
        reconcile_mutates(present, want_present),
        !reconcile_mutates(present_after_reconcile(present, want_present), want_present),
{
}

/// What one successful reconciliation observed and did.
pub struct RuleOutcome {
    /// Whether the rule was already present when checked.
    pub existed: bool,
    /// Whether a mutating command was issued.
    pub mutated: bool,
}

#[verifier::external_type_specification]
#[verifier::external_body]
pub struct ExIPTables(iptables::IPTables);

/// Relies on iptables::new: builds a handle that drives the `iptables` (or,
/// for `is_ipv6`, `ip6tables`) command, failing where the command cannot be
/// run or its version not parsed.
#[verifier::external_body]
fn ipt_new(is_ipv6: bool) -> (r: Result<iptables::IPTables, String>) {
    match iptables::new(is_ipv6) {
        Ok(v) => Ok(v),
        Err(e) => Err(e.to_string()),
    }
}

/// Relies on IPTables::set_numeric: makes later listings print numeric
/// addresses, setting the handle's `is_numeric` flag.
#[verifier::external_body]
fn ipt_set_numeric(ipt: &mut iptables::IPTables, numeric: bool) {
    ipt.set_numeric(numeric);
}

/// Relies on IPTables::exists: runs `-t <table> -C <chain> <rule>` and
/// reports whether the rule is present; the answer depends on the host's
/// firewall state.
#[verifier::external_body]
fn ipt_exists(ipt: &iptables::IPTables, table: &str, chain: &str, rule: &str) -> (r: Result<
    bool,
    String,
>) {
    match ipt.exists(table, chain, rule) {
        Ok(v) => Ok(v),
        Err(e) => Err(e.to_string()),
    }
}

/// Relies on IPTables::insert_unique: inserts the rule at `position` in the
/// chain, failing if it is already there or the command fails.
#[verifier::external_body]
fn ipt_insert_unique(
    ipt: &iptables::IPTables,
    table: &str,
    chain: &str,
    rule: &str,
    position: i32,
) -> (r: Result<(), String>) {
    match ipt.insert_unique(table, chain, rule, position) {
        Ok(v) => Ok(v),
        Err(e) => Err(e.to_string()),
    }
}

/// Relies on IPTables::delete: runs `-t <table> -D <chain> <rule>`, failing
/// if the command fails (a missing rule makes it fail).
#[verifier::external_body]
fn ipt_delete(ipt: &iptables::IPTables, table: &str, chain: &str, rule: &str) -> (r: Result<
    (),
    String,
>) {
    match ipt.delete(table, chain, rule) {
        Ok(v) => Ok(v),
        Err(e) => Err(e.to_string()),
    }
}

/// Keeps one masquerade exception rule in the `nat`/`POSTROUTING` chain in
/// step with the desired failover state, by checking before mutating.
pub struct FirewallRuleManager {
    ipt: iptables::IPTables,
}

impl FirewallRuleManager {
    /// Opens a handle to the firewall backend; fails where the backend
    /// command is unavailable.
    pub fn new(is_ipv6: bool) -> (r: Result<FirewallRuleManager, String>) {
        match ipt_new(is_ipv6) {
            Ok(mut ipt) => {
                ipt_set_numeric(&mut ipt, true);
                Ok(FirewallRuleManager { ipt })
            },
            Err(e) => Err(e),
        }
    }

    /// Checks the rule and mutates toward `want_present` only where the
    /// observed state differs; the outcome records both what was observed
    /// and whether a mutating command went out.
    fn reconcile(&self, rule: &NatRule, want_present: bool) -> (r: Result<
        RuleOutcome,
        FirewallError,
    >)
        ensures
            r matches Ok(o) ==> o.mutated == reconcile_mutates(o.existed, want_present),
    {
        let rule_text = rule.masquerade_rule();
        match ipt_exists(&self.ipt, "nat", "POSTROUTING", rule_text.as_str()) {
            Err(e) => Err(FirewallError::CheckFailed(e)),
            Ok(existed) => {
                if !needs_mutation(existed, want_present) {
                    Ok(RuleOutcome { existed, mutated: false })
                } else if want_present {
                    match ipt_insert_unique(&self.ipt, "nat", "POSTROUTING", rule_text.as_str(), 1) {
                        Err(e) => Err(FirewallError::MutationFailed(e)),
                        Ok(_) => Ok(RuleOutcome { existed, mutated: true }),
                    }
                } else {
                    match ipt_delete(&self.ipt, "nat", "POSTROUTING", rule_text.as_str()) {
                        Err(e) => Err(FirewallError::MutationFailed(e)),
                        Ok(_) => Ok(RuleOutcome { existed, mutated: true }),
                    }
                }
            },
        }
    }

    /// Ensures the rule is present: inserts it at position 1 only where the
    /// existence check says it is missing, and never errs merely because it
    /// is already there.
    pub fn ensure_present(&self, rule: &NatRule) -> (r: Result<RuleOutcome, FirewallError>)
        ensures
            r matches Ok(o) ==> o.mutated == reconcile_mutates(o.existed, true),
    {
        self.reconcile(rule, true)
    }

    /// Ensures the rule is absent: deletes it only where the existence check
    /// says it is installed, and never errs merely because it is already
    /// gone.
    pub fn ensure_absent(&self, rule: &NatRule) -> (r: Result<RuleOutcome, FirewallError>)
        ensures
            r matches Ok(o) ==> o.mutated == reconcile_mutates(o.existed, false),
    {
        self.reconcile(rule, false)
    }
}

} // verus!
