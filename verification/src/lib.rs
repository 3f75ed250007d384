//! Watchdog logic for routed-address failover: probe verdicts, the two-state
//! failover decision, idempotent firewall-rule reconciliation, and
//! one-event-per-edge incident notification.

pub mod alert;
pub mod controller;
pub mod firewall;
pub mod probe;

pub use alert::Alert;
pub use alert::AlertEvent;
pub use controller::decide;
pub use controller::Controller;
pub use controller::CycleOutcome;
pub use controller::CycleReconciled;
pub use controller::FailoverState;
pub use firewall::needs_mutation;
pub use firewall::FirewallError;
pub use firewall::FirewallRuleManager;
pub use firewall::NatRule;
pub use firewall::RuleOutcome;
pub use probe::ProbeAttempt;
pub use probe::ProbeRunner;
pub use probe::ProbeSpec;
pub use probe::ProbeVerdict;
