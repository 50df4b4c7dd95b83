//! Authority-token lifecycle, policy-boundary validation and the contracts
//! that surround them.

pub mod authority;
pub mod i18n;
pub mod monty_fork_policy_contract;
pub mod phase_gate_contract;
pub mod policy;
pub mod sink_enforcement;
pub mod text;
