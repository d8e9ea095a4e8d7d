//! Verified core of a small per-chain contract suite: a cross-chain tipping
//! ledger, a counter, a poll, and a minimal counter template.
//!
//! Every handler is a pure validate-then-apply function over the owning
//! chain's state; the host that schedules invocations, persists state and
//! delivers cross-chain messages sits outside this crate and hands the
//! handlers plain values (the executing chain's identity and a clock).

pub mod counter;
pub mod host;
pub mod ids;
pub mod poll;
pub mod template;
pub mod tip_jar;
