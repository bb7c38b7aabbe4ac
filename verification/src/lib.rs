//! Demand-control cost estimation for a federated GraphQL gateway.
//!
//! The engine walks an operation's selection tree against two views of the
//! composed schema, resolves the directives that govern cost (`@cost`,
//! `@skip`, `@include`, and the federation rewrite of `@requires` into
//! `@join__field(requires:)`), and folds the result into a single
//! non-negative cost. A classifier combines the estimated and actual cost
//! into a telemetry-ready result, and a policy turns that result into an
//! admit/reject decision.

pub mod cost;
pub mod directives;
pub mod laws;
pub mod model;
pub mod outcome;
pub mod spans;
pub mod telemetry;
