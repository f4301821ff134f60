//! Host networking of a microVM: the rules, rulesets and step sequences that provision a
//! simple or a namespaced topology, with their contracts.
//!
//! - `model`: addresses, ruleset objects, the network description and errors.
//! - `rules`: the rule expressions, compared literally against the live ruleset.
//! - `ruleset`: reading a ruleset listing and composing base objects.
//! - `simple`, `namespaced`: the batches, routes and verdicts of each topology.
//! - `steps`: the order of kernel requests of each operation.
//! - `kernel`: how the kernel applies a batch, and the laws that hold over it.

pub mod model;
pub mod rules;
pub mod ruleset;
pub mod simple;
pub mod namespaced;
pub mod kernel;
pub mod steps;
