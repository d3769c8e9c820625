//! A node-local cell runtime: a registry of cells (cgroups with their nested
//! agents) kept consistent with the cgroup filesystem, the routing of
//! requests down a tree of nested agents, and the isolation plan of a nested
//! agent.

pub mod error;
pub mod names;
pub mod proto;
pub mod retry;
pub mod router;
pub mod validation;
pub mod isolation;
pub mod cell;
pub mod cells;
pub mod executables;
