//! Pool-level lifecycle management for ZFS storage pools.
//!
//! The pools themselves are created and mutated by an external administrative
//! tool; this crate supplies the control-plane layer around it: a typed error
//! taxonomy with a deterministic classifier for the tool's diagnostic output,
//! a guarded operation contract that pairs every mutating operation with a
//! cheap existence precondition, and a property-update algorithm that issues
//! the minimal number of mutating calls.

pub mod zpool;
