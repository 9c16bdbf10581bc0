//! The record a status or enumeration query returns for one pool.

use vstd::prelude::*;

verus! {

/// Health of a pool as the external tool reports it.
#[derive(Clone, Copy, Debug, PartialEq, Eq, Structural)]
pub enum Health {
    /// The pool is online and fully functional.
    Online,
    /// The pool works, but one or more vdevs have failed.
    Degraded,
    /// The pool is unusable.
    Faulted,
    /// The pool has been taken offline by the administrator.
    Offline,
    /// The pool cannot be opened.
    Unavailable,
    /// A device was physically removed while the pool was running.
    Removed,
}

/// What a status or enumeration query reports about one pool: the slice of
/// the external tool's output that this layer relies on.
#[derive(Clone, Debug)]
pub struct Zpool {
    /// The pool's name.
    pub name: String,
    /// The pool's health as reported by the tool.
    pub health: Health,
}

} // verus!
