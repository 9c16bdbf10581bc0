//! The topology handed to a create request.

use vstd::prelude::*;

verus! {

/// Description of the vdev layout requested for a new pool. The layout itself
/// belongs to the topology collaborator, which decides whether the layout is
/// structurally acceptable for a create operation (non-empty, no degenerate
/// redundancy groupings, and so on) and records its decision here; this
/// layer consults nothing but that decision.
pub struct Topology {
    /// The collaborator's decision: is this layout structurally acceptable for
    /// a create operation?
    pub suitable_for_create: bool,
}

impl Topology {
    /// Whether this topology is structurally acceptable for a create
    /// operation, as a spec-level value.
    pub open spec fn spec_suitable_for_create(&self) -> bool {
        self.suitable_for_create
    }

    /// Whether this topology is structurally acceptable for a create
    /// operation.
    pub fn is_suitable_for_create(&self) -> (r: bool)
        ensures
            r == self.spec_suitable_for_create(),
    {
        self.suitable_for_create
    }
}

} // verus!
