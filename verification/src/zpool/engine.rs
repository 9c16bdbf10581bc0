//! The guarded operation contract. A backend implements the unchecked
//! primitives, which talk directly to the execution layer and perform no
//! precondition checks; the checked operations are derived here, layering an
//! existence or validity guard before delegating.
//!
//! The contract speaks of an abstract set of active pool names per backend
//! handle. It describes a single actor: a pool destroyed by a concurrent
//! actor between a guard check and the delegated call is a documented
//! limitation of the guard-then-act pattern, not something this layer can
//! mask, and callers needing exclusivity must serialize externally.

use vstd::prelude::*;

use crate::zpool::description::Zpool;
use crate::zpool::errors::ZpoolError;
use crate::zpool::errors::ZpoolErrorKind;
use crate::zpool::errors::ZpoolResult;
use crate::zpool::properties::diff_properties;
use crate::zpool::properties::PropertyUpdate;
use crate::zpool::properties::ZpoolProperties;
use crate::zpool::properties::ZpoolPropertiesWrite;
use crate::zpool::topology::Topology;

verus! {

/// The existence guard's decision: an existence probe that answered `true`
/// lets the operation proceed, one that answered `false` yields
/// [`ZpoolError::PoolNotFound`] — and nothing else — and a probe that itself
/// failed has its error returned unmodified. Every checked operation that
/// guards on existence routes the probe's answer through here.
pub fn exists_guard(probe: ZpoolResult<bool>) -> (r: ZpoolResult<()>)
    ensures
        r == match probe {
            Ok(true) => Ok::<(), ZpoolError>(()),
            Ok(false) => Err::<(), ZpoolError>(ZpoolError::PoolNotFound),
            Err(e) => Err::<(), ZpoolError>(e),
        },
{
    match probe {
        Ok(true) => Ok(()),
        Ok(false) => Err(ZpoolError::PoolNotFound),
        Err(e) => Err(e),
    }
}

/// Generic interface to manage zpools. A backend supplies the unchecked
/// primitives; the checked operations are derived from them and add only the
/// guard, never reinterpreting backend errors. Guard failures
/// ([`ZpoolError::PoolNotFound`], [`ZpoolError::InvalidTopology`]) are
/// synthesized locally and returned immediately, never retried; every other
/// error originates in the backend and is returned unmodified.
pub trait ZpoolEngine {
    /// The names of the pools that are active on the system this backend
    /// handle talks to. A backend ties its answers to this model; left alone,
    /// it stays unconstrained.
    open spec fn pools(&self) -> Set<Seq<char>> {
        vstd::pervasive::arbitrary()
    }

    /// Check whether a pool with the given name exists. This never reports
    /// [`ZpoolError::PoolNotFound`]: a missing pool is the answer `false`,
    /// not an error. Like every primitive, it never reports the locally
    /// synthesized [`ZpoolError::InvalidTopology`] either.
    fn pool_exists(&self, name: &str) -> (r: ZpoolResult<bool>)
        ensures
            r matches Ok(b) ==> b == self.pools().contains(name@),
            r matches Err(e) ==> e.kind_spec() != ZpoolErrorKind::PoolNotFound && e.kind_spec()
                != ZpoolErrorKind::InvalidTopology,
    ;

    /// Create a new pool without checking the topology. The caller must have
    /// established that the topology is acceptable.
    fn create_unchecked(
        &mut self,
        name: &str,
        topology: &Topology,
        props: Option<ZpoolPropertiesWrite>,
        mount: Option<String>,
        alt_root: Option<String>,
    ) -> (r: ZpoolResult<()>)
        requires
            topology.spec_suitable_for_create(),
        ensures
            r matches Ok(_) ==> final(self).pools() == old(self).pools().insert(name@),
            r matches Err(e) ==> final(self).pools() == old(self).pools() && e.kind_spec()
                != ZpoolErrorKind::PoolNotFound && e.kind_spec() != ZpoolErrorKind::InvalidTopology,
    ;

    /// Create a new pool. Yields [`ZpoolError::InvalidTopology`] exactly when
    /// the topology fails its structural validity check, in which case the
    /// backend is never consulted.
    fn create(
        &mut self,
        name: &str,
        topology: &Topology,
        props: Option<ZpoolPropertiesWrite>,
        mount: Option<String>,
        alt_root: Option<String>,
    ) -> (r: ZpoolResult<()>)
        ensures
            (r matches Err(e) && e.kind_spec() == ZpoolErrorKind::InvalidTopology)
                <==> !topology.spec_suitable_for_create(),
            !topology.spec_suitable_for_create() ==> r == Err::<(), ZpoolError>(
                ZpoolError::InvalidTopology,
            ),
            r matches Ok(_) ==> final(self).pools() == old(self).pools().insert(name@),
            r matches Err(e) ==> final(self).pools() == old(self).pools() && e.kind_spec()
                != ZpoolErrorKind::PoolNotFound,
    {
        if !topology.is_suitable_for_create() {
            return Err(ZpoolError::InvalidTopology);
        }
        self.create_unchecked(name, topology, props, mount, alt_root)
    }

    /// Destroy a pool without verifying that it exists. The caller must have
    /// established existence.
    fn destroy_unchecked(&mut self, name: &str, force: bool) -> (r: ZpoolResult<()>)
        requires
            old(self).pools().contains(name@),
        ensures
            r matches Ok(_) ==> final(self).pools() == old(self).pools().remove(name@),
            r matches Err(e) ==> e.kind_spec() != ZpoolErrorKind::PoolNotFound && e.kind_spec()
                != ZpoolErrorKind::InvalidTopology,
    ;

    /// Destroy a pool. The existence probe's answer decides as
    /// [`exists_guard`] says: a missing pool yields
    /// [`ZpoolError::PoolNotFound`], and the destroying primitive is never
    /// reached.
    fn destroy(&mut self, name: &str, force: bool) -> (r: ZpoolResult<()>)
        ensures
            r matches Ok(_) ==> old(self).pools().contains(name@) && final(self).pools() == old(
                self,
            ).pools().remove(name@),
            !old(self).pools().contains(name@) ==> (r is Err) && final(self).pools() == old(
                self,
            ).pools(),
            r matches Err(e) && e.kind_spec() == ZpoolErrorKind::PoolNotFound ==> !old(
                self,
            ).pools().contains(name@),
            r matches Err(e) ==> e.kind_spec() != ZpoolErrorKind::InvalidTopology,
    {
        let probe = self.pool_exists(name);
        match exists_guard(probe) {
            Ok(_) => self.destroy_unchecked(name, force),
            Err(e) => Err(e),
        }
    }

    /// Read a pool's properties without verifying that it exists. The caller
    /// must have established existence.
    fn read_properties_unchecked(&self, name: &str) -> (r: ZpoolResult<ZpoolProperties>)
        requires
            self.pools().contains(name@),
        ensures
            r matches Err(e) ==> e.kind_spec() != ZpoolErrorKind::PoolNotFound && e.kind_spec()
                != ZpoolErrorKind::InvalidTopology,
    ;

    /// Read a pool's properties. The existence probe's answer decides as
    /// [`exists_guard`] says: a missing pool yields
    /// [`ZpoolError::PoolNotFound`], and the reading primitive is never
    /// reached.
    fn read_properties(&self, name: &str) -> (r: ZpoolResult<ZpoolProperties>)
        ensures
            r matches Ok(_) ==> self.pools().contains(name@),
            !self.pools().contains(name@) ==> r is Err,
            r matches Err(e) && e.kind_spec() == ZpoolErrorKind::PoolNotFound
                ==> !self.pools().contains(name@),
            r matches Err(e) ==> e.kind_spec() != ZpoolErrorKind::InvalidTopology,
    {
        let probe = self.pool_exists(name);
        match exists_guard(probe) {
            Ok(_) => self.read_properties_unchecked(name),
            Err(e) => Err(e),
        }
    }

    /// Issue one "set" call for one attribute. Internal delegation target of
    /// [`ZpoolEngine::update_properties`]; the caller must have established
    /// existence. Setting an attribute never creates or destroys a pool.
    fn set_unchecked(&mut self, name: &str, update: &PropertyUpdate) -> (r: ZpoolResult<()>)
        requires
            old(self).pools().contains(name@),
        ensures
            final(self).pools() == old(self).pools(),
            r matches Err(e) ==> e.kind_spec() != ZpoolErrorKind::PoolNotFound && e.kind_spec()
                != ZpoolErrorKind::InvalidTopology,
    ;

    /// Update a pool's properties: read the current snapshot, issue one set
    /// call for each attribute whose current value differs from the desired
    /// one (and none for the others), then re-read and return the resulting
    /// snapshot. The existence probe's answer decides as [`exists_guard`]
    /// says. The set calls happen in the fixed order of
    /// [`crate::zpool::properties::update_plan`]; if one fails, the remaining
    /// ones are never attempted and the already-applied changes stay in
    /// effect — there is no transactional primitive to roll back with.
    fn update_properties(&mut self, name: &str, props: ZpoolPropertiesWrite) -> (r: ZpoolResult<
        ZpoolProperties,
    >)
        ensures
            final(self).pools() == old(self).pools(),
            r matches Ok(_) ==> old(self).pools().contains(name@),
            !old(self).pools().contains(name@) ==> r is Err,
            r matches Err(e) && e.kind_spec() == ZpoolErrorKind::PoolNotFound ==> !old(
                self,
            ).pools().contains(name@),
            r matches Err(e) ==> e.kind_spec() != ZpoolErrorKind::InvalidTopology,
    {
        let probe = self.pool_exists(name);
        match exists_guard(probe) {
            Ok(_) => {
                let current = match self.read_properties_unchecked(name) {
                    Ok(c) => c,
                    Err(e) => {
                        return Err(e);
                    },
                };
                let plan = diff_properties(&current, &props);
                let mut i: usize = 0;
                while i < plan.len()
                    invariant
                        i <= plan.len(),
                        self.pools() == old(self).pools(),
                        self.pools().contains(name@),
                    decreases plan.len() - i,
                {
                    match self.set_unchecked(name, &plan[i]) {
                        Ok(_) => {},
                        Err(e) => {
                            return Err(e);
                        },
                    }
                    i += 1;
                }
                self.read_properties_unchecked(name)
            },
            Err(e) => Err(e),
        }
    }

    /// Export a pool without verifying that it exists. The caller must have
    /// established existence.
    fn export_unchecked(&mut self, name: &str, force: bool) -> (r: ZpoolResult<()>)
        requires
            old(self).pools().contains(name@),
        ensures
            r matches Ok(_) ==> final(self).pools() == old(self).pools().remove(name@),
            r matches Err(e) ==> e.kind_spec() != ZpoolErrorKind::PoolNotFound && e.kind_spec()
                != ZpoolErrorKind::InvalidTopology,
    ;

    /// Export a pool. The existence probe's answer decides as
    /// [`exists_guard`] says: a missing pool yields
    /// [`ZpoolError::PoolNotFound`], and the exporting primitive is never
    /// reached.
    fn export(&mut self, name: &str, force: bool) -> (r: ZpoolResult<()>)
        ensures
            r matches Ok(_) ==> old(self).pools().contains(name@) && final(self).pools() == old(
                self,
            ).pools().remove(name@),
            !old(self).pools().contains(name@) ==> (r is Err) && final(self).pools() == old(
                self,
            ).pools(),
            r matches Err(e) && e.kind_spec() == ZpoolErrorKind::PoolNotFound ==> !old(
                self,
            ).pools().contains(name@),
            r matches Err(e) ==> e.kind_spec() != ZpoolErrorKind::InvalidTopology,
    {
        let probe = self.pool_exists(name);
        match exists_guard(probe) {
            Ok(_) => self.export_unchecked(name, force),
            Err(e) => Err(e),
        }
    }

    /// The pools available for import in the default device directory. The
    /// target pools are by definition not active locally, so no existence
    /// guard applies.
    fn available(&self) -> (r: ZpoolResult<Vec<Zpool>>)
        ensures
            r matches Err(e) ==> e.kind_spec() != ZpoolErrorKind::PoolNotFound && e.kind_spec()
                != ZpoolErrorKind::InvalidTopology,
    ;

    /// The pools available for import in the given directory. No existence
    /// guard applies.
    fn available_in_dir(&self, dir: &str) -> (r: ZpoolResult<Vec<Zpool>>)
        ensures
            r matches Err(e) ==> e.kind_spec() != ZpoolErrorKind::PoolNotFound && e.kind_spec()
                != ZpoolErrorKind::InvalidTopology,
    ;

    /// Import a pool from the given directory. The pool is by definition not
    /// currently known locally, so no existence guard applies.
    fn import_from_dir(&mut self, name: &str, dir: &str) -> (r: ZpoolResult<()>)
        ensures
            r matches Ok(_) ==> final(self).pools() == old(self).pools().insert(name@),
            r matches Err(e) ==> final(self).pools() == old(self).pools() && e.kind_spec()
                != ZpoolErrorKind::PoolNotFound && e.kind_spec() != ZpoolErrorKind::InvalidTopology,
    ;

    /// Status of a single pool, without verifying that it exists. The caller
    /// must have established existence.
    fn status_unchecked(&self, name: &str) -> (r: ZpoolResult<Zpool>)
        requires
            self.pools().contains(name@),
        ensures
            r matches Ok(z) ==> z.name@ == name@,
            r matches Err(e) ==> e.kind_spec() != ZpoolErrorKind::PoolNotFound && e.kind_spec()
                != ZpoolErrorKind::InvalidTopology,
    ;

    /// Status of a single pool. The existence probe's answer decides as
    /// [`exists_guard`] says: a missing pool yields
    /// [`ZpoolError::PoolNotFound`], and the status primitive is never
    /// reached.
    fn status(&self, name: &str) -> (r: ZpoolResult<Zpool>)
        ensures
            r matches Ok(z) ==> self.pools().contains(name@) && z.name@ == name@,
            !self.pools().contains(name@) ==> r is Err,
            r matches Err(e) && e.kind_spec() == ZpoolErrorKind::PoolNotFound
                ==> !self.pools().contains(name@),
            r matches Err(e) ==> e.kind_spec() != ZpoolErrorKind::InvalidTopology,
    {
        let probe = self.pool_exists(name);
        match exists_guard(probe) {
            Ok(_) => self.status_unchecked(name),
            Err(e) => Err(e),
        }
    }

    /// A status record for every pool active on the system.
    fn all(&self) -> (r: ZpoolResult<Vec<Zpool>>)
        ensures
            r matches Ok(v) ==> (forall|i: int|
                0 <= i < v@.len() ==> self.pools().contains(#[trigger] v@[i].name@)) && (forall|
                n: Seq<char>,
            |
                #[trigger] self.pools().contains(n) ==> exists|i: int|
                    0 <= i < v@.len() && v@[i].name@ == n),
            r matches Err(e) ==> e.kind_spec() != ZpoolErrorKind::PoolNotFound && e.kind_spec()
                != ZpoolErrorKind::InvalidTopology,
    ;
}

/// Law: an existence check is idempotent. Its contract pins any successful
/// answer to membership of the name in the backend's set of active pools, so
/// two successful answers for the same name against an unchanged backend are
/// the same boolean — a read-only guard check has no side effects to observe.
pub proof fn lemma_exists_idempotent<E: ZpoolEngine>(
    backend: &E,
    name: Seq<char>,
    first: bool,
    second: bool,
)
    requires
        first == backend.pools().contains(name),
        second == backend.pools().contains(name),
    ensures
        first == second,
{
}

} // verus!
