use std::cell::Cell;

use libzetta::zpool::engine::exists_guard;
use libzetta::zpool::properties::diff_properties;
use libzetta::zpool::FailMode;
use libzetta::zpool::Health;
use libzetta::zpool::PropertyUpdate;
use libzetta::zpool::Topology;
use libzetta::zpool::Zpool;
use libzetta::zpool::ZpoolEngine;
use libzetta::zpool::ZpoolError;
use libzetta::zpool::ZpoolErrorKind;
use libzetta::zpool::ZpoolProperties;
use libzetta::zpool::ZpoolPropertiesWrite;
use libzetta::zpool::ZpoolResult;

struct MockBackend {
    pools: Vec<String>,
    current: ZpoolProperties,
    exists_calls: Cell<usize>,
    read_calls: Cell<usize>,
    status_calls: Cell<usize>,
    create_calls: usize,
    destroy_calls: usize,
    export_calls: usize,
    import_calls: usize,
    set_calls: Vec<PropertyUpdate>,
    fail_set_at: Option<usize>,
}

fn default_properties() -> ZpoolProperties {
    ZpoolProperties {
        auto_expand: false,
        auto_replace: false,
        cache_file: String::from("/etc/zfs/zpool.cache"),
        comment: None,
        delegation: true,
        fail_mode: FailMode::Wait,
    }
}

fn desired_matching(current: &ZpoolProperties) -> ZpoolPropertiesWrite {
    ZpoolPropertiesWrite {
        auto_expand: current.auto_expand,
        auto_replace: current.auto_replace,
        cache_file: current.cache_file.clone(),
        comment: current.comment.clone().unwrap_or_default(),
        delegation: current.delegation,
        fail_mode: current.fail_mode,
    }
}

fn mock_with(pools: Vec<&str>) -> MockBackend {
    MockBackend {
        pools: pools.into_iter().map(String::from).collect(),
        current: default_properties(),
        exists_calls: Cell::new(0),
        read_calls: Cell::new(0),
        status_calls: Cell::new(0),
        create_calls: 0,
        destroy_calls: 0,
        export_calls: 0,
        import_calls: 0,
        set_calls: Vec::new(),
        fail_set_at: None,
    }
}

impl ZpoolEngine for MockBackend {
    fn pool_exists(&self, name: &str) -> ZpoolResult<bool> {
        self.exists_calls.set(self.exists_calls.get() + 1);
        Ok(self.pools.iter().any(|p| p == name))
    }

    fn create_unchecked(
        &mut self,
        name: &str,
        _topology: &Topology,
        _props: Option<ZpoolPropertiesWrite>,
        _mount: Option<String>,
        _alt_root: Option<String>,
    ) -> ZpoolResult<()> {
        self.create_calls += 1;
        self.pools.push(String::from(name));
        Ok(())
    }

    fn destroy_unchecked(&mut self, name: &str, _force: bool) -> ZpoolResult<()> {
        self.destroy_calls += 1;
        self.pools.retain(|p| p != name);
        Ok(())
    }

    fn read_properties_unchecked(&self, _name: &str) -> ZpoolResult<ZpoolProperties> {
        self.read_calls.set(self.read_calls.get() + 1);
        Ok(self.current.clone())
    }

    fn set_unchecked(&mut self, _name: &str, update: &PropertyUpdate) -> ZpoolResult<()> {
        if self.fail_set_at == Some(self.set_calls.len()) {
            return Err(ZpoolError::Other(String::from("injected failure")));
        }
        self.set_calls.push(update.clone());
        Ok(())
    }

    fn export_unchecked(&mut self, name: &str, _force: bool) -> ZpoolResult<()> {
        self.export_calls += 1;
        self.pools.retain(|p| p != name);
        Ok(())
    }

    fn available(&self) -> ZpoolResult<Vec<Zpool>> {
        Ok(Vec::new())
    }

    fn available_in_dir(&self, _dir: &str) -> ZpoolResult<Vec<Zpool>> {
        Ok(Vec::new())
    }

    fn import_from_dir(&mut self, name: &str, _dir: &str) -> ZpoolResult<()> {
        self.import_calls += 1;
        self.pools.push(String::from(name));
        Ok(())
    }

    fn status_unchecked(&self, name: &str) -> ZpoolResult<Zpool> {
        self.status_calls.set(self.status_calls.get() + 1);
        Ok(Zpool {
            name: String::from(name),
            health: Health::Online,
        })
    }

    fn all(&self) -> ZpoolResult<Vec<Zpool>> {
        Ok(self
            .pools
            .iter()
            .map(|p| Zpool {
                name: p.clone(),
                health: Health::Online,
            })
            .collect())
    }
}

fn suitable_topology() -> Topology {
    Topology {
        suitable_for_create: true,
    }
}

#[test]
fn exists_guard_decides_exactly() {
    assert!(exists_guard(Ok(true)).is_ok());
    let err = exists_guard(Ok(false)).unwrap_err();
    assert_eq!(ZpoolErrorKind::PoolNotFound, err.kind());
    let probe_failure = ZpoolError::Other(String::from("probe failed"));
    let err = exists_guard(Err(probe_failure)).unwrap_err();
    assert_eq!(ZpoolErrorKind::Other, err.kind());
    if let ZpoolError::Other(message) = err {
        assert_eq!("probe failed", message);
    }
}

#[test]
fn exists_is_idempotent_on_unchanged_state() {
    let backend = mock_with(vec!["tank"]);
    let first = backend.pool_exists("tank").unwrap();
    let second = backend.pool_exists("tank").unwrap();
    assert_eq!(first, second);
    let first = backend.pool_exists("nope").unwrap();
    let second = backend.pool_exists("nope").unwrap();
    assert_eq!(first, second);
    assert_eq!(4, backend.exists_calls.get());
}

#[test]
fn destroy_missing_pool_short_circuits() {
    let mut backend = mock_with(vec![]);
    let err = backend.destroy("tank", false).unwrap_err();
    assert_eq!(ZpoolErrorKind::PoolNotFound, err.kind());
    assert_eq!(0, backend.destroy_calls);
}

#[test]
fn export_missing_pool_short_circuits() {
    let mut backend = mock_with(vec![]);
    let err = backend.export("tank", false).unwrap_err();
    assert_eq!(ZpoolErrorKind::PoolNotFound, err.kind());
    assert_eq!(0, backend.export_calls);
}

#[test]
fn read_properties_missing_pool_short_circuits() {
    let backend = mock_with(vec![]);
    let err = backend.read_properties("tank").unwrap_err();
    assert_eq!(ZpoolErrorKind::PoolNotFound, err.kind());
    assert_eq!(0, backend.read_calls.get());
}

#[test]
fn status_missing_pool_short_circuits() {
    let backend = mock_with(vec![]);
    let err = backend.status("tank").unwrap_err();
    assert_eq!(ZpoolErrorKind::PoolNotFound, err.kind());
    assert_eq!(0, backend.status_calls.get());
}

#[test]
fn update_properties_missing_pool_short_circuits() {
    let mut backend = mock_with(vec![]);
    let desired = desired_matching(&default_properties());
    let err = backend.update_properties("tank", desired).unwrap_err();
    assert_eq!(ZpoolErrorKind::PoolNotFound, err.kind());
    assert_eq!(0, backend.read_calls.get());
    assert!(backend.set_calls.is_empty());
}

#[test]
fn create_invalid_topology_short_circuits() {
    let mut backend = mock_with(vec![]);
    let topology = Topology {
        suitable_for_create: false,
    };
    let err = backend
        .create("tank", &topology, None, None, None)
        .unwrap_err();
    assert_eq!(ZpoolErrorKind::InvalidTopology, err.kind());
    assert_eq!(0, backend.create_calls);
}

#[test]
fn create_suitable_topology_delegates() {
    let mut backend = mock_with(vec![]);
    let topology = suitable_topology();
    backend
        .create("tank", &topology, None, None, None)
        .unwrap();
    assert_eq!(1, backend.create_calls);
    assert!(backend.pool_exists("tank").unwrap());
}

#[test]
fn destroy_existing_pool_delegates() {
    let mut backend = mock_with(vec!["tank"]);
    backend.destroy("tank", true).unwrap();
    assert_eq!(1, backend.destroy_calls);
    assert!(!backend.pool_exists("tank").unwrap());
}

#[test]
fn status_existing_pool_reports_it() {
    let backend = mock_with(vec!["tank"]);
    let zpool = backend.status("tank").unwrap();
    assert_eq!("tank", zpool.name);
    assert_eq!(1, backend.status_calls.get());
}

#[test]
fn update_properties_equal_issues_no_set_calls() {
    let mut backend = mock_with(vec!["tank"]);
    let desired = desired_matching(&backend.current);
    let result = backend.update_properties("tank", desired).unwrap();
    assert!(backend.set_calls.is_empty());
    assert_eq!(default_properties(), result);
}

#[test]
fn update_properties_sets_exactly_the_differing_attributes() {
    let mut backend = mock_with(vec!["tank"]);
    let mut desired = desired_matching(&backend.current);
    desired.auto_expand = !backend.current.auto_expand;
    desired.fail_mode = FailMode::Continue;
    backend.update_properties("tank", desired).unwrap();
    assert_eq!(
        vec![
            PropertyUpdate::AutoExpand(true),
            PropertyUpdate::FailMode(FailMode::Continue),
        ],
        backend.set_calls
    );
}

#[test]
fn update_properties_order_is_fixed() {
    let mut backend = mock_with(vec!["tank"]);
    let desired = ZpoolPropertiesWrite {
        auto_expand: true,
        auto_replace: true,
        cache_file: String::from("none"),
        comment: String::from("hello"),
        delegation: false,
        fail_mode: FailMode::Panic,
    };
    backend.update_properties("tank", desired).unwrap();
    assert_eq!(
        vec![
            PropertyUpdate::AutoExpand(true),
            PropertyUpdate::AutoReplace(true),
            PropertyUpdate::CacheFile(String::from("none")),
            PropertyUpdate::Comment(String::from("hello")),
            PropertyUpdate::Delegation(false),
            PropertyUpdate::FailMode(FailMode::Panic),
        ],
        backend.set_calls
    );
}

#[test]
fn update_properties_empty_comment_means_absent() {
    // The pool has no comment and the desired comment is empty: no set call.
    let mut backend = mock_with(vec!["tank"]);
    let desired = desired_matching(&backend.current);
    backend.update_properties("tank", desired).unwrap();
    assert!(backend.set_calls.is_empty());

    // The pool has a comment and the desired comment is empty: one clearing
    // set call.
    let mut backend = mock_with(vec!["tank"]);
    backend.current.comment = Some(String::from("old"));
    let desired = desired_matching(&default_properties());
    backend.update_properties("tank", desired).unwrap();
    assert_eq!(
        vec![PropertyUpdate::Comment(String::new())],
        backend.set_calls
    );

    // The pool has no comment and the desired comment is non-empty.
    let mut backend = mock_with(vec!["tank"]);
    let mut desired = desired_matching(&backend.current);
    desired.comment = String::from("new");
    backend.update_properties("tank", desired).unwrap();
    assert_eq!(
        vec![PropertyUpdate::Comment(String::from("new"))],
        backend.set_calls
    );

    // The comments agree: no set call.
    let mut backend = mock_with(vec!["tank"]);
    backend.current.comment = Some(String::from("same"));
    let mut desired = desired_matching(&default_properties());
    desired.comment = String::from("same");
    backend.update_properties("tank", desired).unwrap();
    assert!(backend.set_calls.is_empty());
}

#[test]
fn update_properties_aborts_after_first_failure() {
    let mut backend = mock_with(vec!["tank"]);
    backend.fail_set_at = Some(1);
    let desired = ZpoolPropertiesWrite {
        auto_expand: true,
        auto_replace: true,
        cache_file: String::from("none"),
        comment: String::new(),
        delegation: true,
        fail_mode: FailMode::Wait,
    };
    let err = backend.update_properties("tank", desired).unwrap_err();
    assert_eq!(ZpoolErrorKind::Other, err.kind());
    // The first set call went through; the failing second one and everything
    // after it were never recorded.
    assert_eq!(vec![PropertyUpdate::AutoExpand(true)], backend.set_calls);
}

#[test]
fn diff_properties_counts_differences() {
    let current = default_properties();
    let desired = desired_matching(&current);
    assert!(diff_properties(&current, &desired).is_empty());

    let mut desired = desired_matching(&current);
    desired.auto_replace = true;
    desired.delegation = !current.delegation;
    let plan = diff_properties(&current, &desired);
    assert_eq!(2, plan.len());
    assert_eq!(
        vec![
            PropertyUpdate::AutoReplace(true),
            PropertyUpdate::Delegation(false),
        ],
        plan
    );
}

#[test]
fn import_and_all_report_pools() {
    let mut backend = mock_with(vec![]);
    backend.import_from_dir("tank", "/vdevs").unwrap();
    assert_eq!(1, backend.import_calls);
    let all = backend.all().unwrap();
    assert_eq!(1, all.len());
    assert_eq!("tank", all[0].name);
}
