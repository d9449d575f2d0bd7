use install_core::id::{PackageId, Version};
use install_core::model::{
    Database, Dependency, DependencyConfigError, MainStatus, Manifest, Package, PackageDataEntry,
    Status,
};
use install_core::progress::InstallProgress;
use install_core::reconcile::sweep::{finish_sweep, plan_sweep, sweep_action, SweepAction};
use install_core::reconcile::{
    dependency_checks, dependents, find_edge, rebuild_dependents, reset_main_status,
    write_reports, DependencyReport,
};

fn id(name: &str) -> PackageId {
    PackageId::new(name).unwrap()
}

fn manifest(name: &str, volumes: &[&str]) -> Manifest {
    Manifest {
        id: id(name),
        version: Version::new(0, 3, 1),
        icon_type: "png".to_string(),
        volumes: volumes.iter().map(|v| v.to_string()).collect(),
    }
}

fn edge(name: &str, range: &str) -> Dependency {
    Dependency { id: id(name), range: range.to_string() }
}

fn installed(name: &str, main: MainStatus, deps: Vec<Dependency>, dependents: Vec<Dependency>) -> Package {
    Package {
        id: id(name),
        entry: PackageDataEntry::Installed {
            manifest: manifest(name, &["main"]),
            ip: 1,
            status: Status { main, dependency_config_errors: Vec::new() },
            current_dependencies: deps,
            current_dependents: dependents,
        },
    }
}

fn installing(name: &str) -> Package {
    Package {
        id: id(name),
        entry: PackageDataEntry::Installing { install_progress: InstallProgress::new(None) },
    }
}

fn restoring(name: &str) -> Package {
    Package {
        id: id(name),
        entry: PackageDataEntry::Restoring { install_progress: InstallProgress::new(None) },
    }
}

fn updating(name: &str) -> Package {
    Package {
        id: id(name),
        entry: PackageDataEntry::Updating {
            manifest: manifest(name, &[]),
            install_progress: InstallProgress::new(Some(9)),
        },
    }
}

fn removing(name: &str, dependents: Vec<Dependency>) -> Package {
    Package {
        id: id(name),
        entry: PackageDataEntry::Removing { manifest: manifest(name, &[]), current_dependents: dependents },
    }
}

fn database(packages: Vec<Package>) -> Database {
    Database { ntp_synced: true, package_data: packages, broken_packages: vec![id("old")] }
}

fn pairs(edges: &[Dependency]) -> Vec<(String, String)> {
    edges.iter().map(|e| (e.id.as_str().to_string(), e.range.clone())).collect()
}

fn dependents_in(db: &Database, name: &str) -> Vec<(String, String)> {
    let p = db.package_data.iter().find(|p| p.id.as_str() == name).unwrap();
    match &p.entry {
        PackageDataEntry::Installed { current_dependents, .. } => pairs(current_dependents),
        PackageDataEntry::Removing { current_dependents, .. } => pairs(current_dependents),
        other => panic!("{:?} has no dependents", other),
    }
}

fn pair(a: &str, b: &str) -> (String, String) {
    (a.to_string(), b.to_string())
}

/// Everything that a database holds, as text.
fn dump(db: &Database) -> String {
    format!("{:?}", db)
}

fn sample() -> Database {
    database(vec![
        installed(
            "lnd",
            MainStatus::Running,
            vec![edge("bitcoind", ">=0.21"), edge("tor", "*")],
            vec![edge("ghost", "=1")],
        ),
        installed("bitcoind", MainStatus::Stopped, vec![], vec![]),
        installing("hello"),
        installed("rtl", MainStatus::Stopping, vec![edge("lnd", ">=0.13"), edge("bitcoind", "*")], vec![]),
        removing("tor", vec![edge("stale", "*")]),
        updating("wallet"),
        restoring("backup"),
    ])
}

#[test]
fn edges_are_found_by_their_target() {
    let edges = vec![edge("a", "1"), edge("b", "2"), edge("a", "3")];
    assert_eq!(find_edge(&edges, &id("a")), Some(0));
    assert_eq!(find_edge(&edges, &id("b")), Some(1));
    assert_eq!(find_edge(&edges, &id("c")), None);
    assert_eq!(find_edge(&Vec::new(), &id("a")), None);
}

#[test]
fn dependents_are_collected_from_installed_packages() {
    let db = sample();
    assert_eq!(
        pairs(&dependents(&db.package_data, &id("bitcoind"))),
        [pair("lnd", ">=0.21"), pair("rtl", "*")]
    );
    assert_eq!(pairs(&dependents(&db.package_data, &id("lnd"))), [pair("rtl", ">=0.13")]);
    assert_eq!(pairs(&dependents(&db.package_data, &id("tor"))), [pair("lnd", "*")]);
    assert!(dependents(&db.package_data, &id("rtl")).is_empty());
    assert!(dependents(&db.package_data, &id("nowhere")).is_empty());
}

#[test]
fn the_edges_back_are_rebuilt_from_the_edges_forward() {
    let mut db = sample();
    rebuild_dependents(&mut db);
    assert_eq!(dependents_in(&db, "bitcoind"), [pair("lnd", ">=0.21"), pair("rtl", "*")]);
    // What stood there before is gone.
    assert_eq!(dependents_in(&db, "lnd"), [pair("rtl", ">=0.13")]);
    assert!(dependents_in(&db, "rtl").is_empty());
    // A package that is being removed keeps its edges back too.
    assert_eq!(dependents_in(&db, "tor"), [pair("lnd", "*")]);
    // Nothing else has changed.
    let mut expected = sample();
    for p in expected.package_data.iter_mut() {
        let new = match p.id.as_str() {
            "bitcoind" => vec![edge("lnd", ">=0.21"), edge("rtl", "*")],
            "lnd" => vec![edge("rtl", ">=0.13")],
            "tor" => vec![edge("lnd", "*")],
            _ => vec![],
        };
        match &mut p.entry {
            PackageDataEntry::Installed { current_dependents, .. } => *current_dependents = new,
            PackageDataEntry::Removing { current_dependents, .. } => *current_dependents = new,
            _ => {}
        }
    }
    assert_eq!(dump(&db), dump(&expected));
    let once = dump(&db);
    rebuild_dependents(&mut db);
    assert_eq!(dump(&db), once);
}

#[test]
fn the_sweep_is_planned_by_the_state_of_each_package() {
    let db = sample();
    let plan = plan_sweep(&db, "/embassy-data");
    assert_eq!(plan.len(), 7);
    let text: Vec<String> = plan
        .iter()
        .map(|a| match a {
            SweepAction::CleanupFailed { id } => format!("cleanup {}", id.as_str()),
            SweepAction::Uninstall { id } => format!("uninstall {}", id.as_str()),
            SweepAction::PurgeTmp { id, paths } => format!("purge {} {:?}", id.as_str(), paths),
        })
        .collect();
    assert_eq!(
        text,
        [
            "purge lnd [\"/embassy-data/package-data/volumes/lnd/data/main.tmp\"]",
            "purge bitcoind [\"/embassy-data/package-data/volumes/bitcoind/data/main.tmp\"]",
            "cleanup hello",
            "purge rtl [\"/embassy-data/package-data/volumes/rtl/data/main.tmp\"]",
            "uninstall tor",
            "cleanup wallet",
            "cleanup backup",
        ]
    );
}

#[test]
fn every_volume_has_its_temporary_sibling_purged() {
    let p = Package {
        id: id("nextcloud"),
        entry: PackageDataEntry::Installed {
            manifest: manifest("nextcloud", &["main", "db", "cert"]),
            ip: 1,
            status: Status { main: MainStatus::Stopped, dependency_config_errors: Vec::new() },
            current_dependencies: Vec::new(),
            current_dependents: Vec::new(),
        },
    };
    match sweep_action(&p, "/data") {
        SweepAction::PurgeTmp { id, paths } => {
            assert_eq!(id.as_str(), "nextcloud");
            assert_eq!(
                paths,
                [
                    "/data/package-data/volumes/nextcloud/data/main.tmp",
                    "/data/package-data/volumes/nextcloud/data/db.tmp",
                    "/data/package-data/volumes/nextcloud/data/cert.tmp",
                ]
            );
        }
        other => panic!("{:?}", other),
    }
    let none = Package { id: id("x"), entry: PackageDataEntry::installed(manifest("x", &[]), 0) };
    match sweep_action(&none, "/data") {
        SweepAction::PurgeTmp { paths, .. } => assert!(paths.is_empty()),
        other => panic!("{:?}", other),
    }
}

#[test]
fn cleaned_packages_leave_the_database_and_failed_ones_stay() {
    let names = |db: &Database| -> Vec<String> {
        db.package_data.iter().map(|p| p.id.as_str().to_string()).collect()
    };
    let mut db = sample();
    finish_sweep(&mut db, &Vec::new());
    assert_eq!(names(&db), ["lnd", "bitcoind", "rtl"]);
    let mut db = sample();
    finish_sweep(&mut db, &vec![id("tor"), id("backup"), id("lnd"), id("nowhere")]);
    assert_eq!(names(&db), ["lnd", "bitcoind", "rtl", "tor", "backup"]);
    assert!(matches!(db.package_data[3].entry, PackageDataEntry::Removing { .. }));
    assert!(matches!(db.package_data[4].entry, PackageDataEntry::Restoring { .. }));
    assert_eq!(db.broken_packages.len(), 1);
    let mut db = database(vec![installing("a"), updating("b"), restoring("c"), removing("d", vec![])]);
    finish_sweep(&mut db, &Vec::new());
    assert!(db.package_data.is_empty());
    let mut db = database(Vec::new());
    finish_sweep(&mut db, &vec![id("a")]);
    assert!(db.package_data.is_empty());
}

#[test]
fn installed_packages_begin_anew_after_a_boot() {
    let mut db = sample();
    reset_main_status(&mut db);
    let status: Vec<Option<MainStatus>> = db
        .package_data
        .iter()
        .map(|p| match &p.entry {
            PackageDataEntry::Installed { status, .. } => Some(status.main),
            _ => None,
        })
        .collect();
    assert_eq!(
        status,
        [
            Some(MainStatus::Starting),
            Some(MainStatus::Stopped),
            None,
            Some(MainStatus::Stopped),
            None,
            None,
            None,
        ]
    );
    let once = dump(&db);
    reset_main_status(&mut db);
    assert_eq!(dump(&db), once);
}

#[test]
fn the_dependencies_of_installed_packages_are_checked() {
    let db = sample();
    let ids: Vec<String> =
        dependency_checks(&db).iter().map(|i| i.as_str().to_string()).collect();
    assert_eq!(ids, ["lnd", "bitcoind", "rtl"]);
    assert!(dependency_checks(&database(vec![installing("a")])).is_empty());
}

fn report(name: &str, errors: &[(&str, &str)]) -> DependencyReport {
    DependencyReport {
        id: id(name),
        errors: errors
            .iter()
            .map(|(d, e)| DependencyConfigError { dependency: id(d), error: e.to_string() })
            .collect(),
    }
}

fn errors_in(db: &Database, name: &str) -> Vec<(String, String)> {
    let p = db.package_data.iter().find(|p| p.id.as_str() == name).unwrap();
    match &p.entry {
        PackageDataEntry::Installed { status, .. } => status
            .dependency_config_errors
            .iter()
            .map(|e| (e.dependency.as_str().to_string(), e.error.clone()))
            .collect(),
        other => panic!("{:?}", other),
    }
}

#[test]
fn reports_are_written_into_the_status_of_installed_packages() {
    let mut db = sample();
    let reports = vec![
        report("lnd", &[("bitcoind", "zmq is off"), ("tor", "not running")]),
        report("hello", &[("x", "ignored")]),
        report("rtl", &[]),
        report("lnd", &[("bitcoind", "a later report is not read")]),
        report("nowhere", &[("x", "y")]),
    ];
    write_reports(&mut db, &reports);
    assert_eq!(
        errors_in(&db, "lnd"),
        [pair("bitcoind", "zmq is off"), pair("tor", "not running")]
    );
    assert!(errors_in(&db, "rtl").is_empty());
    assert!(errors_in(&db, "bitcoind").is_empty());
    assert!(matches!(db.package_data[2].entry, PackageDataEntry::Installing { .. }));
    assert_eq!(db.package_data.len(), 7);
    // A report replaces what stood there.
    write_reports(&mut db, &vec![report("lnd", &[])]);
    assert!(errors_in(&db, "lnd").is_empty());
}

fn reconcile(db: &mut Database, failed: &[&str], reports: &Vec<DependencyReport>) {
    rebuild_dependents(db);
    let failed: Vec<PackageId> = failed.iter().map(|f| id(f)).collect();
    finish_sweep(db, &failed);
    reset_main_status(db);
    write_reports(db, reports);
}

#[test]
fn reconciling_twice_is_reconciling_once() {
    for failed in [&[][..], &["tor"][..], &["hello", "wallet", "backup", "tor"][..]] {
        let reports = vec![report("lnd", &[("bitcoind", "zmq is off")]), report("rtl", &[])];
        let mut db = sample();
        reconcile(&mut db, failed, &reports);
        let once = dump(&db);
        reconcile(&mut db, failed, &reports);
        assert_eq!(dump(&db), once);
        reconcile(&mut db, failed, &reports);
        assert_eq!(dump(&db), once);
    }
}

#[test]
fn reconciler_resume() {
    // A boot with an entry that was being installed: the sweep cleans it up,
    // the entry leaves the database, and the broken packages stay as they are.
    let mut db = database(vec![installed("bitcoind", MainStatus::Running, vec![], vec![]), installing("hello")]);
    let broken_before = format!("{:?}", db.broken_packages);
    rebuild_dependents(&mut db);
    let plan = plan_sweep(&db, "/embassy-data");
    match &plan[1] {
        SweepAction::CleanupFailed { id } => assert_eq!(id.as_str(), "hello"),
        other => panic!("{:?}", other),
    }
    finish_sweep(&mut db, &Vec::new());
    reset_main_status(&mut db);
    assert_eq!(db.package_data.len(), 1);
    assert_eq!(db.package_data[0].id.as_str(), "bitcoind");
    assert!(!db.has_entry(&id("hello")));
    assert_eq!(format!("{:?}", db.broken_packages), broken_before);
}

#[test]
fn a_failed_install_is_cleaned_up_at_the_next_boot() {
    let mut db = database(vec![installing("hello")]);
    db.mark_broken(&id("hello"));
    reconcile(&mut db, &[], &Vec::new());
    assert!(db.package_data.is_empty());
    assert!(db.is_broken(&id("hello")));
}

#[test]
fn an_install_between_two_reconciliations_changes_no_other_package() {
    let reports = vec![report("lnd", &[("bitcoind", "zmq is off")])];
    let mut db = sample();
    reconcile(&mut db, &["tor"], &reports);
    let first: Vec<String> = db.package_data.iter().map(|p| format!("{:?}", p)).collect();
    db.put_entry(id("hello"), PackageDataEntry::Installing { install_progress: InstallProgress::new(None) });
    db.commit_installed(id("hello"), PackageDataEntry::installed(manifest("hello", &["main"]), 9));
    let mut later = vec![report("hello", &[])];
    later.extend(vec![report("lnd", &[("bitcoind", "zmq is off")])]);
    reconcile(&mut db, &["tor"], &later);
    let second: Vec<String> = db
        .package_data
        .iter()
        .filter(|p| p.id.as_str() != "hello")
        .map(|p| format!("{:?}", p))
        .collect();
    assert_eq!(second, first);
    let hello = db.package_data.iter().find(|p| p.id.as_str() == "hello").unwrap();
    assert!(matches!(hello.entry, PackageDataEntry::Installed { .. }));
    assert_eq!(db.broken_packages.len(), 1);
}
