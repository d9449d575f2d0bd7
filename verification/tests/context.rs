use install_core::context::config::{
    ends_with, proxy_for, ram_from_mib, tor_proxy_url, OsPartitionInfo, RpcContextConfig,
    DEFAULT_DNS_BIND, DEFAULT_TOR_CONTROL, DEFAULT_TOR_SOCKS,
};
use install_core::context::continuations::{
    clean, find, insert, take, ContinuationKind, RequestGuid, RpcContinuation, Suspended,
};
use install_core::context::init::{ContextInit, InitAction, InitEvent, InitPhase};
use install_core::context::rpc::{
    Hardware, LshwDevice, ReconcileAction, ReconcileEvent, ReconcilePhase, RpcContext,
    RpcContextSeed,
};
use install_core::error::{Error, ErrorKind};
use install_core::id::{PackageId, Version};
use install_core::model::{
    Database, Dependency, MainStatus, Manifest, Package, PackageDataEntry, Status,
};
use install_core::progress::InstallProgress;
use install_core::reconcile::sweep::SweepAction;
use install_core::reconcile::DependencyReport;

fn config() -> RpcContextConfig {
    RpcContextConfig {
        wifi_interface: None,
        ethernet_interface: "eth0".to_string(),
        os_partitions: OsPartitionInfo { boot: "/dev/sda1".to_string(), root: "/dev/sda2".to_string() },
        migration_batch_rows: None,
        migration_prefetch_rows: None,
        bind_rpc: None,
        tor_control: None,
        tor_socks: None,
        dns_bind: None,
        revision_cache_size: None,
        datadir: None,
        log_server: None,
    }
}

fn hardware() -> Hardware {
    Hardware {
        devices: vec![LshwDevice { class: "processor".to_string(), product: "cpu".to_string() }],
        ram: 8 << 30,
    }
}

fn guid(text: &str) -> RequestGuid {
    RequestGuid { guid: text.to_string() }
}

fn cont(kind: ContinuationKind, handler: u64, expires_ms: u64) -> RpcContinuation {
    RpcContinuation { kind, handler, expires_ms }
}

fn context(db: Database) -> RpcContext {
    RpcContext(RpcContextSeed::new(config(), "disk-1".to_string(), db, hardware(), 5))
}

fn held(ctx: &RpcContext) -> Vec<(String, u64)> {
    ctx.0
        .rpc_stream_continuations
        .iter()
        .map(|s| (s.guid.guid.clone(), s.continuation.handler))
        .collect()
}

fn at(name: &str, handler: u64) -> (String, u64) {
    (name.to_string(), handler)
}

#[test]
fn keys_that_are_left_out_stand_for_their_defaults() {
    let c = config();
    assert_eq!(c.datadir(), "/embassy-data");
    assert_eq!(c.tor_socks(), "127.0.0.1:9050");
    assert_eq!(c.tor_control(), "127.0.0.1:9051");
    assert_eq!(c.dns_bind(), ["127.0.0.1:53"]);
    assert_eq!(c.db_path(), "/embassy-data/main/embassy.db");
    assert_eq!(
        (DEFAULT_TOR_SOCKS, DEFAULT_TOR_CONTROL, DEFAULT_DNS_BIND),
        ("127.0.0.1:9050", "127.0.0.1:9051", "127.0.0.1:53")
    );
}

#[test]
fn configured_keys_are_used() {
    let mut c = config();
    c.datadir = Some("/mnt/data".to_string());
    c.tor_socks = Some("10.0.0.1:9150".to_string());
    c.tor_control = Some("[::1]:9151".to_string());
    c.dns_bind = Some(vec!["0.0.0.0:53".to_string(), "[::]:53".to_string()]);
    assert_eq!(c.datadir(), "/mnt/data");
    assert_eq!(c.tor_socks(), "10.0.0.1:9150");
    assert_eq!(c.tor_control(), "[::1]:9151");
    assert_eq!(c.dns_bind(), ["0.0.0.0:53", "[::]:53"]);
    assert_eq!(c.db_path(), "/mnt/data/main/embassy.db");
    c.dns_bind = Some(Vec::new());
    assert!(c.dns_bind().is_empty());
}

#[test]
fn the_stored_database_is_used_and_a_missing_one_is_created() {
    let c = config();
    let (db, created) = c.db(Ok(None)).unwrap();
    assert!(created);
    assert!(db.package_data.is_empty() && db.broken_packages.is_empty() && !db.ntp_synced);
    let mut stored = Database::init();
    stored.ntp_synced = true;
    stored.mark_broken(&PackageId::new("x").unwrap());
    let (db, created) = c.db(Ok(Some(stored))).unwrap();
    assert!(!created);
    assert!(db.ntp_synced);
    assert_eq!(db.broken_packages.len(), 1);
}

#[test]
fn a_store_that_cannot_be_opened_is_a_failure_that_names_its_path() {
    let e = config()
        .db(Err(Error { kind: ErrorKind::Io, message: "permission denied".to_string() }))
        .unwrap_err();
    assert_eq!(e.kind, ErrorKind::Filesystem);
    assert_eq!(e.message, "/embassy-data/main/embassy.db: permission denied");
    let mut c = config();
    c.datadir = Some("/srv".to_string());
    let e = c.db(Err(Error { kind: ErrorKind::Database, message: String::new() })).unwrap_err();
    assert_eq!(e.kind, ErrorKind::Filesystem);
    assert_eq!(e.message, "/srv/main/embassy.db: ");
}

#[test]
fn onion_hosts_go_through_the_tor_proxy() {
    let url = tor_proxy_url("127.0.0.1:9050");
    assert_eq!(url, "socks5h://127.0.0.1:9050");
    assert_eq!(proxy_for(Some("abcdefgh.onion"), &url), Some(url.clone()));
    assert_eq!(proxy_for(Some(".onion"), &url), Some(url.clone()));
    assert_eq!(proxy_for(Some("a.b.onion"), &url), Some(url.clone()));
    assert_eq!(proxy_for(Some("example.com"), &url), None);
    assert_eq!(proxy_for(Some("onion"), &url), None);
    assert_eq!(proxy_for(Some("x.onion.com"), &url), None);
    assert_eq!(proxy_for(Some("x.ONION"), &url), None);
    assert_eq!(proxy_for(Some("x.onion."), &url), None);
    assert_eq!(proxy_for(Some(""), &url), None);
    assert_eq!(proxy_for(None, &url), None);
}

#[test]
fn endings_are_compared_character_by_character() {
    assert!(ends_with("hello", "llo"));
    assert!(ends_with("hello", ""));
    assert!(ends_with("hello", "hello"));
    assert!(ends_with("", ""));
    assert!(!ends_with("hello", "xhello"));
    assert!(!ends_with("", "a"));
    assert!(!ends_with("hello", "hell"));
    assert!(ends_with("grüße", "üße"));
    assert!(!ends_with("grüße", "uße"));
    assert!(ends_with("日本語", "語"));
}

#[test]
fn memory_is_counted_in_bytes() {
    assert_eq!(ram_from_mib(0), Some(0));
    assert_eq!(ram_from_mib(1), Some(1_048_576));
    assert_eq!(ram_from_mib(8192), Some(8_589_934_592));
    let largest = u64::MAX >> 20;
    assert_eq!(ram_from_mib(largest), Some(largest * 1_048_576));
    assert_eq!(ram_from_mib(largest + 1), None);
    assert_eq!(ram_from_mib(u64::MAX), None);
}

#[test]
fn a_context_comes_up_open_and_idle() {
    let ctx = context(Database::init());
    assert!(!ctx.is_closed());
    let seed = ctx.deref();
    assert_eq!(seed.datadir, "/embassy-data");
    assert_eq!(seed.tor_socks, "127.0.0.1:9050");
    assert_eq!(seed.disk_guid, "disk-1");
    assert_eq!(seed.ethernet_interface, "eth0");
    assert_eq!(seed.wifi_interface, None);
    assert_eq!(seed.reconciliation, ReconcilePhase::Idle);
    assert!(seed.rpc_stream_continuations.is_empty());
    assert_eq!(seed.hardware.ram, 8 << 30);
    assert_eq!(seed.hardware.devices.len(), 1);
    assert_eq!(seed.start_time_ms, 5);
    assert_eq!(seed.os_partitions.root, "/dev/sda2");
}

#[test]
fn a_context_is_closed_by_its_shutdown() {
    let mut ctx = context(Database::init());
    ctx.add_continuation(guid("a"), cont(ContinuationKind::Rest, 1, 100), 0);
    assert!(ctx.shutdown(Ok(())).is_ok());
    assert!(ctx.is_closed());
    assert_eq!(ctx.0.rpc_stream_continuations.len(), 1);
    assert_eq!(ctx.0.datadir, "/embassy-data");
}

#[test]
fn a_context_stays_open_when_the_managers_cannot_be_emptied() {
    let mut ctx = context(Database::init());
    ctx.add_continuation(guid("a"), cont(ContinuationKind::Rest, 1, 100), 0);
    let e = ctx
        .shutdown(Err(Error { kind: ErrorKind::ContainerRuntime, message: "busy".to_string() }))
        .unwrap_err();
    assert_eq!(e.kind, ErrorKind::ContainerRuntime);
    assert_eq!(e.message, "busy");
    assert!(!ctx.is_closed());
    assert_eq!(ctx.0.rpc_stream_continuations.len(), 1);
    assert_eq!(ctx.get_continuation_handler(&guid("a"), 5), Some(1));
    assert!(ctx.shutdown(Ok(())).is_ok());
    assert!(ctx.is_closed());
}

#[test]
fn handlers_are_kept_until_their_time_runs_out() {
    let c = cont(ContinuationKind::Rest, 7, 1_000);
    assert!(!c.is_timed_out(0));
    assert!(!c.is_timed_out(999));
    assert!(c.is_timed_out(1_000));
    assert!(c.is_timed_out(u64::MAX));
    assert_eq!(c.into_handler(999), Some(7));
    assert_eq!(c.into_handler(1_000), None);
}

#[test]
fn stale_handlers_are_dropped_when_one_is_added() {
    let mut ctx = context(Database::init());
    ctx.add_continuation(guid("a"), cont(ContinuationKind::Rest, 1, 100), 0);
    ctx.add_continuation(guid("b"), cont(ContinuationKind::WebSocket, 2, 300), 0);
    ctx.add_continuation(guid("c"), cont(ContinuationKind::Rest, 3, 200), 0);
    assert_eq!(held(&ctx), [at("a", 1), at("b", 2), at("c", 3)]);
    ctx.add_continuation(guid("d"), cont(ContinuationKind::Rest, 4, 900), 200);
    assert_eq!(held(&ctx), [at("b", 2), at("d", 4)]);
    // One that is stale when it is added is kept until the next cleaning.
    ctx.add_continuation(guid("e"), cont(ContinuationKind::Rest, 5, 10), 250);
    assert_eq!(held(&ctx), [at("b", 2), at("d", 4), at("e", 5)]);
    ctx.clean_continuations(299);
    assert_eq!(held(&ctx), [at("b", 2), at("d", 4)]);
    ctx.clean_continuations(300);
    assert_eq!(held(&ctx), [at("d", 4)]);
    ctx.clean_continuations(u64::MAX);
    assert!(held(&ctx).is_empty());
}

#[test]
fn a_handler_added_under_a_known_identifier_replaces_the_old_one() {
    let mut ctx = context(Database::init());
    ctx.add_continuation(guid("a"), cont(ContinuationKind::Rest, 1, 100), 0);
    ctx.add_continuation(guid("b"), cont(ContinuationKind::Rest, 2, 100), 0);
    ctx.add_continuation(guid("a"), cont(ContinuationKind::WebSocket, 3, 100), 0);
    assert_eq!(held(&ctx), [at("a", 3), at("b", 2)]);
    assert_eq!(ctx.0.rpc_stream_continuations[0].continuation.kind, ContinuationKind::WebSocket);
}

#[test]
fn a_handler_is_taken_once() {
    let mut ctx = context(Database::init());
    ctx.add_continuation(guid("a"), cont(ContinuationKind::Rest, 1, 100), 0);
    ctx.add_continuation(guid("b"), cont(ContinuationKind::WebSocket, 2, 100), 0);
    assert_eq!(ctx.get_continuation_handler(&guid("a"), 50), Some(1));
    assert_eq!(held(&ctx), [at("b", 2)]);
    assert_eq!(ctx.get_continuation_handler(&guid("a"), 50), None);
    assert_eq!(ctx.get_continuation_handler(&guid("zzz"), 50), None);
    assert_eq!(held(&ctx), [at("b", 2)]);
    // A handler whose time has run out is taken out, but not given up.
    assert_eq!(ctx.get_continuation_handler(&guid("b"), 100), None);
    assert!(held(&ctx).is_empty());
}

#[test]
fn handlers_are_taken_by_kind() {
    let mut ctx = context(Database::init());
    ctx.add_continuation(guid("ws"), cont(ContinuationKind::WebSocket, 1, 100), 0);
    ctx.add_continuation(guid("rest"), cont(ContinuationKind::Rest, 2, 100), 0);
    assert_eq!(ctx.get_rest_continuation_handler(&guid("ws"), 10), None);
    assert_eq!(ctx.get_ws_continuation_handler(&guid("rest"), 10), None);
    assert_eq!(held(&ctx), [at("ws", 1), at("rest", 2)]);
    assert_eq!(ctx.get_ws_continuation_handler(&guid("ws"), 10), Some(1));
    assert_eq!(held(&ctx), [at("rest", 2)]);
    assert_eq!(ctx.get_rest_continuation_handler(&guid("rest"), 100), None);
    assert!(held(&ctx).is_empty());
    assert_eq!(ctx.get_ws_continuation_handler(&guid("ws"), 10), None);
    assert_eq!(ctx.get_rest_continuation_handler(&guid("none"), 10), None);
}

#[test]
fn the_list_of_handlers_can_be_worked_on_directly() {
    let mut list: Vec<Suspended> = Vec::new();
    insert(&mut list, guid("a"), cont(ContinuationKind::Rest, 1, 10));
    insert(&mut list, guid("b"), cont(ContinuationKind::Rest, 2, 20));
    insert(&mut list, guid("c"), cont(ContinuationKind::Rest, 3, 10));
    assert_eq!(find(&list, &guid("b")), Some(1));
    assert_eq!(find(&list, &guid("x")), None);
    clean(&mut list, 10);
    assert_eq!(list.len(), 1);
    assert_eq!(list[0].guid.guid, "b");
    assert_eq!(take(&mut list, &guid("x")), None);
    assert_eq!(take(&mut list, &guid("b")), Some(cont(ContinuationKind::Rest, 2, 20)));
    assert!(list.is_empty());
}

fn id(name: &str) -> PackageId {
    PackageId::new(name).unwrap()
}

fn installed(name: &str, main: MainStatus, deps: Vec<Dependency>) -> Package {
    Package {
        id: id(name),
        entry: PackageDataEntry::Installed {
            manifest: Manifest {
                id: id(name),
                version: Version::new(1, 0, 0),
                icon_type: "png".to_string(),
                volumes: vec!["main".to_string()],
            },
            ip: 1,
            status: Status { main, dependency_config_errors: Vec::new() },
            current_dependencies: deps,
            current_dependents: Vec::new(),
        },
    }
}

fn crashed_database() -> Database {
    Database {
        ntp_synced: true,
        package_data: vec![
            installed(
                "lnd",
                MainStatus::Running,
                vec![Dependency { id: id("bitcoind"), range: "*".to_string() }],
            ),
            Package {
                id: id("hello"),
                entry: PackageDataEntry::Installing { install_progress: InstallProgress::new(None) },
            },
            installed("bitcoind", MainStatus::Stopping, Vec::new()),
        ],
        broken_packages: vec![id("hello")],
    }
}

#[test]
fn a_reconciliation_step_by_step() {
    let mut ctx = context(crashed_database());
    assert!(matches!(ctx.cleanup_and_initialize(ReconcileEvent::Begin), ReconcileAction::Save));
    assert_eq!(ctx.0.reconciliation, ReconcilePhase::SavingDependents);
    match &ctx.0.db.package_data[2].entry {
        PackageDataEntry::Installed { current_dependents, .. } => {
            assert_eq!(current_dependents.len(), 1);
            assert_eq!(current_dependents[0].id.as_str(), "lnd");
        }
        other => panic!("{:?}", other),
    }
    match ctx.cleanup_and_initialize(ReconcileEvent::Done(Ok(()))) {
        ReconcileAction::Sweep { plan } => {
            assert_eq!(plan.len(), 3);
            assert!(matches!(&plan[0], SweepAction::PurgeTmp { id, .. } if id.as_str() == "lnd"));
            assert!(matches!(&plan[1], SweepAction::CleanupFailed { id } if id.as_str() == "hello"));
            assert!(matches!(&plan[2], SweepAction::PurgeTmp { id, .. } if id.as_str() == "bitcoind"));
        }
        other => panic!("{:?}", other),
    }
    assert!(matches!(
        ctx.cleanup_and_initialize(ReconcileEvent::Swept { failed: Vec::new() }),
        ReconcileAction::Save
    ));
    assert_eq!(ctx.0.db.package_data.len(), 2);
    let status: Vec<MainStatus> = ctx
        .0
        .db
        .package_data
        .iter()
        .map(|p| match &p.entry {
            PackageDataEntry::Installed { status, .. } => status.main,
            other => panic!("{:?}", other),
        })
        .collect();
    assert_eq!(status, [MainStatus::Starting, MainStatus::Stopped]);
    assert!(matches!(
        ctx.cleanup_and_initialize(ReconcileEvent::Done(Ok(()))),
        ReconcileAction::InitManagers
    ));
    match ctx.cleanup_and_initialize(ReconcileEvent::Done(Ok(()))) {
        ReconcileAction::CheckDependencies { ids } => {
            let ids: Vec<&str> = ids.iter().map(|i| i.as_str()).collect();
            assert_eq!(ids, ["lnd", "bitcoind"]);
        }
        other => panic!("{:?}", other),
    }
    let reports = vec![DependencyReport {
        id: id("lnd"),
        errors: vec![install_core::model::DependencyConfigError {
            dependency: id("bitcoind"),
            error: "rpc is off".to_string(),
        }],
    }];
    assert!(matches!(
        ctx.cleanup_and_initialize(ReconcileEvent::Checked(Ok(reports))),
        ReconcileAction::Save
    ));
    match &ctx.0.db.package_data[0].entry {
        PackageDataEntry::Installed { status, .. } => {
            assert_eq!(status.dependency_config_errors.len(), 1);
            assert_eq!(status.dependency_config_errors[0].error, "rpc is off");
        }
        other => panic!("{:?}", other),
    }
    assert!(matches!(
        ctx.cleanup_and_initialize(ReconcileEvent::Done(Ok(()))),
        ReconcileAction::Finish(Ok(()))
    ));
    assert_eq!(ctx.0.reconciliation, ReconcilePhase::Finished);
    assert!(matches!(
        ctx.cleanup_and_initialize(ReconcileEvent::Begin),
        ReconcileAction::Finish(Ok(()))
    ));
    // The list of broken packages is not touched.
    assert_eq!(ctx.0.db.broken_packages.len(), 1);
}

#[test]
fn a_failed_clean_up_does_not_end_the_reconciliation() {
    let mut ctx = context(crashed_database());
    ctx.cleanup_and_initialize(ReconcileEvent::Begin);
    ctx.cleanup_and_initialize(ReconcileEvent::Done(Ok(())));
    let action = ctx.cleanup_and_initialize(ReconcileEvent::Swept { failed: vec![id("hello")] });
    assert!(matches!(action, ReconcileAction::Save));
    assert_eq!(ctx.0.db.package_data.len(), 3);
    assert!(matches!(ctx.0.db.package_data[1].entry, PackageDataEntry::Installing { .. }));
    assert_eq!(ctx.0.reconciliation, ReconcilePhase::SavingStatus);
}

#[test]
fn an_error_of_the_store_ends_the_reconciliation() {
    let broke = || Error { kind: ErrorKind::Database, message: "locked".to_string() };
    for steps in 0..6usize {
        let mut ctx = context(crashed_database());
        let events: Vec<ReconcileEvent> = vec![
            ReconcileEvent::Begin,
            ReconcileEvent::Done(Ok(())),
            ReconcileEvent::Swept { failed: Vec::new() },
            ReconcileEvent::Done(Ok(())),
            ReconcileEvent::Done(Ok(())),
            ReconcileEvent::Checked(Ok(Vec::new())),
        ];
        let mut swept = false;
        for (n, e) in events.into_iter().enumerate() {
            if n > steps {
                break;
            }
            swept = matches!(ctx.cleanup_and_initialize(e), ReconcileAction::Sweep { .. });
        }
        let failing = if steps == 4 {
            ReconcileEvent::Checked(Err(broke()))
        } else {
            ReconcileEvent::Done(Err(broke()))
        };
        match ctx.cleanup_and_initialize(failing) {
            ReconcileAction::Finish(Err(e)) => {
                if swept {
                    // The sweep is answered by its result alone.
                    assert_eq!(e.message, "unexpected event");
                } else {
                    assert_eq!(e.kind, ErrorKind::Database);
                    assert_eq!(e.message, "locked");
                }
            }
            other => panic!("after {} steps: {:?}", steps, other),
        }
        assert_eq!(ctx.0.reconciliation, ReconcilePhase::Failed);
        assert!(matches!(
            ctx.cleanup_and_initialize(ReconcileEvent::Begin),
            ReconcileAction::Finish(Err(_))
        ));
    }
}

fn bring_up(stored: Option<Database>, mib: u64) -> (ContextInit, Vec<String>) {
    let mut names = Vec::new();
    let mut state = ContextInit::new("disk-9".to_string(), 77);
    let mut cfg = config();
    cfg.tor_socks = Some("10.0.0.1:9150".to_string());
    let created = stored.is_none();
    let synced = stored.as_ref().map_or(false, |d| d.ntp_synced);
    let mut events = vec![
        InitEvent::Begin,
        InitEvent::ConfigLoaded(Ok(cfg)),
        InitEvent::Done(Ok(())),
        InitEvent::Done(Ok(())),
        InitEvent::DbOpened(Ok(stored)),
    ];
    if created {
        events.push(InitEvent::Done(Ok(())));
    }
    events.push(InitEvent::Done(Ok(())));
    events.push(InitEvent::HardwareRead(Ok((
        vec![LshwDevice { class: "display".to_string(), product: "gpu".to_string() }],
        mib,
    ))));
    if !synced {
        events.push(InitEvent::Done(Ok(())));
    }
    events.extend([
        InitEvent::Done(Ok(())),
        InitEvent::Done(Ok(())),
        InitEvent::Reconcile(ReconcileEvent::Done(Ok(()))),
        InitEvent::Reconcile(ReconcileEvent::Swept { failed: Vec::new() }),
        InitEvent::Reconcile(ReconcileEvent::Done(Ok(()))),
        InitEvent::Reconcile(ReconcileEvent::Done(Ok(()))),
        InitEvent::Reconcile(ReconcileEvent::Checked(Ok(Vec::new()))),
        InitEvent::Reconcile(ReconcileEvent::Done(Ok(()))),
    ]);
    for e in events {
        let (next, action) = RpcContext::init(state, e);
        state = next;
        names.push(match action {
            InitAction::LoadConfig => "LoadConfig".to_string(),
            InitAction::OpenSecretStore => "OpenSecretStore".to_string(),
            InitAction::LoadAccount => "LoadAccount".to_string(),
            InitAction::OpenDb { path } => format!("OpenDb {}", path),
            InitAction::CreateDb => "CreateDb".to_string(),
            InitAction::InitNetController { tor_control, tor_socks, dns_bind } => {
                format!("InitNetController {} {} {:?}", tor_control, tor_socks, dns_bind)
            }
            InitAction::ReadHardware => "ReadHardware".to_string(),
            InitAction::SyncClock => "SyncClock".to_string(),
            InitAction::GenerateSecret => "GenerateSecret".to_string(),
            InitAction::BuildClient { proxy } => format!("BuildClient {}", proxy),
            InitAction::Reconcile(a) => match a {
                ReconcileAction::Save => "Reconcile Save".to_string(),
                ReconcileAction::Sweep { plan } => format!("Reconcile Sweep {}", plan.len()),
                ReconcileAction::InitManagers => "Reconcile InitManagers".to_string(),
                ReconcileAction::CheckDependencies { ids } => {
                    format!("Reconcile CheckDependencies {}", ids.len())
                }
                ReconcileAction::Finish(_) => "Reconcile Finish".to_string(),
            },
            InitAction::Ready => "Ready".to_string(),
            InitAction::Fail(e) => format!("Fail {}", e.render()),
        });
        if matches!(state.phase, InitPhase::Failed) {
            break;
        }
    }
    (state, names)
}

#[test]
fn a_context_is_brought_up_piece_by_piece() {
    let (state, names) = bring_up(Some(crashed_database()), 4096);
    assert_eq!(
        names,
        [
            "LoadConfig",
            "OpenSecretStore",
            "LoadAccount",
            "OpenDb /embassy-data/main/embassy.db",
            "InitNetController 127.0.0.1:9051 10.0.0.1:9150 [\"127.0.0.1:53\"]",
            "ReadHardware",
            "GenerateSecret",
            "BuildClient socks5h://10.0.0.1:9150",
            "Reconcile Save",
            "Reconcile Sweep 3",
            "Reconcile Save",
            "Reconcile InitManagers",
            "Reconcile CheckDependencies 2",
            "Reconcile Save",
            "Ready",
        ]
    );
    assert_eq!(state.phase, InitPhase::Ready);
    let ctx = state.context.unwrap();
    assert!(!ctx.is_closed());
    assert_eq!(ctx.0.disk_guid, "disk-9");
    assert_eq!(ctx.0.start_time_ms, 77);
    assert_eq!(ctx.0.tor_socks, "10.0.0.1:9150");
    assert_eq!(ctx.0.hardware.ram, 4096 * 1_048_576);
    assert_eq!(ctx.0.hardware.devices[0].product, "gpu");
    assert_eq!(ctx.0.reconciliation, ReconcilePhase::Finished);
    assert_eq!(ctx.0.db.package_data.len(), 2);
}

#[test]
fn a_missing_database_is_created_and_the_clock_is_waited_for() {
    let (state, names) = bring_up(None, 1);
    assert_eq!(names[3], "OpenDb /embassy-data/main/embassy.db");
    assert_eq!(names[4], "CreateDb");
    assert_eq!(names[7], "SyncClock");
    assert_eq!(names[8], "GenerateSecret");
    assert_eq!(names.last().unwrap(), "Ready");
    assert_eq!(state.phase, InitPhase::Ready);
    assert!(state.context.unwrap().0.db.package_data.is_empty());
}

#[test]
fn a_memory_too_large_to_count_fails_the_bringing_up() {
    let (state, names) = bring_up(Some(crashed_database()), u64::MAX);
    assert_eq!(names.last().unwrap(), "Fail Unknown: memory size out of range");
    assert_eq!(state.phase, InitPhase::Failed);
    assert!(state.context.is_none());
}

#[test]
fn the_first_error_ends_the_bringing_up() {
    let state = ContextInit::new("d".to_string(), 0);
    let (state, _) = RpcContext::init(state, InitEvent::Begin);
    let (state, action) = RpcContext::init(
        state,
        InitEvent::ConfigLoaded(Err(Error { kind: ErrorKind::Filesystem, message: "no file".to_string() })),
    );
    assert!(matches!(action, InitAction::Fail(e) if e.kind == ErrorKind::Filesystem && e.message == "no file"));
    assert_eq!(state.phase, InitPhase::Failed);
    let (state, action) = RpcContext::init(state, InitEvent::Begin);
    assert!(matches!(action, InitAction::Fail(e) if e.message == "unexpected event"));
    assert_eq!(state.phase, InitPhase::Failed);
}

#[test]
fn errors_of_the_store_the_key_and_the_client_get_their_kind() {
    let io = || Error { kind: ErrorKind::Io, message: "broke".to_string() };
    let upto = |n: usize| -> ContextInit {
        let mut state = ContextInit::new("d".to_string(), 0);
        let mut db = Database::init();
        db.ntp_synced = true;
        let events = vec![
            InitEvent::Begin,
            InitEvent::ConfigLoaded(Ok(config())),
            InitEvent::Done(Ok(())),
            InitEvent::Done(Ok(())),
            InitEvent::DbOpened(Ok(Some(db))),
            InitEvent::Done(Ok(())),
            InitEvent::HardwareRead(Ok((Vec::new(), 1))),
            InitEvent::Done(Ok(())),
        ];
        for e in events.into_iter().take(n) {
            state = RpcContext::init(state, e).0;
        }
        state
    };
    let (_, action) = RpcContext::init(upto(4), InitEvent::DbOpened(Err(io())));
    assert!(matches!(action, InitAction::Fail(e) if e.kind == ErrorKind::Filesystem
        && e.message == "/embassy-data/main/embassy.db: broke"));
    let mut elsewhere = config();
    elsewhere.datadir = Some("/mnt/data".to_string());
    let mut state = ContextInit::new("d".to_string(), 0);
    for e in [
        InitEvent::Begin,
        InitEvent::ConfigLoaded(Ok(elsewhere)),
        InitEvent::Done(Ok(())),
        InitEvent::Done(Ok(())),
    ] {
        state = RpcContext::init(state, e).0;
    }
    let (state, action) = RpcContext::init(
        state,
        InitEvent::DbOpened(Err(Error { kind: ErrorKind::Io, message: "no such device".to_string() })),
    );
    assert!(matches!(action, InitAction::Fail(e) if e.kind == ErrorKind::Filesystem
        && e.message == "/mnt/data/main/embassy.db: no such device"));
    assert_eq!(state.phase, InitPhase::Failed);
    let state = upto(7);
    assert_eq!(state.phase, InitPhase::GeneratingSecret);
    let (_, action) = RpcContext::init(state, InitEvent::Done(Err(io())));
    assert!(matches!(action, InitAction::Fail(e) if e.kind == ErrorKind::Unknown && e.message == "Couldn't generate ec key"));
    let state = upto(8);
    assert_eq!(state.phase, InitPhase::BuildingClient);
    let (_, action) = RpcContext::init(state, InitEvent::Done(Err(io())));
    assert!(matches!(action, InitAction::Fail(e) if e.kind == ErrorKind::ParseUrl && e.message == "broke"));
}

fn file() -> install_core::context::config::ConfigFile {
    install_core::context::config::ConfigFile {
        wifi_interface: None,
        ethernet_interface: None,
        os_partitions: None,
        migration_batch_rows: None,
        migration_prefetch_rows: None,
        bind_rpc: None,
        tor_control: None,
        tor_socks: None,
        dns_bind: None,
        revision_cache_size: None,
        datadir: None,
        log_server: None,
    }
}

#[test]
fn a_key_counts_as_the_first_file_that_has_it_says() {
    let mut given = file();
    given.datadir = Some("/given".to_string());
    given.tor_socks = Some("1.1.1.1:1".to_string());
    let mut device = file();
    device.datadir = Some("/device".to_string());
    device.ethernet_interface = Some("eth1".to_string());
    device.revision_cache_size = Some(5);
    let mut system = file();
    system.ethernet_interface = Some("eth0".to_string());
    system.wifi_interface = Some("wlan0".to_string());
    system.tor_socks = Some("2.2.2.2:2".to_string());
    system.dns_bind = Some(vec!["0.0.0.0:53".to_string()]);
    system.os_partitions =
        Some(OsPartitionInfo { boot: "/dev/a".to_string(), root: "/dev/b".to_string() });
    let c = RpcContextConfig::load(vec![given, device, system]).unwrap();
    assert_eq!(c.datadir.as_deref(), Some("/given"));
    assert_eq!(c.datadir(), "/given");
    assert_eq!(c.tor_socks(), "1.1.1.1:1");
    assert_eq!(c.ethernet_interface, "eth1");
    assert_eq!(c.wifi_interface.as_deref(), Some("wlan0"));
    assert_eq!(c.revision_cache_size, Some(5));
    assert_eq!(c.dns_bind(), ["0.0.0.0:53"]);
    assert_eq!(c.tor_control(), "127.0.0.1:9051");
    assert_eq!(c.os_partitions.boot, "/dev/a");
    assert_eq!(c.os_partitions.root, "/dev/b");
    assert_eq!(c.bind_rpc, None);
    assert_eq!(c.log_server, None);
    assert_eq!(c.migration_batch_rows, None);
}

#[test]
fn the_ethernet_interface_is_required() {
    for found in [Vec::new(), vec![file()], vec![file(), file(), file()]] {
        let e = RpcContextConfig::load(found).unwrap_err();
        assert_eq!(e.kind, ErrorKind::Unknown);
        assert_eq!(e.message, "missing field `ethernet-interface`");
    }
    let mut only = file();
    only.ethernet_interface = Some("eth0".to_string());
    let e = RpcContextConfig::load(vec![only]).unwrap_err();
    assert_eq!(e.kind, ErrorKind::Unknown);
    assert_eq!(e.message, "missing field `os-partitions`");
    let mut parts = file();
    parts.os_partitions =
        Some(OsPartitionInfo { boot: "/dev/a".to_string(), root: "/dev/b".to_string() });
    let e = RpcContextConfig::load(vec![parts]).unwrap_err();
    assert_eq!(e.message, "missing field `ethernet-interface`");
    let mut both = file();
    both.ethernet_interface = Some("eth0".to_string());
    both.os_partitions =
        Some(OsPartitionInfo { boot: "/dev/a".to_string(), root: "/dev/b".to_string() });
    let c = RpcContextConfig::load(vec![file(), both]).unwrap();
    assert_eq!(c.ethernet_interface, "eth0");
    assert_eq!(c.datadir(), "/embassy-data");
    assert_eq!(c.os_partitions.root, "/dev/b");
    let mut a = file();
    a.datadir = Some("/a".to_string());
    let merged = install_core::context::config::merge(vec![file(), a, file()]);
    assert_eq!(merged.datadir.as_deref(), Some("/a"));
    assert_eq!(merged.ethernet_interface, None);
}

#[test]
fn a_failed_reconciliation_leaves_no_context_to_hand_out() {
    let mut state = ContextInit::new("d".to_string(), 0);
    let mut db = crashed_database();
    db.ntp_synced = true;
    let events = vec![
        InitEvent::Begin,
        InitEvent::ConfigLoaded(Ok(config())),
        InitEvent::Done(Ok(())),
        InitEvent::Done(Ok(())),
        InitEvent::DbOpened(Ok(Some(db))),
        InitEvent::Done(Ok(())),
        InitEvent::HardwareRead(Ok((Vec::new(), 1))),
        InitEvent::Done(Ok(())),
        InitEvent::Done(Ok(())),
    ];
    for e in events {
        state = RpcContext::init(state, e).0;
    }
    assert_eq!(state.phase, InitPhase::Reconciling);
    assert!(state.context.is_some());
    let (state, action) = RpcContext::init(
        state,
        InitEvent::Reconcile(ReconcileEvent::Done(Err(Error {
            kind: ErrorKind::Database,
            message: "locked".to_string(),
        }))),
    );
    assert!(matches!(action, InitAction::Fail(e) if e.kind == ErrorKind::Database && e.message == "locked"));
    assert_eq!(state.phase, InitPhase::Failed);
    assert!(state.context.is_none());
    assert!(state.config.is_none() && state.db.is_none() && state.hardware.is_none());
}

#[test]
fn no_identifier_stands_twice_among_the_handlers() {
    let mut ctx = context(Database::init());
    let names = ["a", "b", "a", "c", "b", "a", "d"];
    for (n, name) in names.iter().enumerate() {
        ctx.add_continuation(guid(name), cont(ContinuationKind::Rest, n as u64, 50 + n as u64), 0);
        let mut seen: Vec<String> = held(&ctx).into_iter().map(|(g, _)| g).collect();
        let all = seen.len();
        seen.sort();
        seen.dedup();
        assert_eq!(seen.len(), all);
    }
    assert_eq!(held(&ctx), [at("a", 5), at("b", 4), at("c", 3), at("d", 6)]);
    // A handler that has been taken cannot be taken again.
    assert_eq!(ctx.get_continuation_handler(&guid("a"), 0), Some(5));
    assert_eq!(ctx.get_continuation_handler(&guid("a"), 0), None);
    assert_eq!(ctx.get_rest_continuation_handler(&guid("b"), 0), Some(4));
    assert_eq!(ctx.get_rest_continuation_handler(&guid("b"), 0), None);
    assert_eq!(held(&ctx), [at("c", 3), at("d", 6)]);
}
