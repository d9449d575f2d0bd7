//! Bringing the context up, one piece after the other.

use crate::context::config::{
    ram_bytes, ram_from_mib, store_not_opened, tor_proxy_url, tor_proxy_url_text,
    RpcContextConfig,
};
use crate::context::rpc::{
    fresh_context, reconcile_step, Hardware, LshwDevice, ReconcileAction, ReconcileActionView,
    ReconcileEvent, ReconcileEventView, RpcContext, RpcContextSeed, RpcContextView,
};
use crate::database::empty_database;
use crate::error::{Error, ErrorKind, ErrorView};
use crate::install::machine::unit_view;
use crate::model::{views, Database, DatabaseView};
use crate::paths::db_path_text;
use vstd::prelude::*;
use vstd::string::StringExecFns;

verus! {

/// Where the bringing up of a context stands: the work that it has asked
/// for last and whose end it waits for.
#[derive(Clone, Copy, Debug, PartialEq, Eq, Structural)]
pub enum InitPhase {
    Start,
    LoadingConfig,
    OpeningSecretStore,
    LoadingAccount,
    OpeningDb,
    CreatingDb,
    StartingNetController,
    ReadingHardware,
    SyncingClock,
    GeneratingSecret,
    BuildingClient,
    Reconciling,
    Ready,
    Failed,
}

/// A context that is being brought up.
#[derive(Debug)]
pub struct ContextInit {
    pub phase: InitPhase,
    pub disk_guid: String,
    /// When the bringing up began, in milliseconds on the caller's clock.
    pub start_time_ms: u64,
    pub config: Option<RpcContextConfig>,
    pub db: Option<Database>,
    pub hardware: Option<Hardware>,
    /// The context, once all that it holds is there.
    pub context: Option<RpcContext>,
}

/// The mathematical value of a [`ContextInit`].
pub struct ContextInitView {
    pub phase: InitPhase,
    pub disk_guid: Seq<char>,
    pub start_time_ms: u64,
    pub config: Option<RpcContextConfig>,
    pub db: Option<DatabaseView>,
    pub hardware: Option<Hardware>,
    pub context: Option<RpcContextView>,
}

impl View for ContextInit {
    type V = ContextInitView;

    open spec fn view(&self) -> ContextInitView {
        ContextInitView {
            phase: self.phase,
            disk_guid: self.disk_guid@,
            start_time_ms: self.start_time_ms,
            config: self.config,
            db: match self.db {
                Some(db) => Some(db@),
                None => None,
            },
            hardware: self.hardware,
            context: match self.context {
                Some(c) => Some(c@),
                None => None,
            },
        }
    }
}

/// What the bringing up of a context is told.
#[derive(Debug)]
pub enum InitEvent {
    /// The bringing up is to begin.
    Begin,
    /// The configuration has been loaded.
    ConfigLoaded(Result<RpcContextConfig, Error>),
    /// The work asked for has ended.
    Done(Result<(), Error>),
    /// The store of the package database has been opened; it holds this
    /// database, or none yet.
    DbOpened(Result<Option<Database>, Error>),
    /// The hardware has been read: the devices, and the memory in mebibytes.
    HardwareRead(Result<(Vec<LshwDevice>, u64), Error>),
    /// Something that the reconciliation is told.
    Reconcile(ReconcileEvent),
}

/// The mathematical value of an [`InitEvent`].
pub enum InitEventView {
    Begin,
    ConfigLoaded(Result<RpcContextConfig, ErrorView>),
    Done(Result<(), ErrorView>),
    DbOpened(Result<Option<DatabaseView>, ErrorView>),
    HardwareRead(Result<(Vec<LshwDevice>, u64), ErrorView>),
    Reconcile(ReconcileEventView),
}

impl View for InitEvent {
    type V = InitEventView;

    open spec fn view(&self) -> InitEventView {
        match self {
            InitEvent::Begin => InitEventView::Begin,
            InitEvent::ConfigLoaded(r) => InitEventView::ConfigLoaded(
                match r {
                    Ok(c) => Ok(*c),
                    Err(e) => Err(e@),
                },
            ),
            InitEvent::Done(r) => InitEventView::Done(unit_view(*r)),
            InitEvent::DbOpened(r) => InitEventView::DbOpened(
                match r {
                    Ok(Some(db)) => Ok(Some(db@)),
                    Ok(None) => Ok(None),
                    Err(e) => Err(e@),
                },
            ),
            InitEvent::HardwareRead(r) => InitEventView::HardwareRead(
                match r {
                    Ok(read) => Ok(*read),
                    Err(e) => Err(e@),
                },
            ),
            InitEvent::Reconcile(e) => InitEventView::Reconcile(e@),
        }
    }
}

/// What the bringing up of a context asks for.
#[derive(Debug)]
pub enum InitAction {
    /// Load the configuration.
    LoadConfig,
    /// Open the secret store and bring it up to date.
    OpenSecretStore,
    /// Load the account from the secret store.
    LoadAccount,
    /// Open the store of the package database at this path.
    OpenDb { path: String },
    /// Write the database of a machine that has just been set up.
    CreateDb,
    /// Bring up the network controller with these addresses.
    InitNetController { tor_control: String, tor_socks: String, dns_bind: Vec<String> },
    /// List the devices and read the size of the memory.
    ReadHardware,
    /// Start the task that waits for the clock to be set from the network
    /// and then records that in the database.
    SyncClock,
    /// Make the key that signs the sessions.
    GenerateSecret,
    /// Build the HTTP client, which reaches hosts that end in `.onion`
    /// through this proxy.
    BuildClient { proxy: String },
    /// Something that the reconciliation asks for.
    Reconcile(ReconcileAction),
    /// The context is up.
    Ready,
    /// The context could not be brought up.
    Fail(Error),
}

/// The mathematical value of an [`InitAction`].
pub enum InitActionView {
    LoadConfig,
    OpenSecretStore,
    LoadAccount,
    OpenDb { path: Seq<char> },
    CreateDb,
    InitNetController { tor_control: Seq<char>, tor_socks: Seq<char>, dns_bind: Seq<Seq<char>> },
    ReadHardware,
    SyncClock,
    GenerateSecret,
    BuildClient { proxy: Seq<char> },
    Reconcile(ReconcileActionView),
    Ready,
    Fail(ErrorView),
}

impl View for InitAction {
    type V = InitActionView;

    open spec fn view(&self) -> InitActionView {
        match self {
            InitAction::LoadConfig => InitActionView::LoadConfig,
            InitAction::OpenSecretStore => InitActionView::OpenSecretStore,
            InitAction::LoadAccount => InitActionView::LoadAccount,
            InitAction::OpenDb { path } => InitActionView::OpenDb { path: path@ },
            InitAction::CreateDb => InitActionView::CreateDb,
            InitAction::InitNetController { tor_control, tor_socks, dns_bind } => {
                InitActionView::InitNetController {
                    tor_control: tor_control@,
                    tor_socks: tor_socks@,
                    dns_bind: views(dns_bind@),
                }
            },
            InitAction::ReadHardware => InitActionView::ReadHardware,
            InitAction::SyncClock => InitActionView::SyncClock,
            InitAction::GenerateSecret => InitActionView::GenerateSecret,
            InitAction::BuildClient { proxy } => InitActionView::BuildClient { proxy: proxy@ },
            InitAction::Reconcile(a) => InitActionView::Reconcile(a@),
            InitAction::Ready => InitActionView::Ready,
            InitAction::Fail(e) => InitActionView::Fail(e@),
        }
    }
}

/// The error for a piece that is asked for before the piece it needs is
/// there, or for an event that does not answer the work asked for.
pub open spec fn out_of_order() -> ErrorView {
    ErrorView { kind: ErrorKind::Unknown, message: "unexpected event"@ }
}

/// The error for a memory whose size in bytes does not fit.
pub open spec fn memory_out_of_range() -> ErrorView {
    ErrorView { kind: ErrorKind::Unknown, message: "memory size out of range"@ }
}

/// The error for a session key that could not be made.
pub open spec fn no_secret() -> ErrorView {
    ErrorView { kind: ErrorKind::Unknown, message: "Couldn't generate ec key"@ }
}

/// The bringing up has failed.
pub open spec fn failed_with(s: ContextInitView, e: ErrorView) -> (ContextInitView, InitActionView) {
    (ContextInitView { phase: InitPhase::Failed, ..s }, InitActionView::Fail(e))
}

/// The bringing up goes on with the network controller.
pub open spec fn start_net_controller(s: ContextInitView, config: RpcContextConfig) -> (
    ContextInitView,
    InitActionView,
) {
    (
        ContextInitView { phase: InitPhase::StartingNetController, ..s },
        InitActionView::InitNetController {
            tor_control: config.tor_control_text(),
            tor_socks: config.tor_socks_text(),
            dns_bind: config.dns_bind_texts(),
        },
    )
}

/// What the reconciliation asked for, as the bringing up hands it on: its
/// end is the end of the bringing up. Where it ends with an error no context
/// is left to hand out.
pub open spec fn handed_on(s: ContextInitView, context: RpcContextView, asked: ReconcileActionView) -> (
    ContextInitView,
    InitActionView,
) {
    let t = ContextInitView { context: Some(context), ..s };
    match asked {
        ReconcileActionView::Finish(Ok(_)) => (
            ContextInitView { phase: InitPhase::Ready, ..t },
            InitActionView::Ready,
        ),
        ReconcileActionView::Finish(Err(e)) => (
            ContextInitView { phase: InitPhase::Failed, context: None, ..s },
            InitActionView::Fail(e),
        ),
        other => (
            ContextInitView { phase: InitPhase::Reconciling, ..t },
            InitActionView::Reconcile(other),
        ),
    }
}

/// What the bringing up of a context does when it is told `e`.
///
/// The pieces come up in this order: the configuration, the secret store,
/// the account, the package database, which is created where the store
/// holds none, the network controller, the hardware, the task that waits
/// for the clock where the database says that the clock has not been set,
/// the session key, the HTTP client, and at last the reconciliation. The
/// first error ends the bringing up.
pub open spec fn init_step(s: ContextInitView, e: InitEventView) -> (ContextInitView, InitActionView) {
    match (s.phase, e) {
        (InitPhase::Ready, _) => (s, InitActionView::Ready),
        (InitPhase::Start, InitEventView::Begin) => (
            ContextInitView { phase: InitPhase::LoadingConfig, ..s },
            InitActionView::LoadConfig,
        ),
        (InitPhase::LoadingConfig, InitEventView::ConfigLoaded(Ok(config))) => (
            ContextInitView { phase: InitPhase::OpeningSecretStore, config: Some(config), ..s },
            InitActionView::OpenSecretStore,
        ),
        (InitPhase::LoadingConfig, InitEventView::ConfigLoaded(Err(err))) => failed_with(s, err),
        (InitPhase::OpeningSecretStore, InitEventView::Done(Ok(_))) => (
            ContextInitView { phase: InitPhase::LoadingAccount, ..s },
            InitActionView::LoadAccount,
        ),
        (InitPhase::LoadingAccount, InitEventView::Done(Ok(_))) => match s.config {
            Some(config) => (
                ContextInitView { phase: InitPhase::OpeningDb, ..s },
                InitActionView::OpenDb { path: db_path_text(config.datadir_text()) },
            ),
            None => failed_with(s, out_of_order()),
        },
        (InitPhase::OpeningDb, InitEventView::DbOpened(Ok(stored))) => match (s.config, stored) {
            (Some(config), Some(db)) => start_net_controller(
                ContextInitView { db: Some(db), ..s },
                config,
            ),
            (Some(_), None) => (
                ContextInitView {
                    phase: InitPhase::CreatingDb,
                    db: Some(empty_database()),
                    ..s
                },
                InitActionView::CreateDb,
            ),
            _ => failed_with(s, out_of_order()),
        },
        (InitPhase::OpeningDb, InitEventView::DbOpened(Err(err))) => match s.config {
            Some(config) => failed_with(s, store_not_opened(config.datadir_text(), err.message)),
            None => failed_with(s, out_of_order()),
        },
        (InitPhase::CreatingDb, InitEventView::Done(Ok(_))) => match s.config {
            Some(config) => start_net_controller(s, config),
            None => failed_with(s, out_of_order()),
        },
        (InitPhase::StartingNetController, InitEventView::Done(Ok(_))) => (
            ContextInitView { phase: InitPhase::ReadingHardware, ..s },
            InitActionView::ReadHardware,
        ),
        (InitPhase::ReadingHardware, InitEventView::HardwareRead(Ok((devices, total_mib)))) => match s.db {
            Some(db) => if ram_bytes(total_mib) <= u64::MAX {
                let t = ContextInitView {
                    hardware: Some(Hardware { devices, ram: ram_bytes(total_mib) as u64 }),
                    ..s
                };
                if db.ntp_synced {
                    (
                        ContextInitView { phase: InitPhase::GeneratingSecret, ..t },
                        InitActionView::GenerateSecret,
                    )
                } else {
                    (
                        ContextInitView { phase: InitPhase::SyncingClock, ..t },
                        InitActionView::SyncClock,
                    )
                }
            } else {
                failed_with(s, memory_out_of_range())
            },
            None => failed_with(s, out_of_order()),
        },
        (InitPhase::ReadingHardware, InitEventView::HardwareRead(Err(err))) => failed_with(s, err),
        (InitPhase::SyncingClock, InitEventView::Done(Ok(_))) => (
            ContextInitView { phase: InitPhase::GeneratingSecret, ..s },
            InitActionView::GenerateSecret,
        ),
        (InitPhase::GeneratingSecret, InitEventView::Done(Ok(_))) => match s.config {
            Some(config) => (
                ContextInitView { phase: InitPhase::BuildingClient, ..s },
                InitActionView::BuildClient { proxy: tor_proxy_url_text(config.tor_socks_text()) },
            ),
            None => failed_with(s, out_of_order()),
        },
        (InitPhase::GeneratingSecret, InitEventView::Done(Err(_))) => failed_with(s, no_secret()),
        (InitPhase::BuildingClient, InitEventView::Done(Ok(_))) => match (
            s.config,
            s.db,
            s.hardware,
        ) {
            (Some(config), Some(db), Some(hardware)) => {
                let context = fresh_context(config, s.disk_guid, db, hardware, s.start_time_ms);
                let (after, asked) = reconcile_step(context, ReconcileEventView::Begin);
                handed_on(
                    ContextInitView { config: None, db: None, hardware: None, ..s },
                    after,
                    asked,
                )
            },
            _ => failed_with(s, out_of_order()),
        },
        (InitPhase::BuildingClient, InitEventView::Done(Err(err))) => failed_with(
            s,
            ErrorView { kind: ErrorKind::ParseUrl, ..err },
        ),
        (InitPhase::Reconciling, InitEventView::Reconcile(event)) => match s.context {
            Some(context) => if context.is_closed {
                failed_with(s, out_of_order())
            } else {
                let (after, asked) = reconcile_step(context, event);
                handed_on(s, after, asked)
            },
            None => failed_with(s, out_of_order()),
        },
        (
            InitPhase::OpeningSecretStore
            | InitPhase::LoadingAccount
            | InitPhase::CreatingDb
            | InitPhase::StartingNetController
            | InitPhase::SyncingClock,
            InitEventView::Done(Err(err)),
        ) => failed_with(s, err),
        _ => failed_with(s, out_of_order()),
    }
}

/// The place of a phase in the order in which the pieces come up.
pub open spec fn init_rank(phase: InitPhase) -> nat {
    match phase {
        InitPhase::Start => 0,
        InitPhase::LoadingConfig => 1,
        InitPhase::OpeningSecretStore => 2,
        InitPhase::LoadingAccount => 3,
        InitPhase::OpeningDb => 4,
        InitPhase::CreatingDb => 5,
        InitPhase::StartingNetController => 6,
        InitPhase::ReadingHardware => 7,
        InitPhase::SyncingClock => 8,
        InitPhase::GeneratingSecret => 9,
        InitPhase::BuildingClient => 10,
        InitPhase::Reconciling => 11,
        InitPhase::Ready => 12,
        InitPhase::Failed => 13,
    }
}

/// The pieces come up in their order: no step takes the bringing up back
/// to an earlier piece, so that the secret store is open before the account
/// is loaded, the account before the database, the database before the
/// network controller, and all of them before the reconciliation.
pub proof fn law_pieces_come_up_in_order(s: ContextInitView, e: InitEventView)
    ensures
        init_rank(init_step(s, e).0.phase) >= init_rank(s.phase),
        init_step(s, e).0.phase is Reconciling || init_step(s, e).0.phase is Ready
            ==> init_rank(s.phase) >= init_rank(InitPhase::BuildingClient),
        init_step(s, e).0.disk_guid == s.disk_guid,
        init_step(s, e).0.start_time_ms == s.start_time_ms,
{
}

/// The context whose bringing up has not begun.
pub open spec fn not_begun(disk_guid: Seq<char>, start_time_ms: u64) -> ContextInitView {
    ContextInitView {
        phase: InitPhase::Start,
        disk_guid,
        start_time_ms,
        config: None,
        db: None,
        hardware: None,
        context: None,
    }
}

impl ContextInit {
    /// A context whose bringing up has not begun.
    pub fn new(disk_guid: String, start_time_ms: u64) -> (state: ContextInit)
        ensures
            state@ == not_begun(disk_guid@, start_time_ms),
    {
        ContextInit {
            phase: InitPhase::Start,
            disk_guid,
            start_time_ms,
            config: None,
            db: None,
            hardware: None,
            context: None,
        }
    }
}

fn fail(state: ContextInit, e: Error) -> (next: (ContextInit, InitAction))
    ensures
        (next.0@, next.1@) == failed_with(state@, e@),
{
    let mut state = state;
    state.phase = InitPhase::Failed;
    (state, InitAction::Fail(e))
}

fn fail_out_of_order(state: ContextInit) -> (next: (ContextInit, InitAction))
    ensures
        (next.0@, next.1@) == failed_with(state@, out_of_order()),
{
    fail(state, Error::new(ErrorKind::Unknown, "unexpected event"))
}

fn net_controller(state: ContextInit) -> (next: (ContextInit, InitAction))
    requires
        state.config is Some,
    ensures
        (next.0@, next.1@) == start_net_controller(state@, state.config.unwrap()),
{
    let mut state = state;
    state.phase = InitPhase::StartingNetController;
    let action = match &state.config {
        Some(config) => InitAction::InitNetController {
            tor_control: String::from_str(config.tor_control()),
            tor_socks: String::from_str(config.tor_socks()),
            dns_bind: config.dns_bind(),
        },
        None => InitAction::ReadHardware,
    };
    (state, action)
}

fn hand_on(state: ContextInit, context: RpcContext, asked: ReconcileAction) -> (next: (
    ContextInit,
    InitAction,
))
    ensures
        (next.0@, next.1@) == handed_on(state@, context@, asked@),
{
    let mut state = state;
    state.context = Some(context);
    match asked {
        ReconcileAction::Finish(Ok(_)) => {
            state.phase = InitPhase::Ready;
            (state, InitAction::Ready)
        },
        ReconcileAction::Finish(Err(e)) => {
            state.phase = InitPhase::Failed;
            state.context = None;
            (state, InitAction::Fail(e))
        },
        other => {
            state.phase = InitPhase::Reconciling;
            (state, InitAction::Reconcile(other))
        },
    }
}

impl RpcContext {
    /// Takes the bringing up of a context one step further: from what it is
    /// told to what it asks for next. When it answers `Ready`, the context
    /// is up and stands in the state.
    pub fn init(state: ContextInit, event: InitEvent) -> (next: (ContextInit, InitAction))
        ensures
            (next.0@, next.1@) == init_step(state@, event@),
    {
        let mut state = state;
        match state.phase {
            InitPhase::Ready => (state, InitAction::Ready),
            InitPhase::Start => match event {
                InitEvent::Begin => {
                    state.phase = InitPhase::LoadingConfig;
                    (state, InitAction::LoadConfig)
                },
                _ => fail_out_of_order(state),
            },
            InitPhase::LoadingConfig => match event {
                InitEvent::ConfigLoaded(Ok(config)) => {
                    state.phase = InitPhase::OpeningSecretStore;
                    state.config = Some(config);
                    (state, InitAction::OpenSecretStore)
                },
                InitEvent::ConfigLoaded(Err(e)) => fail(state, e),
                _ => fail_out_of_order(state),
            },
            InitPhase::OpeningSecretStore => match event {
                InitEvent::Done(Ok(_)) => {
                    state.phase = InitPhase::LoadingAccount;
                    (state, InitAction::LoadAccount)
                },
                InitEvent::Done(Err(e)) => fail(state, e),
                _ => fail_out_of_order(state),
            },
            InitPhase::LoadingAccount => match event {
                InitEvent::Done(Ok(_)) => {
                    let path = match &state.config {
                        Some(config) => Some(config.db_path()),
                        None => None,
                    };
                    match path {
                        Some(path) => {
                            state.phase = InitPhase::OpeningDb;
                            (state, InitAction::OpenDb { path })
                        },
                        None => fail_out_of_order(state),
                    }
                },
                InitEvent::Done(Err(e)) => fail(state, e),
                _ => fail_out_of_order(state),
            },
            InitPhase::OpeningDb => match event {
                InitEvent::DbOpened(opened) => {
                    let db = match &state.config {
                        Some(config) => Some(config.db(opened)),
                        None => None,
                    };
                    match db {
                        Some(Ok((db, created))) => {
                            state.db = Some(db);
                            if created {
                                state.phase = InitPhase::CreatingDb;
                                (state, InitAction::CreateDb)
                            } else {
                                net_controller(state)
                            }
                        },
                        Some(Err(e)) => fail(state, e),
                        None => fail_out_of_order(state),
                    }
                },
                _ => fail_out_of_order(state),
            },
            InitPhase::CreatingDb => match event {
                InitEvent::Done(Ok(_)) => {
                    if state.config.is_some() {
                        net_controller(state)
                    } else {
                        fail_out_of_order(state)
                    }
                },
                InitEvent::Done(Err(e)) => fail(state, e),
                _ => fail_out_of_order(state),
            },
            InitPhase::StartingNetController => match event {
                InitEvent::Done(Ok(_)) => {
                    state.phase = InitPhase::ReadingHardware;
                    (state, InitAction::ReadHardware)
                },
                InitEvent::Done(Err(e)) => fail(state, e),
                _ => fail_out_of_order(state),
            },
            InitPhase::ReadingHardware => match event {
                InitEvent::HardwareRead(Ok((devices, total_mib))) => {
                    let synced = match &state.db {
                        Some(db) => Some(db.ntp_synced),
                        None => None,
                    };
                    match (synced, ram_from_mib(total_mib)) {
                        (Some(synced), Some(ram)) => {
                            state.hardware = Some(Hardware { devices, ram });
                            if synced {
                                state.phase = InitPhase::GeneratingSecret;
                                (state, InitAction::GenerateSecret)
                            } else {
                                state.phase = InitPhase::SyncingClock;
                                (state, InitAction::SyncClock)
                            }
                        },
                        (Some(_), None) => fail(
                            state,
                            Error::new(ErrorKind::Unknown, "memory size out of range"),
                        ),
                        _ => fail_out_of_order(state),
                    }
                },
                InitEvent::HardwareRead(Err(e)) => fail(state, e),
                _ => fail_out_of_order(state),
            },
            InitPhase::SyncingClock => match event {
                InitEvent::Done(Ok(_)) => {
                    state.phase = InitPhase::GeneratingSecret;
                    (state, InitAction::GenerateSecret)
                },
                InitEvent::Done(Err(e)) => fail(state, e),
                _ => fail_out_of_order(state),
            },
            InitPhase::GeneratingSecret => match event {
                InitEvent::Done(Ok(_)) => {
                    let proxy = match &state.config {
                        Some(config) => Some(tor_proxy_url(config.tor_socks())),
                        None => None,
                    };
                    match proxy {
                        Some(proxy) => {
                            state.phase = InitPhase::BuildingClient;
                            (state, InitAction::BuildClient { proxy })
                        },
                        None => fail_out_of_order(state),
                    }
                },
                InitEvent::Done(Err(_)) => fail(
                    state,
                    Error::new(ErrorKind::Unknown, "Couldn't generate ec key"),
                ),
                _ => fail_out_of_order(state),
            },
            InitPhase::BuildingClient => match event {
                InitEvent::Done(Ok(_)) => {
                    let ContextInit {
                        phase,
                        disk_guid,
                        start_time_ms,
                        config,
                        db,
                        hardware,
                        context,
                    } = state;
                    match (config, db, hardware) {
                        (Some(config), Some(db), Some(hardware)) => {
                            let seed = RpcContextSeed::new(
                                config,
                                disk_guid.clone(),
                                db,
                                hardware,
                                start_time_ms,
                            );
                            let mut up = RpcContext(seed);
                            let asked = up.cleanup_and_initialize(ReconcileEvent::Begin);
                            hand_on(
                                ContextInit {
                                    phase,
                                    disk_guid,
                                    start_time_ms,
                                    config: None,
                                    db: None,
                                    hardware: None,
                                    context,
                                },
                                up,
                                asked,
                            )
                        },
                        (config, db, hardware) => fail_out_of_order(
                            ContextInit {
                                phase,
                                disk_guid,
                                start_time_ms,
                                config,
                                db,
                                hardware,
                                context,
                            },
                        ),
                    }
                },
                InitEvent::Done(Err(e)) => fail(
                    state,
                    Error { kind: ErrorKind::ParseUrl, message: e.message },
                ),
                _ => fail_out_of_order(state),
            },
            InitPhase::Reconciling => match event {
                InitEvent::Reconcile(event) => {
                    let ContextInit {
                        phase,
                        disk_guid,
                        start_time_ms,
                        config,
                        db,
                        hardware,
                        context,
                    } = state;
                    match context {
                        Some(mut up) => {
                            if up.is_closed() {
                                fail_out_of_order(
                                    ContextInit {
                                        phase,
                                        disk_guid,
                                        start_time_ms,
                                        config,
                                        db,
                                        hardware,
                                        context: Some(up),
                                    },
                                )
                            } else {
                                let asked = up.cleanup_and_initialize(event);
                                hand_on(
                                    ContextInit {
                                        phase,
                                        disk_guid,
                                        start_time_ms,
                                        config,
                                        db,
                                        hardware,
                                        context: None,
                                    },
                                    up,
                                    asked,
                                )
                            }
                        },
                        None => fail_out_of_order(
                            ContextInit {
                                phase,
                                disk_guid,
                                start_time_ms,
                                config,
                                db,
                                hardware,
                                context: None,
                            },
                        ),
                    }
                },
                _ => fail_out_of_order(state),
            },
            InitPhase::Failed => fail_out_of_order(state),
        }
    }
}

} // verus!
