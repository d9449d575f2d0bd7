//! The context that the parts of the system share, the reconciliation that
//! it runs when it comes up, and the handlers that it keeps.

use crate::context::config::{OsPartitionInfo, RpcContextConfig};
use crate::context::continuations::{
    cleaned, distinct_guids, inserted, lookup, taken, ContinuationKind, RequestGuid,
    RestHandler, RpcContinuation, Suspended, SuspendedView,
};
use crate::error::{Error, ErrorKind, ErrorView};
use crate::id::PackageId;
use crate::install::machine::unit_view;
use crate::model::{views, Database, DatabaseView};
use crate::reconcile::sweep::{
    finish_sweep, plan_sweep, sweep_action_of, SweepAction, SweepActionView,
};
use crate::reconcile::{
    dependency_checks, installed_ids, rebuild_dependents, rebuilt, reset, reset_main_status,
    swept, with_reports, write_reports, DependencyReport, DependencyReportView,
};
use vstd::prelude::*;
use vstd::string::StringExecFns;

verus! {

/// A device of the machine.
#[derive(Debug)]
pub struct LshwDevice {
    pub class: String,
    pub product: String,
}

/// The hardware of the machine.
#[derive(Debug)]
pub struct Hardware {
    pub devices: Vec<LshwDevice>,
    /// The memory of the machine in bytes.
    pub ram: u64,
}

/// Where the reconciliation of a context stands.
#[derive(Clone, Copy, Debug, PartialEq, Eq, Structural)]
pub enum ReconcilePhase {
    /// It has not begun.
    Idle,
    SavingDependents,
    Sweeping,
    SavingStatus,
    InitializingManagers,
    CheckingDependencies,
    SavingReports,
    Finished,
    Failed,
}

/// What the context holds.
#[derive(Debug)]
pub struct RpcContextSeed {
    is_closed: bool,
    pub os_partitions: OsPartitionInfo,
    pub wifi_interface: Option<String>,
    pub ethernet_interface: String,
    pub datadir: String,
    pub disk_guid: String,
    /// The package database, as a document in memory.
    pub db: Database,
    pub reconciliation: ReconcilePhase,
    pub tor_socks: String,
    pub rpc_stream_continuations: Vec<Suspended>,
    pub hardware: Hardware,
    /// When the context came up, in milliseconds on the caller's clock.
    pub start_time_ms: u64,
}

/// The context.
#[derive(Debug)]
pub struct RpcContext(pub RpcContextSeed);

/// What the contracts of the context speak of.
pub struct RpcContextView {
    pub is_closed: bool,
    pub os_partitions: OsPartitionInfo,
    pub wifi_interface: Option<String>,
    pub ethernet_interface: String,
    pub hardware: Hardware,
    pub datadir: Seq<char>,
    pub disk_guid: Seq<char>,
    pub tor_socks: Seq<char>,
    pub db: DatabaseView,
    pub reconciliation: ReconcilePhase,
    pub continuations: Seq<SuspendedView>,
    pub start_time_ms: u64,
}

impl View for RpcContextSeed {
    type V = RpcContextView;

    closed spec fn view(&self) -> RpcContextView {
        RpcContextView {
            is_closed: self.is_closed,
            os_partitions: self.os_partitions,
            wifi_interface: self.wifi_interface,
            ethernet_interface: self.ethernet_interface,
            hardware: self.hardware,
            datadir: self.datadir@,
            disk_guid: self.disk_guid@,
            tor_socks: self.tor_socks@,
            db: self.db@,
            reconciliation: self.reconciliation,
            continuations: views(self.rpc_stream_continuations@),
            start_time_ms: self.start_time_ms,
        }
    }
}

impl View for RpcContext {
    type V = RpcContextView;

    open spec fn view(&self) -> RpcContextView {
        self.0@
    }
}

/// What a reconciliation is told.
#[derive(Debug)]
pub enum ReconcileEvent {
    /// The reconciliation is to begin.
    Begin,
    /// The work asked for has ended.
    Done(Result<(), Error>),
    /// The sweep has been made; the clean-up of these packages failed.
    Swept { failed: Vec<PackageId> },
    /// The dependencies have been checked.
    Checked(Result<Vec<DependencyReport>, Error>),
}

/// The mathematical value of a [`ReconcileEvent`].
pub enum ReconcileEventView {
    Begin,
    Done(Result<(), ErrorView>),
    Swept { failed: Seq<Seq<char>> },
    Checked(Result<Seq<DependencyReportView>, ErrorView>),
}

impl View for ReconcileEvent {
    type V = ReconcileEventView;

    open spec fn view(&self) -> ReconcileEventView {
        match self {
            ReconcileEvent::Begin => ReconcileEventView::Begin,
            ReconcileEvent::Done(r) => ReconcileEventView::Done(unit_view(*r)),
            ReconcileEvent::Swept { failed } => ReconcileEventView::Swept { failed: views(failed@) },
            ReconcileEvent::Checked(r) => ReconcileEventView::Checked(
                match r {
                    Ok(reports) => Ok(views(reports@)),
                    Err(e) => Err(e@),
                },
            ),
        }
    }
}

/// What a reconciliation asks for.
#[derive(Debug)]
pub enum ReconcileAction {
    /// Write the database of the context to the store, in one mutation.
    Save,
    /// Do these things, one after the other; where one fails, note its
    /// package and go on with the next.
    Sweep { plan: Vec<SweepAction> },
    /// Hand the database to the process managers, which set up a supervisor
    /// for each package.
    InitManagers,
    /// Check the configuration of the dependencies of each of these
    /// packages against the database.
    CheckDependencies { ids: Vec<PackageId> },
    /// The reconciliation has ended, with this outcome.
    Finish(Result<(), Error>),
}

/// The mathematical value of a [`ReconcileAction`].
pub enum ReconcileActionView {
    Save,
    Sweep { plan: Seq<SweepActionView> },
    InitManagers,
    CheckDependencies { ids: Seq<Seq<char>> },
    Finish(Result<(), ErrorView>),
}

impl View for ReconcileAction {
    type V = ReconcileActionView;

    open spec fn view(&self) -> ReconcileActionView {
        match self {
            ReconcileAction::Save => ReconcileActionView::Save,
            ReconcileAction::Sweep { plan } => ReconcileActionView::Sweep { plan: views(plan@) },
            ReconcileAction::InitManagers => ReconcileActionView::InitManagers,
            ReconcileAction::CheckDependencies { ids } => ReconcileActionView::CheckDependencies {
                ids: views(ids@),
            },
            ReconcileAction::Finish(r) => ReconcileActionView::Finish(unit_view(*r)),
        }
    }
}

/// The error for an event that does not answer the work asked for.
pub open spec fn out_of_turn() -> ErrorView {
    ErrorView { kind: ErrorKind::Unknown, message: "unexpected event"@ }
}

/// A reconciliation ends with an error.
pub open spec fn give_up(c: RpcContextView, e: ErrorView) -> (RpcContextView, ReconcileActionView) {
    (
        RpcContextView { reconciliation: ReconcilePhase::Failed, ..c },
        ReconcileActionView::Finish(Err(e)),
    )
}

/// A reconciliation goes on to another phase and asks for the database to
/// be saved.
pub open spec fn save_as(c: RpcContextView, db: DatabaseView, phase: ReconcilePhase) -> (
    RpcContextView,
    ReconcileActionView,
) {
    (RpcContextView { db, reconciliation: phase, ..c }, ReconcileActionView::Save)
}

/// What the reconciliation of a context does when it is told `e`: the
/// context after it, and what it asks for next.
///
/// It rebuilds the edges back and has the database saved; plans the sweep;
/// when the sweep has been made, takes the cleaned packages out, resets the
/// status of the installed ones and has the database saved; has the process
/// managers set up; has the dependencies of the installed packages checked;
/// writes what the checks found and has the database saved. An error of
/// the store, of the managers or of the checks ends it; a clean-up that
/// fails in the sweep does not.
pub open spec fn reconcile_step(c: RpcContextView, e: ReconcileEventView) -> (
    RpcContextView,
    ReconcileActionView,
) {
    match (c.reconciliation, e) {
        (ReconcilePhase::Finished, _) => (c, ReconcileActionView::Finish(Ok(()))),
        (ReconcilePhase::Idle, ReconcileEventView::Begin) => save_as(
            c,
            rebuilt(c.db),
            ReconcilePhase::SavingDependents,
        ),
        (ReconcilePhase::SavingDependents, ReconcileEventView::Done(Ok(_))) => (
            RpcContextView { reconciliation: ReconcilePhase::Sweeping, ..c },
            ReconcileActionView::Sweep {
                plan: c.db.package_data.map_values(sweep_action_of(c.datadir)),
            },
        ),
        (ReconcilePhase::Sweeping, ReconcileEventView::Swept { failed }) => save_as(
            c,
            reset(swept(c.db, failed)),
            ReconcilePhase::SavingStatus,
        ),
        (ReconcilePhase::SavingStatus, ReconcileEventView::Done(Ok(_))) => (
            RpcContextView { reconciliation: ReconcilePhase::InitializingManagers, ..c },
            ReconcileActionView::InitManagers,
        ),
        (ReconcilePhase::InitializingManagers, ReconcileEventView::Done(Ok(_))) => (
            RpcContextView { reconciliation: ReconcilePhase::CheckingDependencies, ..c },
            ReconcileActionView::CheckDependencies { ids: installed_ids(c.db.package_data) },
        ),
        (ReconcilePhase::CheckingDependencies, ReconcileEventView::Checked(Ok(reports))) => save_as(
            c,
            with_reports(c.db, reports),
            ReconcilePhase::SavingReports,
        ),
        (ReconcilePhase::CheckingDependencies, ReconcileEventView::Checked(Err(err))) => give_up(
            c,
            err,
        ),
        (ReconcilePhase::SavingReports, ReconcileEventView::Done(Ok(_))) => (
            RpcContextView { reconciliation: ReconcilePhase::Finished, ..c },
            ReconcileActionView::Finish(Ok(())),
        ),
        (
            ReconcilePhase::SavingDependents
            | ReconcilePhase::SavingStatus
            | ReconcilePhase::InitializingManagers
            | ReconcilePhase::SavingReports,
            ReconcileEventView::Done(Err(err)),
        ) => give_up(c, err),
        _ => give_up(c, out_of_turn()),
    }
}

/// The handler kept under an identifier, given up if it is of the kind
/// asked for, or of any kind where none is asked for, and its time has not
/// run out.
pub open spec fn handler_for(
    held: Seq<SuspendedView>,
    guid: Seq<char>,
    kind: Option<ContinuationKind>,
    now_ms: u64,
) -> Option<RestHandler> {
    match lookup(held, guid) {
        Some(c) => if kind is None || kind == Some(c.kind) {
            c.handler_at(now_ms)
        } else {
            None
        },
        None => None,
    }
}

/// The handlers that are kept after one has been asked for: all but the one
/// under the identifier, if that one is of the kind asked for.
pub open spec fn held_after(
    held: Seq<SuspendedView>,
    guid: Seq<char>,
    kind: Option<ContinuationKind>,
) -> Seq<SuspendedView> {
    match lookup(held, guid) {
        Some(c) => if kind is None || kind == Some(c.kind) {
            taken(held, guid)
        } else {
            held
        },
        None => held,
    }
}

/// A context as it comes up: open, with the directories and addresses of
/// the configuration, no suspended handler, and a reconciliation that has
/// not begun.
pub open spec fn fresh_context(
    config: RpcContextConfig,
    disk_guid: Seq<char>,
    db: DatabaseView,
    hardware: Hardware,
    start_time_ms: u64,
) -> RpcContextView {
    RpcContextView {
        is_closed: false,
        os_partitions: config.os_partitions,
        wifi_interface: config.wifi_interface,
        ethernet_interface: config.ethernet_interface,
        hardware,
        datadir: config.datadir_text(),
        disk_guid,
        tor_socks: config.tor_socks_text(),
        db,
        reconciliation: ReconcilePhase::Idle,
        continuations: Seq::empty(),
        start_time_ms,
    }
}

/// A context comes up with no suspended handler, and so with no identifier
/// that stands twice; every way in which the context works on its handlers
/// keeps it so.
pub proof fn law_fresh_context_has_distinct_guids(
    config: RpcContextConfig,
    disk_guid: Seq<char>,
    db: DatabaseView,
    hardware: Hardware,
    start_time_ms: u64,
)
    ensures
        distinct_guids(fresh_context(config, disk_guid, db, hardware, start_time_ms).continuations),
{
    assert(crate::context::continuations::guids_of(Seq::<SuspendedView>::empty()) =~= Seq::<
        Seq<char>,
    >::empty());
}

/// A whole reconciliation, in which nothing but clean-ups fails, leaves the
/// database as [`reconciled`](crate::reconcile::reconciled) says, and asks on
/// its way for the sweep that the rebuilt database calls for and for the
/// checks of the packages that are installed after the sweep.
pub proof fn law_reconciliation_reconciles(
    c: RpcContextView,
    failed: Seq<Seq<char>>,
    reports: Seq<DependencyReportView>,
)
    requires
        c.reconciliation is Idle,
    ensures
        ({
            let (c1, a1) = reconcile_step(c, ReconcileEventView::Begin);
            let (c2, a2) = reconcile_step(c1, ReconcileEventView::Done(Ok(())));
            let (c3, a3) = reconcile_step(c2, ReconcileEventView::Swept { failed });
            let (c4, a4) = reconcile_step(c3, ReconcileEventView::Done(Ok(())));
            let (c5, a5) = reconcile_step(c4, ReconcileEventView::Done(Ok(())));
            let (c6, a6) = reconcile_step(c5, ReconcileEventView::Checked(Ok(reports)));
            let (c7, a7) = reconcile_step(c6, ReconcileEventView::Done(Ok(())));
            &&& a1 is Save
            &&& a2 == (ReconcileActionView::Sweep {
                plan: rebuilt(c.db).package_data.map_values(sweep_action_of(c.datadir)),
            })
            &&& a3 is Save
            &&& a4 is InitManagers
            &&& a5 == (ReconcileActionView::CheckDependencies {
                ids: installed_ids(reset(swept(rebuilt(c.db), failed)).package_data),
            })
            &&& a6 is Save
            &&& a7 == ReconcileActionView::Finish(Ok(()))
            &&& c7 == (RpcContextView {
                db: crate::reconcile::reconciled(c.db, failed, reports),
                reconciliation: ReconcilePhase::Finished,
                ..c
            })
        }),
{
}

impl RpcContextSeed {
    /// What a context holds when it comes up.
    pub fn new(
        config: RpcContextConfig,
        disk_guid: String,
        db: Database,
        hardware: Hardware,
        start_time_ms: u64,
    ) -> (seed: RpcContextSeed)
        ensures
            seed@ == fresh_context(config, disk_guid@, db@, hardware, start_time_ms),
    {
        let datadir = String::from_str(config.datadir());
        let tor_socks = String::from_str(config.tor_socks());
        let seed = RpcContextSeed {
            is_closed: false,
            os_partitions: config.os_partitions,
            wifi_interface: config.wifi_interface,
            ethernet_interface: config.ethernet_interface,
            datadir,
            disk_guid,
            db,
            reconciliation: ReconcilePhase::Idle,
            tor_socks,
            rpc_stream_continuations: Vec::new(),
            hardware,
            start_time_ms,
        };
        assert(seed@.continuations =~= Seq::empty());
        seed
    }
}

impl RpcContext {
    /// Whether the context has been shut down.
    pub fn is_closed(&self) -> (closed: bool)
        ensures
            closed == self@.is_closed,
    {
        self.0.is_closed
    }

    /// What the context holds. A context that has been shut down is not to
    /// be used any more.
    pub fn deref(&self) -> (seed: &RpcContextSeed)
        requires
            !self@.is_closed,
        ensures
            seed@ == self@,
    {
        &self.0
    }

    /// Shuts the context down, once the process managers have been asked to
    /// stop all packages; `emptied` says how that ended. Where it ended well
    /// the context is closed from now on. Where it failed the context stays
    /// open as it is and the error is handed on.
    pub fn shutdown(&mut self, emptied: Result<(), Error>) -> (done: Result<(), Error>)
        requires
            !old(self)@.is_closed,
        ensures
            match emptied {
                Ok(_) => done is Ok && final(self)@ == (RpcContextView {
                    is_closed: true,
                    ..old(self)@
                }),
                Err(e) => done == Err::<(), Error>(e) && final(self)@ == old(self)@,
            },
    {
        match emptied {
            Ok(_) => {
                self.0.is_closed = true;
                Ok(())
            },
            Err(e) => Err(e),
        }
    }

    fn give_up(&mut self, e: Error) -> (action: ReconcileAction)
        ensures
            (final(self)@, action@) == give_up(old(self)@, e@),
    {
        self.0.reconciliation = ReconcilePhase::Failed;
        ReconcileAction::Finish(Err(e))
    }

    fn give_up_out_of_turn(&mut self) -> (action: ReconcileAction)
        ensures
            (final(self)@, action@) == give_up(old(self)@, out_of_turn()),
    {
        self.give_up(Error::new(ErrorKind::Unknown, "unexpected event"))
    }

    /// Takes the reconciliation of the context one step further: from what
    /// it is told to what it asks for next.
    pub fn cleanup_and_initialize(&mut self, event: ReconcileEvent) -> (action: ReconcileAction)
        requires
            !old(self)@.is_closed,
        ensures
            (final(self)@, action@) == reconcile_step(old(self)@, event@),
    {
        match self.0.reconciliation {
            ReconcilePhase::Finished => ReconcileAction::Finish(Ok(())),
            ReconcilePhase::Idle => match event {
                ReconcileEvent::Begin => {
                    rebuild_dependents(&mut self.0.db);
                    self.0.reconciliation = ReconcilePhase::SavingDependents;
                    ReconcileAction::Save
                },
                _ => self.give_up_out_of_turn(),
            },
            ReconcilePhase::SavingDependents => match event {
                ReconcileEvent::Done(Ok(_)) => {
                    self.0.reconciliation = ReconcilePhase::Sweeping;
                    let plan = plan_sweep(&self.0.db, self.0.datadir.as_str());
                    ReconcileAction::Sweep { plan }
                },
                ReconcileEvent::Done(Err(e)) => self.give_up(e),
                _ => self.give_up_out_of_turn(),
            },
            ReconcilePhase::Sweeping => match event {
                ReconcileEvent::Swept { failed } => {
                    finish_sweep(&mut self.0.db, &failed);
                    reset_main_status(&mut self.0.db);
                    self.0.reconciliation = ReconcilePhase::SavingStatus;
                    ReconcileAction::Save
                },
                _ => self.give_up_out_of_turn(),
            },
            ReconcilePhase::SavingStatus => match event {
                ReconcileEvent::Done(Ok(_)) => {
                    self.0.reconciliation = ReconcilePhase::InitializingManagers;
                    ReconcileAction::InitManagers
                },
                ReconcileEvent::Done(Err(e)) => self.give_up(e),
                _ => self.give_up_out_of_turn(),
            },
            ReconcilePhase::InitializingManagers => match event {
                ReconcileEvent::Done(Ok(_)) => {
                    self.0.reconciliation = ReconcilePhase::CheckingDependencies;
                    let ids = dependency_checks(&self.0.db);
                    ReconcileAction::CheckDependencies { ids }
                },
                ReconcileEvent::Done(Err(e)) => self.give_up(e),
                _ => self.give_up_out_of_turn(),
            },
            ReconcilePhase::CheckingDependencies => match event {
                ReconcileEvent::Checked(Ok(reports)) => {
                    write_reports(&mut self.0.db, &reports);
                    self.0.reconciliation = ReconcilePhase::SavingReports;
                    ReconcileAction::Save
                },
                ReconcileEvent::Checked(Err(e)) => self.give_up(e),
                _ => self.give_up_out_of_turn(),
            },
            ReconcilePhase::SavingReports => match event {
                ReconcileEvent::Done(Ok(_)) => {
                    self.0.reconciliation = ReconcilePhase::Finished;
                    ReconcileAction::Finish(Ok(()))
                },
                ReconcileEvent::Done(Err(e)) => self.give_up(e),
                _ => self.give_up_out_of_turn(),
            },
            ReconcilePhase::Failed => self.give_up_out_of_turn(),
        }
    }

    /// Drops the suspended handlers whose time has run out at `now_ms`.
    pub fn clean_continuations(&mut self, now_ms: u64)
        requires
            !old(self)@.is_closed,
        ensures
            final(self)@ == (RpcContextView {
                continuations: cleaned(old(self)@.continuations, now_ms),
                ..old(self)@
            }),
            distinct_guids(old(self)@.continuations) ==> distinct_guids(final(self)@.continuations),
    {
        crate::context::continuations::clean(&mut self.0.rpc_stream_continuations, now_ms);
    }

    /// Keeps a handler under the identifier of its request, after the
    /// handlers whose time has run out have been dropped.
    pub fn add_continuation(&mut self, guid: RequestGuid, handler: RpcContinuation, now_ms: u64)
        requires
            !old(self)@.is_closed,
        ensures
            final(self)@ == (RpcContextView {
                continuations: inserted(
                    cleaned(old(self)@.continuations, now_ms),
                    guid@,
                    handler,
                ),
                ..old(self)@
            }),
            lookup(final(self)@.continuations, guid@) == Some(handler),
            distinct_guids(old(self)@.continuations) ==> distinct_guids(final(self)@.continuations),
    {
        self.clean_continuations(now_ms);
        crate::context::continuations::insert(&mut self.0.rpc_stream_continuations, guid, handler);
    }

    /// Takes the handler that is kept under an identifier. The handler is
    /// kept no longer; it is given up unless its time has run out.
    pub fn get_continuation_handler(&mut self, guid: &RequestGuid, now_ms: u64) -> (handler: Option<
        RestHandler,
    >)
        requires
            !old(self)@.is_closed,
        ensures
            handler == handler_for(old(self)@.continuations, guid@, None, now_ms),
            final(self)@ == (RpcContextView {
                continuations: held_after(old(self)@.continuations, guid@, None),
                ..old(self)@
            }),
            distinct_guids(old(self)@.continuations) ==> distinct_guids(final(self)@.continuations)
                && lookup(final(self)@.continuations, guid@) is None,
    {
        match crate::context::continuations::take(&mut self.0.rpc_stream_continuations, guid) {
            Some(cont) => cont.into_handler(now_ms),
            None => None,
        }
    }

    fn get_handler_of_kind(&mut self, guid: &RequestGuid, kind: ContinuationKind, now_ms: u64) -> (handler:
        Option<RestHandler>)
        requires
            !old(self)@.is_closed,
        ensures
            handler == handler_for(old(self)@.continuations, guid@, Some(kind), now_ms),
            final(self)@ == (RpcContextView {
                continuations: held_after(old(self)@.continuations, guid@, Some(kind)),
                ..old(self)@
            }),
            distinct_guids(old(self)@.continuations) ==> distinct_guids(final(self)@.continuations),
            handler is Some && distinct_guids(old(self)@.continuations) ==> lookup(
                final(self)@.continuations,
                guid@,
            ) is None,
    {
        let of_kind = match crate::context::continuations::find(
            &self.0.rpc_stream_continuations,
            guid,
        ) {
            Some(i) => self.0.rpc_stream_continuations[i].continuation.kind == kind,
            None => false,
        };
        if of_kind {
            self.get_continuation_handler(guid, now_ms)
        } else {
            None
        }
    }

    /// Takes the handler that is kept under an identifier if it serves a
    /// web socket; any other handler stays where it is.
    pub fn get_ws_continuation_handler(&mut self, guid: &RequestGuid, now_ms: u64) -> (handler:
        Option<RestHandler>)
        requires
            !old(self)@.is_closed,
        ensures
            handler == handler_for(
                old(self)@.continuations,
                guid@,
                Some(ContinuationKind::WebSocket),
                now_ms,
            ),
            final(self)@ == (RpcContextView {
                continuations: held_after(
                    old(self)@.continuations,
                    guid@,
                    Some(ContinuationKind::WebSocket),
                ),
                ..old(self)@
            }),
            distinct_guids(old(self)@.continuations) ==> distinct_guids(final(self)@.continuations),
            handler is Some && distinct_guids(old(self)@.continuations) ==> lookup(
                final(self)@.continuations,
                guid@,
            ) is None,
    {
        self.get_handler_of_kind(guid, ContinuationKind::WebSocket, now_ms)
    }

    /// Takes the handler that is kept under an identifier if it serves a
    /// plain request; any other handler stays where it is.
    pub fn get_rest_continuation_handler(&mut self, guid: &RequestGuid, now_ms: u64) -> (handler:
        Option<RestHandler>)
        requires
            !old(self)@.is_closed,
        ensures
            handler == handler_for(
                old(self)@.continuations,
                guid@,
                Some(ContinuationKind::Rest),
                now_ms,
            ),
            final(self)@ == (RpcContextView {
                continuations: held_after(
                    old(self)@.continuations,
                    guid@,
                    Some(ContinuationKind::Rest),
                ),
                ..old(self)@
            }),
            distinct_guids(old(self)@.continuations) ==> distinct_guids(final(self)@.continuations),
            handler is Some && distinct_guids(old(self)@.continuations) ==> lookup(
                final(self)@.continuations,
                guid@,
            ) is None,
    {
        self.get_handler_of_kind(guid, ContinuationKind::Rest, now_ms)
    }
}

} // verus!
