//! What holds of every installation, whatever it is told.

use crate::database::{lemma_with_broken, lemma_with_entry, lemma_without_broken};
use crate::error::ErrorView;
use crate::id::Version;
use crate::install::machine::{
    initial, ActionView, EventView, InstallerView, Phase, Source,
};
use crate::install::pipeline::{
    download_install_step, in_install_part, install_step, loader_succeeded,
};
use crate::model::{fresh_installed, DatabaseView, EntryView};
use vstd::prelude::*;

verus! {

/// The place of a phase in the order of the work.
pub open spec fn rank(phase: Phase) -> nat {
    match phase {
        Phase::Start => 0,
        Phase::EnsuringCacheDir => 1,
        Phase::OpeningCached => 2,
        Phase::ReadingCached => 3,
        Phase::ReplacingCache => 4,
        Phase::Downloading => 5,
        Phase::Rewinding => 6,
        Phase::OpeningArchive => 7,
        Phase::Validating => 8,
        Phase::CheckingEntry => 9,
        Phase::ReadingManifest => 10,
        Phase::CreatingPublicDir => 11,
        Phase::UnpackingLicense => 12,
        Phase::UnpackingIcon => 13,
        Phase::LoadingImages => 14,
        Phase::ProbingInstructions => 15,
        Phase::UnpackingInstructions => 16,
        Phase::BeginningTransaction => 17,
        Phase::InstallingMain => 18,
        Phase::InstallingInterfaces => 19,
        Phase::Committing => 20,
        Phase::MarkingBroken => 21,
        Phase::Finished => 22,
    }
}

/// The phases come one after the other: no step takes an installation back
/// to an earlier phase, and no step changes the package, the version or the
/// announced hash that it works on.
pub proof fn law_phases_in_order(s: InstallerView, e: EventView)
    ensures
        rank(download_install_step(s, e).0.phase) >= rank(s.phase),
        rank(install_step(s, e).0.phase) >= rank(s.phase),
        download_install_step(s, e).0.id == s.id,
        download_install_step(s, e).0.version == s.version,
        download_install_step(s, e).0.declared_hash == s.declared_hash,
        install_step(s, e).0.id == s.id,
        install_step(s, e).0.version == s.version,
{
    reveal(install_step);
    reveal(download_install_step);
}

/// No step takes a counter or a flag of the progress back.
pub proof fn law_progress_is_monotonic(s: InstallerView, e: EventView)
    ensures
        s.progress.advances_to(download_install_step(s, e).0.progress),
        s.progress.advances_to(install_step(s, e).0.progress),
{
    reveal(install_step);
    reveal(download_install_step);
}

/// An installation from a network source fails only after it has asked
/// for the package to be listed as broken: it ends with an error out of no
/// other phase than the one that waits for the listing.
pub proof fn law_failure_asks_for_listing(s: InstallerView, e: EventView)
    ensures
        ({
            let (t, a) = download_install_step(s, e);
            &&& t.failed() && !s.failed() ==> s.phase is MarkingBroken && e is Done
            &&& t.phase is MarkingBroken && !(s.phase is MarkingBroken) ==> a
                == (ActionView::MarkBroken { id: s.id }) && t.failure is Some
            &&& t.recorded_broken && !s.recorded_broken ==> s.phase is MarkingBroken && e is Done
                && e->Done_0 is Ok
        }),
{
    reveal(install_step);
    reveal(download_install_step);
}

/// The instructions are unpacked only where the archive has some: an
/// archive without them goes on to the transaction, and does not fail for it.
pub proof fn law_instructions_are_optional(s: InstallerView, e: EventView)
    ensures
        download_install_step(s, e).1 is UnpackInstructions ==> s.phase is ProbingInstructions
            && e == EventView::Found(Ok(true)),
        s.phase is ProbingInstructions && e == EventView::Found(Ok(false)) ==> ({
            let (t, a) = download_install_step(s, e);
            &&& t.phase is BeginningTransaction
            &&& t.failure == s.failure
            &&& t.progress.read_complete
            &&& a is BeginTransaction
        }),
{
    reveal(install_step);
    reveal(download_install_step);
}

/// An image loader that ends with anything but exit code zero, or with no
/// exit code at all, fails the installation with what it is.
pub proof fn law_loader_must_exit_zero(s: InstallerView, code: Option<i32>, stderr: Seq<u8>)
    requires
        s.phase is LoadingImages,
        !loader_succeeded(code),
    ensures
        ({
            let (t, a) = install_step(s, EventView::ImagesLoaded(Ok((code, stderr))));
            &&& t.failed()
            &&& t.failure == Some(crate::install::pipeline::loader_error(stderr))
            &&& a == ActionView::Finish(Err(crate::install::pipeline::loader_error(stderr)))
        }),
        download_install_step(s, EventView::ImagesLoaded(Ok((code, stderr)))).1
            == (ActionView::MarkBroken { id: s.id }),
{
    reveal(install_step);
    reveal(download_install_step);
}

/// An installation together with the work it waits for and the database
/// that the work is done on.
pub struct Run {
    pub installer: InstallerView,
    /// The work asked for last.
    pub pending: ActionView,
    pub db: DatabaseView,
}

/// The database after the work `asked` has been answered with `e`: a
/// listing that has been done lists the package as broken; a commit that
/// has been done writes the entry and takes the package off the list;
/// nothing else changes the database.
pub open spec fn db_after(db: DatabaseView, asked: ActionView, e: EventView) -> DatabaseView {
    match (asked, e) {
        (ActionView::MarkBroken { id }, EventView::Done(Ok(_))) => db.with_broken(id),
        (ActionView::Commit { id, entry }, EventView::Done(Ok(_))) => db.with_entry(
            id,
            entry,
        ).without_broken(id),
        _ => db,
    }
}

/// A run after the installation has been told `e` in answer to the work
/// that it waits for.
pub open spec fn told(r: Run, e: EventView) -> Run {
    let (installer, action) = download_install_step(r.installer, e);
    Run {
        installer,
        pending: if action is Continue {
            r.pending
        } else {
            action
        },
        db: db_after(r.db, r.pending, e),
    }
}

/// A run after the installation has been told a sequence of events.
pub open spec fn told_all(r: Run, events: Seq<EventView>) -> Run
    decreases events.len(),
{
    if events.len() == 0 {
        r
    } else {
        told(told_all(r, events.drop_last()), events.last())
    }
}

/// The run of an installation that has not begun.
pub open spec fn fresh_run(
    id: Seq<char>,
    version: Version,
    size: Option<u64>,
    declared_hash: Option<Seq<u8>>,
    db: DatabaseView,
) -> Run {
    Run { installer: initial(id, version, size, declared_hash), pending: ActionView::Continue, db }
}

/// What holds at every point of a run that began with an installation that
/// had not begun, on a well-formed database.
pub open spec fn sound(r: Run) -> bool {
    let s = r.installer;
    &&& r.db.wf()
    &&& s.phase is Committing ==> s.manifest is Some && s.ip is Some && r.pending == (
    ActionView::Commit { id: s.id, entry: fresh_installed(s.manifest.unwrap(), s.ip.unwrap()) })
    &&& s.phase is MarkingBroken ==> r.pending == (ActionView::MarkBroken { id: s.id })
    &&& r.pending is Commit ==> s.phase is Committing
    &&& r.pending is MarkBroken ==> s.phase is MarkingBroken
    &&& s.failure is Some ==> s.phase is MarkingBroken || s.phase is Finished
    &&& s.phase is MarkingBroken ==> s.failure is Some
    &&& s.recorded_broken ==> s.failed() && r.db.is_broken(s.id)
    &&& s.source is Download || s.progress.downloaded == 0
    &&& rank(s.phase) <= rank(Phase::ReadingCached) ==> s.source is Undecided
    &&& rank(s.phase) <= rank(Phase::Validating) ==> s.validated_bytes is None
    &&& rank(Phase::Rewinding) <= rank(s.phase) <= rank(Phase::OpeningArchive)
        ==> s.progress.download_complete
    &&& rank(Phase::ReplacingCache) <= rank(s.phase) <= rank(Phase::OpeningArchive)
        ==> s.source is Download
    &&& s.source is Cache ==> s.declared_hash is Some
    &&& in_install_part(s.phase) || s.succeeded() ==> s.progress.download_complete && !(
    s.source is Undecided)
    &&& match s.validated_bytes {
        Some(total) => s.progress.validated == total,
        None => s.progress.validated == 0,
    }
    &&& (in_install_part(s.phase) && rank(s.phase) > rank(Phase::Validating)) || s.succeeded()
        ==> s.validated_bytes is Some
    &&& (in_install_part(s.phase) && rank(s.phase) > rank(Phase::ReadingManifest))
        || s.succeeded() ==> s.manifest is Some
    &&& (in_install_part(s.phase) && rank(s.phase) > rank(Phase::UnpackingInstructions))
        || s.succeeded() ==> s.progress.read_complete
    &&& (in_install_part(s.phase) && rank(s.phase) > rank(Phase::InstallingMain)) || s.succeeded()
        ==> s.ip is Some
    &&& s.succeeded() ==> r.db.has(s.id) && r.db.entry(s.id) == fresh_installed(
        s.manifest.unwrap(),
        s.ip.unwrap(),
    ) && !r.db.is_broken(s.id)
}

proof fn lemma_told_keeps_sound(r: Run, e: EventView)
    requires
        sound(r),
    ensures
        sound(told(r, e)),
{
    reveal(install_step);
    reveal(download_install_step);
    let s = r.installer;
    let after = told(r, e);
    match (r.pending, e) {
        (ActionView::MarkBroken { id }, EventView::Done(Ok(_))) => {
            lemma_with_broken(r.db, id);
        },
        (ActionView::Commit { id, entry }, EventView::Done(Ok(_))) => {
            lemma_with_entry(r.db, id, entry);
            lemma_without_broken(r.db.with_entry(id, entry), id);
        },
        _ => {},
    }
}

/// What an installation has done to the database that it began on: it has
/// written the entry of its package and taken the package off the list of
/// broken packages if it has ended well; it has listed the package as
/// broken if it has recorded its failure; and otherwise it has done nothing.
pub open spec fn db_follows(began: DatabaseView, r: Run) -> bool {
    let s = r.installer;
    if s.succeeded() {
        s.manifest is Some && s.ip is Some && r.db == began.with_entry(
            s.id,
            fresh_installed(s.manifest.unwrap(), s.ip.unwrap()),
        ).without_broken(s.id)
    } else if s.recorded_broken {
        r.db == began.with_broken(s.id)
    } else {
        r.db == began
    }
}

proof fn lemma_told_follows(began: DatabaseView, r: Run, e: EventView)
    requires
        sound(r),
        db_follows(began, r),
    ensures
        db_follows(began, told(r, e)),
{
    reveal(install_step);
    reveal(download_install_step);
}

proof fn lemma_run_follows(began: DatabaseView, r: Run, events: Seq<EventView>)
    requires
        sound(r),
        db_follows(began, r),
    ensures
        sound(told_all(r, events)),
        db_follows(began, told_all(r, events)),
    decreases events.len(),
{
    if events.len() > 0 {
        lemma_run_follows(began, r, events.drop_last());
        lemma_told_keeps_sound(told_all(r, events.drop_last()), events.last());
        lemma_told_follows(began, told_all(r, events.drop_last()), events.last());
    }
}

/// An installation writes to the database at most once, and only what is
/// its own: whatever it is told, the database is at every point the one it
/// began on, or that one with the package installed and off the list of
/// broken packages, where the installation has ended well, or that one with
/// the package listed as broken, where it has recorded its failure.
pub proof fn law_install_writes_only_its_package(
    id: Seq<char>,
    version: Version,
    size: Option<u64>,
    declared_hash: Option<Seq<u8>>,
    db: DatabaseView,
    events: Seq<EventView>,
)
    requires
        db.wf(),
    ensures
        db_follows(db, told_all(fresh_run(id, version, size, declared_hash, db), events)),
        told_all(fresh_run(id, version, size, declared_hash, db), events).installer.id == id,
{
    let r0 = fresh_run(id, version, size, declared_hash, db);
    lemma_run_follows(db, r0, events);
    lemma_run_keeps_package(r0, events);
}

proof fn lemma_run_is_sound(r: Run, events: Seq<EventView>)
    requires
        sound(r),
    ensures
        sound(told_all(r, events)),
    decreases events.len(),
{
    if events.len() > 0 {
        lemma_run_is_sound(r, events.drop_last());
        lemma_told_keeps_sound(told_all(r, events.drop_last()), events.last());
    }
}

/// After an installation has ended well, whatever it was told on the way,
/// the database holds the package as installed, stopped, with the manifest
/// that was read and the address that was allotted, and does not list it as
/// broken; the download and the reading are complete; and the hash has been
/// checked, over as many bytes as the progress says.
pub proof fn law_success_installs(
    id: Seq<char>,
    version: Version,
    size: Option<u64>,
    declared_hash: Option<Seq<u8>>,
    db: DatabaseView,
    events: Seq<EventView>,
)
    requires
        db.wf(),
    ensures
        ({
            let r = told_all(fresh_run(id, version, size, declared_hash, db), events);
            r.installer.succeeded() ==> {
                &&& r.db.has(id)
                &&& r.db.entry(id) is Installed
                &&& r.installer.manifest is Some
                &&& r.installer.ip is Some
                &&& r.db.entry(id) == fresh_installed(
                    r.installer.manifest.unwrap(),
                    r.installer.ip.unwrap(),
                )
                &&& !r.db.is_broken(id)
                &&& r.installer.progress.download_complete
                &&& r.installer.progress.read_complete
                &&& r.installer.validated_bytes == Some(r.installer.progress.validated)
            }
        }),
{
    let r0 = fresh_run(id, version, size, declared_hash, db);
    lemma_run_is_sound(r0, events);
    lemma_run_keeps_package(r0, events);
}

/// After an installation has ended with an error, the package is listed as
/// broken, unless the database refused the listing; it refused if and only
/// if the installation has not recorded the listing.
pub proof fn law_failure_is_recorded(
    id: Seq<char>,
    version: Version,
    size: Option<u64>,
    declared_hash: Option<Seq<u8>>,
    db: DatabaseView,
    events: Seq<EventView>,
)
    requires
        db.wf(),
    ensures
        ({
            let r = told_all(fresh_run(id, version, size, declared_hash, db), events);
            r.installer.failed() && r.installer.recorded_broken ==> r.db.is_broken(id)
        }),
{
    let r0 = fresh_run(id, version, size, declared_hash, db);
    lemma_run_is_sound(r0, events);
    lemma_run_keeps_package(r0, events);
}

/// An installation that uses the cached archive downloads nothing: its
/// count of downloaded bytes is zero at every point, and so at its end.
pub proof fn law_cache_hit_downloads_nothing(
    id: Seq<char>,
    version: Version,
    size: Option<u64>,
    declared_hash: Option<Seq<u8>>,
    db: DatabaseView,
    events: Seq<EventView>,
)
    requires
        db.wf(),
    ensures
        ({
            let r = told_all(fresh_run(id, version, size, declared_hash, db), events);
            r.installer.source is Cache ==> r.installer.progress.downloaded == 0
        }),
{
    lemma_run_is_sound(fresh_run(id, version, size, declared_hash, db), events);
}

/// Where the source announced no hash the cached archive is never used: an
/// installation that gets as far as the archive has downloaded it.
pub proof fn law_no_announced_hash_forces_download(
    id: Seq<char>,
    version: Version,
    size: Option<u64>,
    db: DatabaseView,
    events: Seq<EventView>,
)
    requires
        db.wf(),
    ensures
        ({
            let r = told_all(fresh_run(id, version, size, None, db), events);
            &&& !(r.installer.source is Cache)
            &&& in_install_part(r.installer.phase) || r.installer.succeeded()
                ==> r.installer.source is Download
        }),
{
    let r0 = fresh_run(id, version, size, None, db);
    lemma_run_is_sound(r0, events);
    lemma_run_keeps_package(r0, events);
}

/// Over a whole run no counter and no flag of the progress is ever taken
/// back: what is observed after some of the events lies before what is
/// observed after all of them.
pub proof fn law_progress_over_a_run(r: Run, events: Seq<EventView>, seen: int)
    requires
        0 <= seen <= events.len(),
    ensures
        told_all(r, events.take(seen)).installer.progress.advances_to(
            told_all(r, events).installer.progress,
        ),
    decreases events.len() - seen,
{
    if seen == events.len() {
        assert(events.take(seen) =~= events);
    } else {
        law_progress_over_a_run(r, events, seen + 1);
        let longer = events.take(seen + 1);
        assert(longer.drop_last() =~= events.take(seen));
        assert(longer.last() == events[seen]);
        law_progress_is_monotonic(told_all(r, events.take(seen)).installer, events[seen]);
    }
}

proof fn lemma_run_keeps_package(r: Run, events: Seq<EventView>)
    ensures
        told_all(r, events).installer.id == r.installer.id,
        told_all(r, events).installer.declared_hash == r.installer.declared_hash,
    decreases events.len(),
{
    if events.len() > 0 {
        lemma_run_keeps_package(r, events.drop_last());
        law_phases_in_order(told_all(r, events.drop_last()).installer, events.last());
    }
}

/// The installer never takes an entry out of the database: a package that
/// has an entry before a step has one after it.
pub proof fn law_entries_are_kept(r: Run, e: EventView, package: Seq<char>)
    requires
        r.db.has(package),
    ensures
        told(r, e).db.has(package),
{
    match (r.pending, e) {
        (ActionView::MarkBroken { id }, EventView::Done(Ok(_))) => {
            lemma_with_broken(r.db, id);
        },
        (ActionView::Commit { id, entry }, EventView::Done(Ok(_))) => {
            let written = r.db.with_entry(id, entry);
            lemma_with_entry(r.db, id, entry);
            lemma_without_broken(written, id);
            assert(written.has(package)) by {
                if package != id {
                    assert(written.has(package) == r.db.has(package));
                }
            }
            assert(written.without_broken(id).package_data == written.package_data);
        },
        _ => {},
    }
}

} // verus!
