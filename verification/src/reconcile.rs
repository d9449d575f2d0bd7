//! Bringing the package database back to a consistent state at boot: the
//! edges between packages are rebuilt, what a crash left half done is cleaned
//! up, and every installed package begins anew.

pub mod laws;
pub mod sweep;

use crate::id::PackageId;
use crate::model::{
    first_index, views, Database, DatabaseView, Dependency, DependencyConfigError,
    DependencyConfigErrorView, DependencyView, EntryView, Package, PackageDataEntry, PackageView,
    StatusView,
};
use crate::model::{lemma_first_index_is, lemma_first_index_none};
use vstd::prelude::*;

verus! {

/// What is left of a list after a filter, when one more item is put behind
/// the list.
pub proof fn lemma_filter_push<T>(s: Seq<T>, x: T, keep: spec_fn(T) -> bool)
    ensures
        s.push(x).filter(keep) == if keep(x) {
            s.filter(keep).push(x)
        } else {
            s.filter(keep)
        },
{
    reveal(Seq::filter);
    assert(s.push(x).drop_last() =~= s);
}

/// What holds of every item of a list holds of every item that a filter
/// leaves of it.
pub proof fn lemma_filter_all<T>(s: Seq<T>, keep: spec_fn(T) -> bool, q: spec_fn(T) -> bool)
    requires
        forall|i: int| 0 <= i < s.len() ==> q(#[trigger] s[i]),
    ensures
        forall|i: int| 0 <= i < s.filter(keep).len() ==> q(#[trigger] s.filter(keep)[i]),
    decreases s.len(),
{
    reveal(Seq::filter);
    if s.len() > 0 {
        assert forall|i: int| 0 <= i < s.drop_last().len() implies q(
            #[trigger] s.drop_last()[i],
        ) by {
            assert(s.drop_last()[i] == s[i]);
        }
        lemma_filter_all(s.drop_last(), keep, q);
        let kept = s.drop_last().filter(keep);
        assert forall|i: int| 0 <= i < s.filter(keep).len() implies q(
            #[trigger] s.filter(keep)[i],
        ) by {
            if i < kept.len() {
                assert(s.filter(keep)[i] == kept[i]);
            } else {
                assert(s.filter(keep)[i] == s[s.len() - 1]);
            }
        }
    }
}

/// A filter leaves no key twice in a list that has none twice.
pub proof fn lemma_filter_keeps_distinct<T>(
    s: Seq<T>,
    key: spec_fn(T) -> Seq<char>,
    keep: spec_fn(T) -> bool,
)
    requires
        s.map_values(key).no_duplicates(),
    ensures
        s.filter(keep).map_values(key).no_duplicates(),
    decreases s.len(),
{
    reveal(Seq::filter);
    if s.len() > 0 {
        let front = s.drop_last();
        assert(front.map_values(key).no_duplicates()) by {
            assert forall|i: int, j: int|
                0 <= i < front.len() && 0 <= j < front.len() && i != j implies front.map_values(
                key,
            )[i] != front.map_values(key)[j] by {
                assert(front.map_values(key)[i] == s.map_values(key)[i]);
                assert(front.map_values(key)[j] == s.map_values(key)[j]);
            }
        }
        lemma_filter_keeps_distinct(front, key, keep);
        if keep(s.last()) {
            let other = |x: T| key(x) != key(s.last());
            assert forall|i: int| 0 <= i < front.len() implies other(#[trigger] front[i]) by {
                assert(s.map_values(key)[i] != s.map_values(key)[s.len() - 1]);
            }
            lemma_filter_all(front, keep, other);
            let kept = front.filter(keep);
            let all = kept.push(s.last());
            assert forall|i: int, j: int|
                0 <= i < all.len() && 0 <= j < all.len() && i != j implies all.map_values(key)[i]
                != all.map_values(key)[j] by {
                if i < kept.len() && j < kept.len() {
                    assert(kept.map_values(key)[i] != kept.map_values(key)[j]);
                } else if i < kept.len() {
                    assert(other(kept[i]));
                } else {
                    assert(other(kept[j]));
                }
            }
        }
    } else {
        assert(s.filter(keep) =~= s);
    }
}

/// The targets of a list of edges.
pub open spec fn edge_ids(edges: Seq<DependencyView>) -> Seq<Seq<char>> {
    edges.map_values(|e: DependencyView| e.id)
}

/// The range of versions that a list of edges asks of a package: that of the
/// first edge to it.
pub open spec fn range_of(edges: Seq<DependencyView>, target: Seq<char>) -> Option<Seq<char>> {
    match first_index(edge_ids(edges), target) {
        Some(i) => Some(edges[i].range),
        None => None,
    }
}

/// The packages that a package depends on: those that its entry names if it
/// is installed, none otherwise.
pub open spec fn dependencies_of(entry: EntryView) -> Seq<DependencyView> {
    match entry {
        EntryView::Installed { current_dependencies, .. } => current_dependencies,
        _ => Seq::empty(),
    }
}

/// Whether a package depends on `target`.
pub open spec fn depends_on(target: Seq<char>) -> spec_fn(PackageView) -> bool {
    |p: PackageView| range_of(dependencies_of(p.entry), target) is Some
}

/// The edge that leads back from `target` to a package that depends on it.
pub open spec fn edge_back(target: Seq<char>) -> spec_fn(PackageView) -> DependencyView {
    |p: PackageView|
        DependencyView { id: p.id, range: range_of(dependencies_of(p.entry), target).unwrap() }
}

/// The packages that depend on `target`, in the order of the database, each
/// with the range of versions that it asks for.
pub open spec fn dependents_of(packages: Seq<PackageView>, target: Seq<char>) -> Seq<
    DependencyView,
> {
    packages.filter(depends_on(target)).map_values(edge_back(target))
}

/// An entry with other edges leading back to it. Only installed packages
/// and packages that are being removed keep such edges.
pub open spec fn with_dependents(entry: EntryView, dependents: Seq<DependencyView>) -> EntryView {
    match entry {
        EntryView::Installed { manifest, ip, status, current_dependencies, current_dependents } => {
            EntryView::Installed {
                manifest,
                ip,
                status,
                current_dependencies,
                current_dependents: dependents,
            }
        },
        EntryView::Removing { manifest, current_dependents } => EntryView::Removing {
            manifest,
            current_dependents: dependents,
        },
        other => other,
    }
}

/// A package with the edges that lead back to it in a list of packages.
pub open spec fn with_edges_of(packages: Seq<PackageView>) -> spec_fn(PackageView) -> PackageView {
    |p: PackageView|
        PackageView { id: p.id, entry: with_dependents(p.entry, dependents_of(packages, p.id)) }
}

/// The database with the edges back rebuilt from the edges forward: every
/// package is listed as a dependent by exactly the packages that its
/// installed dependents name it in.
pub open spec fn rebuilt(db: DatabaseView) -> DatabaseView {
    DatabaseView { package_data: db.package_data.map_values(with_edges_of(db.package_data)), ..db }
}

/// Whether a package is still in the database after the sweep: installed
/// packages stay, all others leave unless their clean-up failed.
pub open spec fn survives(failed: Seq<Seq<char>>) -> spec_fn(PackageView) -> bool {
    |p: PackageView| p.entry is Installed || first_index(failed, p.id) is Some
}

/// The database after the sweep, where the clean-up of the packages in
/// `failed` has failed and that of all others has been done.
pub open spec fn swept(db: DatabaseView, failed: Seq<Seq<char>>) -> DatabaseView {
    DatabaseView { package_data: db.package_data.filter(survives(failed)), ..db }
}

/// The entry of a package as it begins after a boot: an installed package
/// is about to run if it ran before, and stopped if it did not.
pub open spec fn restarted(entry: EntryView) -> EntryView {
    match entry {
        EntryView::Installed { manifest, ip, status, current_dependencies, current_dependents } => {
            EntryView::Installed {
                manifest,
                ip,
                status: StatusView { main: status.main.after_boot(), ..status },
                current_dependencies,
                current_dependents,
            }
        },
        other => other,
    }
}

/// The database with the status of every installed package reset.
pub open spec fn reset(db: DatabaseView) -> DatabaseView {
    DatabaseView {
        package_data: db.package_data.map_values(
            |p: PackageView| PackageView { id: p.id, entry: restarted(p.entry) },
        ),
        ..db
    }
}

/// What the check of a package's dependencies found.
#[derive(Debug)]
pub struct DependencyReport {
    pub id: PackageId,
    pub errors: Vec<DependencyConfigError>,
}

/// The mathematical value of a [`DependencyReport`].
pub struct DependencyReportView {
    pub id: Seq<char>,
    pub errors: Seq<DependencyConfigErrorView>,
}

impl View for DependencyReport {
    type V = DependencyReportView;

    open spec fn view(&self) -> DependencyReportView {
        DependencyReportView { id: self.id@, errors: views(self.errors@) }
    }
}

/// The packages that a list of reports is about.
pub open spec fn report_ids(reports: Seq<DependencyReportView>) -> Seq<Seq<char>> {
    reports.map_values(|r: DependencyReportView| r.id)
}

/// What the reports say of a package: the errors of the first report about
/// it.
pub open spec fn reported(reports: Seq<DependencyReportView>, id: Seq<char>) -> Option<
    Seq<DependencyConfigErrorView>,
> {
    match first_index(report_ids(reports), id) {
        Some(i) => Some(reports[i].errors),
        None => None,
    }
}

/// A package with what the reports say of it written into its status. Only
/// installed packages have such a status.
pub open spec fn with_report(reports: Seq<DependencyReportView>) -> spec_fn(
    PackageView,
) -> PackageView {
    |p: PackageView|
        match (p.entry, reported(reports, p.id)) {
            (
                EntryView::Installed {
                    manifest,
                    ip,
                    status,
                    current_dependencies,
                    current_dependents,
                },
                Some(errors),
            ) => PackageView {
                id: p.id,
                entry: EntryView::Installed {
                    manifest,
                    ip,
                    status: StatusView { dependency_config_errors: errors, ..status },
                    current_dependencies,
                    current_dependents,
                },
            },
            _ => p,
        }
}

/// The database with the reports written into it.
pub open spec fn with_reports(db: DatabaseView, reports: Seq<DependencyReportView>) -> DatabaseView {
    DatabaseView { package_data: db.package_data.map_values(with_report(reports)), ..db }
}

/// The installed packages, whose dependencies are checked.
pub open spec fn installed_ids(packages: Seq<PackageView>) -> Seq<Seq<char>> {
    packages.filter(|p: PackageView| p.entry is Installed).map_values(|p: PackageView| p.id)
}

/// The database after a whole reconciliation, where the clean-up of the
/// packages in `failed` has failed and the checks of the dependencies have
/// given `reports`.
pub open spec fn reconciled(
    db: DatabaseView,
    failed: Seq<Seq<char>>,
    reports: Seq<DependencyReportView>,
) -> DatabaseView {
    with_reports(reset(swept(rebuilt(db), failed)), reports)
}

/// Finds the first edge to a package.
pub fn find_edge(edges: &Vec<Dependency>, target: &PackageId) -> (at: Option<usize>)
    ensures
        match at {
            Some(i) => i < edges@.len() && first_index(edge_ids(views(edges@)), target@) == Some(
                i as int,
            ),
            None => first_index(edge_ids(views(edges@)), target@) is None,
        },
{
    let mut i: usize = 0;
    while i < edges.len()
        invariant
            i <= edges@.len(),
            forall|j: int| 0 <= j < i ==> #[trigger] edge_ids(views(edges@))[j] != target@,
        decreases edges@.len() - i,
    {
        if edges[i].id.same(target) {
            proof {
                lemma_first_index_is(edge_ids(views(edges@)), target@, i as int);
            }
            return Some(i);
        }
        i += 1;
    }
    proof {
        lemma_first_index_none(edge_ids(views(edges@)), target@);
    }
    None
}

/// The edge that leads back from `target` to a package, if the package
/// depends on it.
fn edge_from(package: &Package, target: &PackageId) -> (edge: Option<Dependency>)
    ensures
        edge is Some == depends_on(target@)(package@),
        edge matches Some(e) ==> e@ == edge_back(target@)(package@),
{
    match &package.entry {
        PackageDataEntry::Installed { current_dependencies, .. } => {
            match find_edge(current_dependencies, target) {
                Some(i) => Some(
                    Dependency {
                        id: package.id.clone(),
                        range: current_dependencies[i].range.clone(),
                    },
                ),
                None => None,
            }
        },
        _ => {
            assert(edge_ids(Seq::<DependencyView>::empty()) =~= Seq::<Seq<char>>::empty());
            None
        },
    }
}

/// Collects the packages that depend on `target`.
pub fn dependents(packages: &Vec<Package>, target: &PackageId) -> (edges: Vec<Dependency>)
    ensures
        views(edges@) == dependents_of(views(packages@), target@),
{
    let mut edges: Vec<Dependency> = Vec::new();
    let mut i: usize = 0;
    assert(views(packages@).take(0) =~= Seq::<PackageView>::empty());
    assert(Seq::<PackageView>::empty().filter(depends_on(target@)) =~= Seq::<PackageView>::empty())
        by {
        reveal(Seq::filter);
    }
    while i < packages.len()
        invariant
            i <= packages@.len(),
            views(edges@) == dependents_of(views(packages@).take(i as int), target@),
        decreases packages@.len() - i,
    {
        let ghost before = views(packages@).take(i as int);
        proof {
            assert(views(packages@).take(i + 1) =~= before.push(packages@[i as int]@));
            lemma_filter_push(before, packages@[i as int]@, depends_on(target@));
        }
        let ghost had = views(edges@);
        match edge_from(&packages[i], target) {
            Some(edge) => {
                edges.push(edge);
                assert(views(edges@) =~= had.push(edge@));
                assert(before.filter(depends_on(target@)).push(packages@[i as int]@).map_values(
                    edge_back(target@),
                ) =~= had.push(edge@));
            },
            None => {},
        }
        i += 1;
    }
    assert(views(packages@).take(packages@.len() as int) =~= views(packages@));
    edges
}

fn set_dependents(entry: &mut PackageDataEntry, dependents: Vec<Dependency>)
    ensures
        final(entry)@ == with_dependents(old(entry)@, views(dependents@)),
{
    match entry {
        PackageDataEntry::Installed { current_dependents, .. } => {
            *current_dependents = dependents;
        },
        PackageDataEntry::Removing { current_dependents, .. } => {
            *current_dependents = dependents;
        },
        _ => {},
    }
}

/// Rebuilds the edges back from the edges forward.
pub fn rebuild_dependents(db: &mut Database)
    ensures
        final(db)@ == rebuilt(old(db)@),
{
    let ghost before = db@.package_data;
    let mut all: Vec<Vec<Dependency>> = Vec::new();
    let mut i: usize = 0;
    while i < db.package_data.len()
        invariant
            *db == *old(db),
            before == db@.package_data,
            i <= db.package_data@.len(),
            all@.len() == i,
            forall|j: int|
                0 <= j < i ==> views((#[trigger] all@[j])@) == dependents_of(before, before[j].id),
        decreases db.package_data@.len() - i,
    {
        let edges = dependents(&db.package_data, &db.package_data[i].id);
        all.push(edges);
        i += 1;
    }
    while i > 0
        invariant
            i <= db.package_data@.len(),
            db.package_data@.len() == before.len(),
            db.broken_packages == old(db).broken_packages,
            db.ntp_synced == old(db).ntp_synced,
            all@.len() == i,
            forall|j: int|
                0 <= j < i ==> views((#[trigger] all@[j])@) == dependents_of(before, before[j].id),
            forall|j: int| 0 <= j < i ==> (#[trigger] db.package_data@[j])@ == before[j],
            forall|j: int|
                i <= j < before.len() ==> (#[trigger] db.package_data@[j])@ == with_edges_of(
                    before,
                )(before[j]),
        decreases i,
    {
        i -= 1;
        let edges = all.pop().unwrap();
        set_dependents(&mut db.package_data[i].entry, edges);
    }
    assert(db@.package_data =~= rebuilt(old(db)@).package_data);
}

fn restart(entry: &mut PackageDataEntry)
    ensures
        final(entry)@ == restarted(old(entry)@),
{
    match entry {
        PackageDataEntry::Installed { status, .. } => {
            status.main = status.main.reset();
        },
        _ => {},
    }
}

/// Resets the status of every installed package: about to run if it ran
/// before, stopped if it did not.
pub fn reset_main_status(db: &mut Database)
    ensures
        final(db)@ == reset(old(db)@),
{
    let ghost before = db@.package_data;
    let mut i: usize = 0;
    while i < db.package_data.len()
        invariant
            i <= db.package_data@.len(),
            db.package_data@.len() == before.len(),
            db.broken_packages == old(db).broken_packages,
            db.ntp_synced == old(db).ntp_synced,
            forall|j: int| i <= j < before.len() ==> (#[trigger] db.package_data@[j])@ == before[j],
            forall|j: int|
                0 <= j < i ==> (#[trigger] db.package_data@[j])@ == (PackageView {
                    id: before[j].id,
                    entry: restarted(before[j].entry),
                }),
        decreases db.package_data@.len() - i,
    {
        restart(&mut db.package_data[i].entry);
        i += 1;
    }
    assert(db@.package_data =~= reset(old(db)@).package_data);
}

/// Lists the installed packages, whose dependencies are to be checked.
pub fn dependency_checks(db: &Database) -> (ids: Vec<PackageId>)
    ensures
        views(ids@) == installed_ids(db@.package_data),
{
    let mut ids: Vec<PackageId> = Vec::new();
    let mut i: usize = 0;
    let ghost installed = |p: PackageView| p.entry is Installed;
    let ghost id_of = |p: PackageView| p.id;
    assert(db@.package_data.take(0) =~= Seq::<PackageView>::empty());
    assert(Seq::<PackageView>::empty().filter(installed) =~= Seq::<PackageView>::empty()) by {
        reveal(Seq::filter);
    }
    while i < db.package_data.len()
        invariant
            i <= db.package_data@.len(),
            installed == |p: PackageView| p.entry is Installed,
            id_of == |p: PackageView| p.id,
            views(ids@) == db@.package_data.take(i as int).filter(installed).map_values(id_of),
        decreases db.package_data@.len() - i,
    {
        let ghost before = db@.package_data.take(i as int);
        let ghost had = views(ids@);
        proof {
            assert(db@.package_data.take(i + 1) =~= before.push(db.package_data@[i as int]@));
            lemma_filter_push(before, db.package_data@[i as int]@, installed);
        }
        if let PackageDataEntry::Installed { .. } = &db.package_data[i].entry {
            let id = db.package_data[i].id.clone();
            ids.push(id);
            assert(views(ids@) =~= had.push(id@));
            assert(before.filter(installed).push(db.package_data@[i as int]@).map_values(id_of)
                =~= had.push(id@));
        }
        i += 1;
    }
    assert(db@.package_data.take(db.package_data@.len() as int) =~= db@.package_data);
    ids
}

/// Copies a list of errors.
pub fn clone_errors(errors: &Vec<DependencyConfigError>) -> (copy: Vec<DependencyConfigError>)
    ensures
        views(copy@) == views(errors@),
{
    let mut copy: Vec<DependencyConfigError> = Vec::new();
    let mut i: usize = 0;
    while i < errors.len()
        invariant
            i <= errors@.len(),
            copy@.len() == i,
            forall|j: int| 0 <= j < i ==> copy@[j]@ == errors@[j]@,
        decreases errors@.len() - i,
    {
        copy.push(
            DependencyConfigError {
                dependency: errors[i].dependency.clone(),
                error: errors[i].error.clone(),
            },
        );
        i += 1;
    }
    assert(views(copy@) =~= views(errors@));
    copy
}

/// Finds the first report about a package.
pub fn find_report(reports: &Vec<DependencyReport>, id: &PackageId) -> (at: Option<usize>)
    ensures
        match at {
            Some(i) => i < reports@.len() && first_index(report_ids(views(reports@)), id@) == Some(
                i as int,
            ),
            None => first_index(report_ids(views(reports@)), id@) is None,
        },
{
    let mut i: usize = 0;
    while i < reports.len()
        invariant
            i <= reports@.len(),
            forall|j: int| 0 <= j < i ==> #[trigger] report_ids(views(reports@))[j] != id@,
        decreases reports@.len() - i,
    {
        if reports[i].id.same(id) {
            proof {
                lemma_first_index_is(report_ids(views(reports@)), id@, i as int);
            }
            return Some(i);
        }
        i += 1;
    }
    proof {
        lemma_first_index_none(report_ids(views(reports@)), id@);
    }
    None
}

fn write_report(package: &mut Package, reports: &Vec<DependencyReport>)
    ensures
        final(package)@ == with_report(views(reports@))(old(package)@),
{
    let found = find_report(reports, &package.id);
    match &mut package.entry {
        PackageDataEntry::Installed { status, .. } => {
            match found {
                Some(i) => {
                    status.dependency_config_errors = clone_errors(&reports[i].errors);
                },
                None => {},
            }
        },
        _ => {},
    }
}

/// Writes what the checks of the dependencies found into the status of the
/// installed packages.
pub fn write_reports(db: &mut Database, reports: &Vec<DependencyReport>)
    ensures
        final(db)@ == with_reports(old(db)@, views(reports@)),
{
    let ghost before = db@.package_data;
    let mut i: usize = 0;
    while i < db.package_data.len()
        invariant
            i <= db.package_data@.len(),
            db.package_data@.len() == before.len(),
            db.broken_packages == old(db).broken_packages,
            db.ntp_synced == old(db).ntp_synced,
            forall|j: int| i <= j < before.len() ==> (#[trigger] db.package_data@[j])@ == before[j],
            forall|j: int|
                0 <= j < i ==> (#[trigger] db.package_data@[j])@ == with_report(views(reports@))(
                    before[j],
                ),
        decreases db.package_data@.len() - i,
    {
        write_report(&mut db.package_data[i], reports);
        i += 1;
    }
    assert(db@.package_data =~= with_reports(old(db)@, views(reports@)).package_data);
}

} // verus!
