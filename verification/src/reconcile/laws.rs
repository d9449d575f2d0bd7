//! What holds of every reconciliation.

use crate::model::{
    first_index, fresh_installed, ids_of, lemma_first_index, lemma_first_index_is,
    lemma_first_index_none, position_of, DatabaseView, DependencyView, EntryView, ManifestView,
    PackageView,
};
use crate::reconcile::{
    dependencies_of, dependents_of, depends_on, edge_back, lemma_filter_all,
    lemma_filter_keeps_distinct, lemma_filter_push, rebuilt,
    reconciled, reported, reset, restarted, survives, swept, with_dependents, with_edges_of,
    with_report, with_reports, DependencyReportView,
};
use vstd::prelude::*;

verus! {

/// What a filter leaves has passed it.
proof fn lemma_filter_kept<T>(s: Seq<T>, keep: spec_fn(T) -> bool)
    ensures
        forall|i: int| 0 <= i < s.filter(keep).len() ==> keep(#[trigger] s.filter(keep)[i]),
    decreases s.len(),
{
    reveal(Seq::filter);
    if s.len() > 0 {
        lemma_filter_kept(s.drop_last(), keep);
    }
}

/// A filter that every item passes leaves the list as it is.
proof fn lemma_filter_identity<T>(s: Seq<T>, keep: spec_fn(T) -> bool)
    requires
        forall|i: int| 0 <= i < s.len() ==> keep(#[trigger] s[i]),
    ensures
        s.filter(keep) == s,
    decreases s.len(),
{
    reveal(Seq::filter);
    if s.len() > 0 {
        assert forall|i: int| 0 <= i < s.drop_last().len() implies keep(
            #[trigger] s.drop_last()[i],
        ) by {
            assert(s.drop_last()[i] == s[i]);
        }
        lemma_filter_identity(s.drop_last(), keep);
        assert(s.drop_last().push(s.last()) =~= s);
    } else {
        assert(s.filter(keep) =~= s);
    }
}

/// A narrow filter behind a wide one leaves what the narrow one leaves
/// alone.
proof fn lemma_filter_narrower<T>(s: Seq<T>, wide: spec_fn(T) -> bool, narrow: spec_fn(T) -> bool)
    requires
        forall|x: T| #[trigger] narrow(x) ==> wide(x),
    ensures
        s.filter(wide).filter(narrow) == s.filter(narrow),
    decreases s.len(),
{
    reveal(Seq::filter);
    if s.len() > 0 {
        lemma_filter_narrower(s.drop_last(), wide, narrow);
        if wide(s.last()) {
            lemma_filter_push(s.drop_last().filter(wide), s.last(), narrow);
        }
    } else {
        assert(s.filter(wide) =~= s);
    }
}

/// Whether two lists of packages have the same edges forward: place by
/// place the same package with the same dependencies.
pub open spec fn same_edges(a: Seq<PackageView>, b: Seq<PackageView>) -> bool {
    &&& a.len() == b.len()
    &&& forall|i: int|
        0 <= i < a.len() ==> (#[trigger] a[i]).id == b[i].id && dependencies_of(a[i].entry)
            == dependencies_of(b[i].entry)
}

/// The edges back depend on the edges forward alone.
proof fn lemma_same_edges(a: Seq<PackageView>, b: Seq<PackageView>, target: Seq<char>)
    requires
        same_edges(a, b),
    ensures
        dependents_of(a, target) == dependents_of(b, target),
    decreases a.len(),
{
    if a.len() == 0 {
        assert(a =~= b);
    } else {
        assert(same_edges(a.drop_last(), b.drop_last())) by {
            assert forall|i: int| 0 <= i < a.drop_last().len() implies (
            #[trigger] a.drop_last()[i]).id == b.drop_last()[i].id && dependencies_of(
                a.drop_last()[i].entry,
            ) == dependencies_of(b.drop_last()[i].entry) by {
                assert(a.drop_last()[i] == a[i]);
                assert(b.drop_last()[i] == b[i]);
            }
        }
        lemma_same_edges(a.drop_last(), b.drop_last(), target);
        lemma_dependents_push(a.drop_last(), a.last(), target);
        lemma_dependents_push(b.drop_last(), b.last(), target);
        assert(a.drop_last().push(a.last()) =~= a);
        assert(b.drop_last().push(b.last()) =~= b);
        assert(a[a.len() - 1].id == b[a.len() - 1].id);
    }
}

/// The packages that depend on a target, when one more package is put
/// behind the list.
pub proof fn lemma_dependents_push(packages: Seq<PackageView>, p: PackageView, target: Seq<char>)
    ensures
        dependents_of(packages.push(p), target) == if depends_on(target)(p) {
            dependents_of(packages, target).push(edge_back(target)(p))
        } else {
            dependents_of(packages, target)
        },
{
    lemma_filter_push(packages, p, depends_on(target));
    if depends_on(target)(p) {
        assert(packages.filter(depends_on(target)).push(p).map_values(edge_back(target))
            =~= dependents_of(packages, target).push(edge_back(target)(p)));
    }
}

/// Whether a package has the edges back that a list of packages gives it.
pub open spec fn has_edges_of(base: Seq<PackageView>) -> spec_fn(PackageView) -> bool {
    |p: PackageView| with_dependents(p.entry, dependents_of(base, p.id)) == p.entry
}

/// Whether a package is as a reconciliation with these reports leaves it.
pub open spec fn settled(reports: Seq<DependencyReportView>) -> spec_fn(PackageView) -> bool {
    |p: PackageView|
        with_report(reports)(PackageView { id: p.id, entry: restarted(p.entry) }) == p
}

/// What a reconciliation leaves: the edges forward are those of the
/// database before, every package has the edges back that they give, every
/// package has passed the sweep, and every package is settled.
proof fn lemma_reconciled(
    db: DatabaseView,
    failed: Seq<Seq<char>>,
    reports: Seq<DependencyReportView>,
)
    ensures
        ({
            let after = reconciled(db, failed, reports).package_data;
            &&& forall|target: Seq<char>| #[trigger]
                dependents_of(after, target) == dependents_of(db.package_data, target)
            &&& forall|i: int| 0 <= i < after.len() ==> has_edges_of(db.package_data)(#[trigger] after[i])
            &&& forall|i: int| 0 <= i < after.len() ==> survives(failed)(#[trigger] after[i])
            &&& forall|i: int| 0 <= i < after.len() ==> settled(reports)(#[trigger] after[i])
            &&& reconciled(db, failed, reports).broken_packages == db.broken_packages
        }),
{
    let base = db.package_data;
    let r = rebuilt(db).package_data;
    let s = swept(rebuilt(db), failed).package_data;
    let t = reset(swept(rebuilt(db), failed)).package_data;
    let u = reconciled(db, failed, reports).package_data;
    assert(same_edges(r, base));
    assert forall|i: int| 0 <= i < r.len() implies has_edges_of(base)(#[trigger] r[i]) by {}
    lemma_filter_all(r, survives(failed), has_edges_of(base));
    lemma_filter_kept(r, survives(failed));
    assert(same_edges(u, s));
    assert forall|target: Seq<char>| #[trigger]
        dependents_of(u, target) == dependents_of(base, target) by {
        lemma_same_edges(u, s, target);
        lemma_same_edges(r, base, target);
        assert forall|x: PackageView| #[trigger] depends_on(target)(x) implies survives(failed)(
            x,
        ) by {
            if !(x.entry is Installed) {
                assert(crate::reconcile::edge_ids(Seq::<DependencyView>::empty()) =~= Seq::<
                    Seq<char>,
                >::empty());
            }
        }
        lemma_filter_narrower(r, survives(failed), depends_on(target));
    }
    assert forall|i: int| 0 <= i < u.len() implies has_edges_of(base)(#[trigger] u[i])
        && survives(failed)(u[i]) && settled(reports)(u[i]) by {
        assert(has_edges_of(base)(s[i]));
        assert(survives(failed)(s[i]));
    }
}

/// Reconciling twice is reconciling once: a second reconciliation in which
/// the same clean-ups fail and the checks give the same reports leaves the
/// database as the first one left it.
pub proof fn law_reconcile_is_idempotent(
    db: DatabaseView,
    failed: Seq<Seq<char>>,
    reports: Seq<DependencyReportView>,
)
    ensures
        reconciled(reconciled(db, failed, reports), failed, reports) == reconciled(
            db,
            failed,
            reports,
        ),
{
    let once = reconciled(db, failed, reports);
    lemma_reconciled(db, failed, reports);
    lemma_settled_stays(once, db.package_data, failed, reports);
}

/// A database whose packages all have the edges back that some list gives,
/// where that list gives the edges that the database itself gives, and whose
/// packages have all passed the sweep and are settled, is left as it is by a
/// reconciliation.
proof fn lemma_settled_stays(
    db: DatabaseView,
    base: Seq<PackageView>,
    failed: Seq<Seq<char>>,
    reports: Seq<DependencyReportView>,
)
    requires
        forall|target: Seq<char>| #[trigger]
            dependents_of(db.package_data, target) == dependents_of(base, target),
        forall|i: int|
            0 <= i < db.package_data.len() ==> has_edges_of(base)(#[trigger] db.package_data[i]),
        forall|i: int|
            0 <= i < db.package_data.len() ==> survives(failed)(#[trigger] db.package_data[i]),
        forall|i: int|
            0 <= i < db.package_data.len() ==> settled(reports)(#[trigger] db.package_data[i]),
    ensures
        reconciled(db, failed, reports) == db,
{
    let p = db.package_data;
    let r = rebuilt(db).package_data;
    assert(r =~= p) by {
        assert forall|i: int| 0 <= i < p.len() implies r[i] == p[i] by {
            assert(has_edges_of(base)(p[i]));
            assert(dependents_of(p, p[i].id) == dependents_of(base, p[i].id));
        }
    }
    lemma_filter_identity(p, survives(failed));
    let t = reset(db).package_data;
    let u = with_reports(reset(db), reports).package_data;
    assert(u =~= p) by {
        assert forall|i: int| 0 <= i < p.len() implies u[i] == p[i] by {
            assert(settled(reports)(p[i]));
        }
    }
}

/// A reconciliation leaves a well-formed database well formed, and does not
/// touch the list of broken packages.
pub proof fn law_reconcile_keeps_well_formed(
    db: DatabaseView,
    failed: Seq<Seq<char>>,
    reports: Seq<DependencyReportView>,
)
    requires
        db.wf(),
    ensures
        reconciled(db, failed, reports).wf(),
        reconciled(db, failed, reports).broken_packages == db.broken_packages,
{
    let r = rebuilt(db).package_data;
    let s = swept(rebuilt(db), failed).package_data;
    let u = reconciled(db, failed, reports).package_data;
    let key = |p: PackageView| p.id;
    assert(r.map_values(key) =~= ids_of(db.package_data));
    lemma_filter_keeps_distinct(r, key, survives(failed));
    assert(ids_of(u) =~= s.map_values(key));
}

/// The database after an installation has been committed.
pub open spec fn committed(db: DatabaseView, id: Seq<char>, manifest: ManifestView, ip: u32) -> DatabaseView {
    db.with_entry(id, fresh_installed(manifest, ip)).without_broken(id)
}

/// The entry with which a package stands in the database once its
/// installation has been committed and the database reconciled: the fresh
/// entry, with the edges that lead back to the package and with what the
/// checks report of it.
pub open spec fn settled_in(
    first: DatabaseView,
    id: Seq<char>,
    manifest: ManifestView,
    ip: u32,
    later_reports: Seq<DependencyReportView>,
) -> EntryView {
    with_report(later_reports)(
        PackageView {
            id,
            entry: with_dependents(
                fresh_installed(manifest, ip),
                dependents_of(first.package_data, id),
            ),
        },
    ).entry
}

/// Reconciling, installing a package and reconciling again leaves the
/// database as the first reconciliation left it, but for the package: the
/// database after the second reconciliation is the one after the first with
/// the entry of the package written anew and the package taken off the list
/// of broken packages. So every other package is in the database if and only
/// if it was, with the same entry, and is listed as broken if and only if it
/// was; and the package itself is installed.
///
/// This holds where the package had no dependencies of its own before, as
/// it has none when it was not installed, so that no other package loses a
/// dependent; and where the same clean-ups fail and the checks of the other
/// packages give the same reports both times.
pub proof fn law_install_between_reconciliations(
    db: DatabaseView,
    failed: Seq<Seq<char>>,
    reports: Seq<DependencyReportView>,
    id: Seq<char>,
    manifest: ManifestView,
    ip: u32,
    later_reports: Seq<DependencyReportView>,
)
    requires
        db.wf(),
        reconciled(db, failed, reports).has(id) ==> dependencies_of(
            reconciled(db, failed, reports).entry(id),
        ).len() == 0,
        forall|other: Seq<char>|
            other != id ==> #[trigger] reported(later_reports, other) == reported(reports, other),
    ensures
        ({
            let first = reconciled(db, failed, reports);
            let second = reconciled(committed(first, id, manifest, ip), failed, later_reports);
            &&& second == first.with_entry(
                id,
                settled_in(first, id, manifest, ip, later_reports),
            ).without_broken(id)
            &&& forall|other: Seq<char>|
                other != id ==> (#[trigger] second.has(other)) == first.has(other)
            &&& forall|other: Seq<char>|
                other != id && first.has(other) ==> #[trigger] second.entry(other) == first.entry(
                    other,
                )
            &&& second.has(id)
            &&& second.entry(id) is Installed
            &&& !second.is_broken(id)
            &&& forall|other: Seq<char>|
                other != id ==> (#[trigger] second.is_broken(other)) == first.is_broken(other)
        }),
{
    let first = reconciled(db, failed, reports);
    let base = db.package_data;
    let p = first.package_data;
    let fresh = PackageView { id, entry: fresh_installed(manifest, ip) };
    let written = first.with_entry(id, fresh.entry);
    let installed = committed(first, id, manifest, ip);
    let q = installed.package_data;
    let second = reconciled(installed, failed, later_reports);
    let v = second.package_data;
    law_reconcile_keeps_well_formed(db, failed, reports);
    lemma_reconciled(db, failed, reports);
    crate::database::lemma_with_entry(first, id, fresh.entry);
    crate::database::lemma_without_broken(written, id);
    lemma_first_index(ids_of(p), id);
    assert(crate::reconcile::edge_ids(Seq::<DependencyView>::empty()) =~= Seq::<Seq<char>>::empty());
    // The edges forward are those of the first reconciliation.
    assert forall|target: Seq<char>| #[trigger]
        dependents_of(q, target) == dependents_of(base, target) by {
        match position_of(p, id) {
            Some(i) => {
                assert(q == p.update(i, fresh));
                assert(same_edges(q, p)) by {
                    assert forall|j: int| 0 <= j < q.len() implies (#[trigger] q[j]).id == p[j].id
                        && dependencies_of(q[j].entry) == dependencies_of(p[j].entry) by {
                        if j == i {
                            assert(ids_of(p)[i] == id);
                            assert(first.entry(id) == p[i].entry);
                            assert(dependencies_of(p[i].entry) =~= Seq::<DependencyView>::empty());
                        }
                    }
                }
                lemma_same_edges(q, p, target);
            },
            None => {
                assert(q == p.push(fresh));
                lemma_dependents_push(p, fresh, target);
            },
        }
        assert(dependents_of(p, target) == dependents_of(base, target));
    }
    lemma_reconciled(installed, failed, later_reports);
    // Place by place, the second reconciliation leaves what the first left,
    // but for the place of the package.
    let r2 = rebuilt(installed).package_data;
    assert forall|j: int| 0 <= j < r2.len() implies survives(failed)(#[trigger] r2[j]) by {
        if j < p.len() && q[j] == p[j] {
            assert(survives(failed)(p[j]));
        }
    }
    lemma_filter_identity(r2, survives(failed));
    assert(v.len() == q.len());
    assert forall|j: int| 0 <= j < v.len() implies (#[trigger] v[j]).id == q[j].id && (q[j].id
        != id ==> v[j] == q[j]) && (q[j].id == id && q[j] == fresh ==> v[j].entry is Installed) by {
        if q[j].id != id {
            assert(j < p.len() && q[j] == p[j]);
            assert(has_edges_of(base)(p[j]));
            assert(settled(reports)(p[j]));
            assert(dependents_of(q, p[j].id) == dependents_of(base, p[j].id));
            assert(reported(later_reports, p[j].id) == reported(reports, p[j].id));
        }
    }
    assert(ids_of(v) =~= ids_of(q));
    assert forall|other: Seq<char>| other != id implies (#[trigger] second.has(other))
        == first.has(other) by {
        assert(written.has(other) == first.has(other));
    }
    assert forall|other: Seq<char>| other != id && first.has(other) implies #[trigger] second.entry(
        other,
    ) == first.entry(other) by {
        assert(written.has(other) == first.has(other));
        assert(written.entry(other) == first.entry(other));
        lemma_first_index(ids_of(q), other);
    }
    assert(second.has(id) && second.entry(id) is Installed) by {
        assert(written.has(id));
        lemma_first_index(ids_of(q), id);
        let at = position_of(q, id).unwrap();
        assert(ids_of(q)[at] == id);
        assert(written.entry(id) == fresh.entry);
        assert(q[at] == fresh);
    }
    assert forall|other: Seq<char>| other != id implies (#[trigger] second.is_broken(other))
        == first.is_broken(other) by {
        assert(written.without_broken(id).is_broken(other) == written.is_broken(other));
    }
    // The whole database is the first one with the entry of the package
    // written anew.
    let anew = PackageView { id, entry: settled_in(first, id, manifest, ip, later_reports) };
    let again = first.with_entry(id, anew.entry);
    assert(dependents_of(q, id) == dependents_of(p, id)) by {
        assert(dependents_of(q, id) == dependents_of(base, id));
        assert(dependents_of(p, id) == dependents_of(base, id));
    }
    assert(v =~= again.package_data) by {
        assert(ids_of(p).no_duplicates());
        match position_of(p, id) {
            Some(i) => {
                assert(q == p.update(i, fresh));
                assert forall|j: int| 0 <= j < v.len() implies v[j] == p.update(i, anew)[j] by {
                    if j == i {
                        assert(q[j] == fresh);
                        assert(r2[j] == with_edges_of(q)(fresh));
                    } else {
                        assert(ids_of(p)[j] != ids_of(p)[i]);
                        assert(q[j].id != id);
                    }
                }
            },
            None => {
                assert(q == p.push(fresh));
                assert forall|j: int| 0 <= j < v.len() implies v[j] == p.push(anew)[j] by {
                    if j == p.len() {
                        assert(q[j] == fresh);
                        assert(r2[j] == with_edges_of(q)(fresh));
                    } else {
                        assert(ids_of(p)[j] != id);
                        assert(q[j].id != id);
                    }
                }
            },
        }
    }
    assert(second.broken_packages == again.without_broken(id).broken_packages);
    assert(second.ntp_synced == again.without_broken(id).ntp_synced);
}

/// Reconciling, installing a package through a whole installation that
/// ends well, and reconciling again: whatever the installation was told on
/// its way, the database after the second reconciliation is the one after
/// the first with the entry of the package written anew and the package
/// taken off the list of broken packages.
///
/// This holds under the premises of [`law_install_between_reconciliations`].
pub proof fn law_reconcile_install_reconcile(
    db: DatabaseView,
    failed: Seq<Seq<char>>,
    reports: Seq<DependencyReportView>,
    id: Seq<char>,
    version: crate::id::Version,
    size: Option<u64>,
    declared_hash: Option<Seq<u8>>,
    events: Seq<crate::install::machine::EventView>,
    later_reports: Seq<DependencyReportView>,
)
    requires
        db.wf(),
        reconciled(db, failed, reports).has(id) ==> dependencies_of(
            reconciled(db, failed, reports).entry(id),
        ).len() == 0,
        forall|other: Seq<char>|
            other != id ==> #[trigger] reported(later_reports, other) == reported(reports, other),
        crate::install::laws::told_all(
            crate::install::laws::fresh_run(
                id,
                version,
                size,
                declared_hash,
                reconciled(db, failed, reports),
            ),
            events,
        ).installer.succeeded(),
    ensures
        ({
            let first = reconciled(db, failed, reports);
            let run = crate::install::laws::told_all(
                crate::install::laws::fresh_run(id, version, size, declared_hash, first),
                events,
            );
            &&& run.installer.manifest is Some
            &&& run.installer.ip is Some
            &&& reconciled(run.db, failed, later_reports) == first.with_entry(
                id,
                settled_in(
                    first,
                    id,
                    run.installer.manifest.unwrap(),
                    run.installer.ip.unwrap(),
                    later_reports,
                ),
            ).without_broken(id)
        }),
{
    let first = reconciled(db, failed, reports);
    law_reconcile_keeps_well_formed(db, failed, reports);
    crate::install::laws::law_install_writes_only_its_package(
        id,
        version,
        size,
        declared_hash,
        first,
        events,
    );
    let run = crate::install::laws::told_all(
        crate::install::laws::fresh_run(id, version, size, declared_hash, first),
        events,
    );
    law_install_between_reconciliations(
        db,
        failed,
        reports,
        id,
        run.installer.manifest.unwrap(),
        run.installer.ip.unwrap(),
        later_reports,
    );
}

} // verus!
