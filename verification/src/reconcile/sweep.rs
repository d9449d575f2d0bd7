//! The sweep over the packages: what is done for each, and what is left of
//! the database after it.

use crate::database::find_id;
use crate::id::PackageId;
use crate::model::{views, Database, Package, PackageDataEntry, PackageView};
use crate::paths::{volume_tmp_path, volume_tmp_text};
use crate::reconcile::{lemma_filter_push, survives, swept};
use vstd::prelude::*;

verus! {

/// What the sweep does for one package.
#[derive(Debug)]
pub enum SweepAction {
    /// An installation, an upgrade or a restore was under way: remove the
    /// public directory of the package, leave its cached archive, and take
    /// its entry out of the database.
    CleanupFailed { id: PackageId },
    /// A removal was under way: tear down the interfaces, unload the
    /// images, remove the volumes, and take the entry out of the database.
    Uninstall { id: PackageId },
    /// The package is installed: remove each of these directories, left
    /// beside its volumes by work that was cut short, if it is there.
    PurgeTmp { id: PackageId, paths: Vec<String> },
}

/// The mathematical value of a [`SweepAction`].
pub enum SweepActionView {
    CleanupFailed { id: Seq<char> },
    Uninstall { id: Seq<char> },
    PurgeTmp { id: Seq<char>, paths: Seq<Seq<char>> },
}

impl View for SweepAction {
    type V = SweepActionView;

    open spec fn view(&self) -> SweepActionView {
        match self {
            SweepAction::CleanupFailed { id } => SweepActionView::CleanupFailed { id: id@ },
            SweepAction::Uninstall { id } => SweepActionView::Uninstall { id: id@ },
            SweepAction::PurgeTmp { id, paths } => SweepActionView::PurgeTmp {
                id: id@,
                paths: views(paths@),
            },
        }
    }
}

/// The temporary sibling of a volume of a package.
pub open spec fn tmp_of(datadir: Seq<char>, id: Seq<char>) -> spec_fn(Seq<char>) -> Seq<char> {
    |volume: Seq<char>| volume_tmp_text(datadir, id, volume)
}

/// What the sweep does for a package, by where the package stands.
pub open spec fn sweep_action_of(datadir: Seq<char>) -> spec_fn(PackageView) -> SweepActionView {
    |p: PackageView|
        match p.entry {
            crate::model::EntryView::Installing { .. }
            | crate::model::EntryView::Restoring { .. }
            | crate::model::EntryView::Updating { .. } => SweepActionView::CleanupFailed {
                id: p.id,
            },
            crate::model::EntryView::Removing { .. } => SweepActionView::Uninstall { id: p.id },
            crate::model::EntryView::Installed { manifest, .. } => SweepActionView::PurgeTmp {
                id: p.id,
                paths: manifest.volumes.map_values(tmp_of(datadir, p.id)),
            },
        }
}

/// The temporary siblings of the volumes of a package.
fn tmp_paths(datadir: &str, id: &PackageId, volumes: &Vec<String>) -> (paths: Vec<String>)
    ensures
        views(paths@) == views(volumes@).map_values(tmp_of(datadir@, id@)),
{
    let mut paths: Vec<String> = Vec::new();
    let mut i: usize = 0;
    while i < volumes.len()
        invariant
            i <= volumes@.len(),
            paths@.len() == i,
            forall|j: int| 0 <= j < i ==> paths@[j]@ == volume_tmp_text(datadir@, id@, volumes@[j]@),
        decreases volumes@.len() - i,
    {
        paths.push(volume_tmp_path(datadir, id, volumes[i].as_str()));
        i += 1;
    }
    assert(views(paths@) =~= views(volumes@).map_values(tmp_of(datadir@, id@)));
    paths
}

/// What the sweep does for one package.
pub fn sweep_action(package: &Package, datadir: &str) -> (action: SweepAction)
    ensures
        action@ == sweep_action_of(datadir@)(package@),
{
    match &package.entry {
        PackageDataEntry::Installing { .. }
        | PackageDataEntry::Restoring { .. }
        | PackageDataEntry::Updating { .. } => SweepAction::CleanupFailed {
            id: package.id.clone(),
        },
        PackageDataEntry::Removing { .. } => SweepAction::Uninstall { id: package.id.clone() },
        PackageDataEntry::Installed { manifest, .. } => SweepAction::PurgeTmp {
            id: package.id.clone(),
            paths: tmp_paths(datadir, &package.id, &manifest.volumes),
        },
    }
}

/// Plans the sweep: one action for each package, in the order of the
/// database.
pub fn plan_sweep(db: &Database, datadir: &str) -> (plan: Vec<SweepAction>)
    ensures
        views(plan@) == db@.package_data.map_values(sweep_action_of(datadir@)),
{
    let mut plan: Vec<SweepAction> = Vec::new();
    let mut i: usize = 0;
    while i < db.package_data.len()
        invariant
            i <= db.package_data@.len(),
            plan@.len() == i,
            forall|j: int|
                0 <= j < i ==> plan@[j]@ == sweep_action_of(datadir@)(db.package_data@[j]@),
        decreases db.package_data@.len() - i,
    {
        plan.push(sweep_action(&db.package_data[i], datadir));
        i += 1;
    }
    assert(views(plan@) =~= db@.package_data.map_values(sweep_action_of(datadir@)));
    plan
}

fn stays(package: &Package, failed: &Vec<PackageId>) -> (stays: bool)
    ensures
        stays == survives(views(failed@))(package@),
{
    match &package.entry {
        PackageDataEntry::Installed { .. } => true,
        _ => find_id(failed, &package.id).is_some(),
    }
}

/// Ends the sweep: takes out of the database every package that was not
/// installed and whose clean-up has been done; `failed` names the packages
/// whose clean-up failed, which stay as they are.
pub fn finish_sweep(db: &mut Database, failed: &Vec<PackageId>)
    ensures
        final(db)@ == swept(old(db)@, views(failed@)),
{
    let ghost before = db@.package_data;
    let ghost keep = survives(views(failed@));
    let ghost mut seen: int = 0;
    let mut i: usize = 0;
    assert(before.take(0) =~= Seq::<PackageView>::empty());
    assert(Seq::<PackageView>::empty().filter(keep) =~= Seq::<PackageView>::empty()) by {
        reveal(Seq::filter);
    }
    assert(before.skip(0) =~= before);
    while i < db.package_data.len()
        invariant
            0 <= seen <= before.len(),
            keep == survives(views(failed@)),
            db.broken_packages == old(db).broken_packages,
            db.ntp_synced == old(db).ntp_synced,
            db@.package_data == before.take(seen).filter(keep) + before.skip(seen),
            i == before.take(seen).filter(keep).len(),
        decreases before.len() - seen,
    {
        let ghost kept = before.take(seen).filter(keep);
        let ghost current = db@.package_data;
        proof {
            assert(current.len() == kept.len() + before.skip(seen).len());
            assert(seen < before.len());
            assert(current[i as int] == before.skip(seen)[0]);
            assert(before.take(seen + 1) =~= before.take(seen).push(before[seen]));
            lemma_filter_push(before.take(seen), before[seen], keep);
        }
        if stays(&db.package_data[i], failed) {
            i += 1;
            proof {
                assert(kept.push(before[seen]) + before.skip(seen + 1) =~= kept + before.skip(seen));
                seen = seen + 1;
            }
        } else {
            db.package_data.remove(i);
            proof {
                assert(views(db.package_data@) =~= current.remove(i as int));
                assert(current.remove(i as int) =~= kept + before.skip(seen + 1));
                seen = seen + 1;
            }
        }
    }
    proof {
        assert(seen == before.len()) by {
            assert(db@.package_data.len() == before.take(seen).filter(keep).len() + before.skip(
                seen,
            ).len());
        }
        assert(before.take(seen) =~= before);
        assert(before.filter(keep) + before.skip(seen) =~= before.filter(keep));
    }
}

} // verus!
