//! The package database as the installation core reads and writes it: one
//! entry per package, tagged by where the package stands in its life, and the
//! list of packages whose last transition failed.

use crate::id::{PackageId, Version};
use crate::progress::InstallProgress;
use vstd::prelude::*;

verus! {

/// The views of the items of a sequence.
pub open spec fn views<T: View>(s: Seq<T>) -> Seq<T::V> {
    s.map_values(|x: T| x@)
}

/// What the installation reads of a package's manifest.
#[derive(Debug)]
pub struct Manifest {
    pub id: PackageId,
    pub version: Version,
    /// Suffix of the icon's file name, such as `png`.
    pub icon_type: String,
    /// Names of the package's volumes.
    pub volumes: Vec<String>,
}

/// The mathematical value of a [`Manifest`].
pub struct ManifestView {
    pub id: Seq<char>,
    pub version: Version,
    pub icon_type: Seq<char>,
    pub volumes: Seq<Seq<char>>,
}

impl View for Manifest {
    type V = ManifestView;

    open spec fn view(&self) -> ManifestView {
        ManifestView {
            id: self.id@,
            version: self.version,
            icon_type: self.icon_type@,
            volumes: views(self.volumes@),
        }
    }
}

/// Copies a list of texts.
pub fn clone_texts(texts: &Vec<String>) -> (copy: Vec<String>)
    ensures
        views(copy@) == views(texts@),
{
    let mut copy: Vec<String> = Vec::new();
    let mut i: usize = 0;
    while i < texts.len()
        invariant
            i <= texts@.len(),
            copy@.len() == i,
            forall|j: int| 0 <= j < i ==> copy@[j]@ == texts@[j]@,
        decreases texts@.len() - i,
    {
        copy.push(texts[i].clone());
        i += 1;
    }
    assert(views(copy@) =~= views(texts@));
    copy
}

impl Clone for Manifest {
    fn clone(&self) -> (copy: Self)
        ensures
            copy@ == self@,
    {
        Manifest {
            id: self.id.clone(),
            version: self.version,
            icon_type: self.icon_type.clone(),
            volumes: clone_texts(&self.volumes),
        }
    }
}

/// One edge between two packages: the package at the other end, and the
/// range of versions that the dependency asks for.
#[derive(Debug)]
pub struct Dependency {
    pub id: PackageId,
    pub range: String,
}

/// The mathematical value of a [`Dependency`].
pub struct DependencyView {
    pub id: Seq<char>,
    pub range: Seq<char>,
}

impl View for Dependency {
    type V = DependencyView;

    open spec fn view(&self) -> DependencyView {
        DependencyView { id: self.id@, range: self.range@ }
    }
}

impl Clone for Dependency {
    fn clone(&self) -> (copy: Self)
        ensures
            copy@ == self@,
    {
        Dependency { id: self.id.clone(), range: self.range.clone() }
    }
}

/// What is wrong with the configuration of one dependency of a package.
#[derive(Debug)]
pub struct DependencyConfigError {
    pub dependency: PackageId,
    pub error: String,
}

/// The mathematical value of a [`DependencyConfigError`].
pub struct DependencyConfigErrorView {
    pub dependency: Seq<char>,
    pub error: Seq<char>,
}

impl View for DependencyConfigError {
    type V = DependencyConfigErrorView;

    open spec fn view(&self) -> DependencyConfigErrorView {
        DependencyConfigErrorView { dependency: self.dependency@, error: self.error@ }
    }
}

/// Whether the main service of a package runs.
#[derive(Clone, Copy, Debug, PartialEq, Eq, Structural)]
pub enum MainStatus {
    Stopped,
    Stopping,
    Starting,
    Running,
}

impl MainStatus {
    /// Whether the service runs or is about to.
    pub open spec fn is_running(self) -> bool {
        self is Starting || self is Running
    }

    /// Whether the service runs or is about to.
    pub fn running(self) -> (running: bool)
        ensures
            running == self.is_running(),
    {
        match self {
            MainStatus::Starting | MainStatus::Running => true,
            MainStatus::Stopped | MainStatus::Stopping => false,
        }
    }

    /// The status with which a service begins after a boot: about to run if it
    /// ran before, stopped if it did not.
    pub open spec fn after_boot(self) -> MainStatus {
        if self.is_running() {
            MainStatus::Starting
        } else {
            MainStatus::Stopped
        }
    }

    /// The status with which a service begins after a boot.
    pub fn reset(self) -> (status: MainStatus)
        ensures
            status == self.after_boot(),
    {
        if self.running() {
            MainStatus::Starting
        } else {
            MainStatus::Stopped
        }
    }
}

/// A service's status after a boot is its own status after a boot: resetting
/// twice is resetting once.
pub proof fn lemma_after_boot_idempotent(status: MainStatus)
    ensures
        status.after_boot().after_boot() == status.after_boot(),
{
}

/// The status of an installed package.
#[derive(Debug)]
pub struct Status {
    pub main: MainStatus,
    pub dependency_config_errors: Vec<DependencyConfigError>,
}

/// The mathematical value of a [`Status`].
pub struct StatusView {
    pub main: MainStatus,
    pub dependency_config_errors: Seq<DependencyConfigErrorView>,
}

impl View for Status {
    type V = StatusView;

    open spec fn view(&self) -> StatusView {
        StatusView {
            main: self.main,
            dependency_config_errors: views(self.dependency_config_errors@),
        }
    }
}

/// A package and where it stands in its life.
#[derive(Debug)]
pub enum PackageDataEntry {
    /// An installation is under way.
    Installing { install_progress: InstallProgress },
    /// An upgrade is under way; the manifest is that of the version before.
    Updating { manifest: Manifest, install_progress: InstallProgress },
    /// A restore from a backup is under way.
    Restoring { install_progress: InstallProgress },
    /// The package is installed.
    Installed {
        manifest: Manifest,
        /// Address of the package on the container network.
        ip: u32,
        status: Status,
        current_dependencies: Vec<Dependency>,
        current_dependents: Vec<Dependency>,
    },
    /// The package is being removed.
    Removing { manifest: Manifest, current_dependents: Vec<Dependency> },
}

/// The mathematical value of a [`PackageDataEntry`].
pub enum EntryView {
    Installing { install_progress: InstallProgress },
    Updating { manifest: ManifestView, install_progress: InstallProgress },
    Restoring { install_progress: InstallProgress },
    Installed {
        manifest: ManifestView,
        ip: u32,
        status: StatusView,
        current_dependencies: Seq<DependencyView>,
        current_dependents: Seq<DependencyView>,
    },
    Removing { manifest: ManifestView, current_dependents: Seq<DependencyView> },
}

impl View for PackageDataEntry {
    type V = EntryView;

    open spec fn view(&self) -> EntryView {
        match self {
            PackageDataEntry::Installing { install_progress } => EntryView::Installing {
                install_progress: *install_progress,
            },
            PackageDataEntry::Updating { manifest, install_progress } => EntryView::Updating {
                manifest: manifest@,
                install_progress: *install_progress,
            },
            PackageDataEntry::Restoring { install_progress } => EntryView::Restoring {
                install_progress: *install_progress,
            },
            PackageDataEntry::Installed {
                manifest,
                ip,
                status,
                current_dependencies,
                current_dependents,
            } => EntryView::Installed {
                manifest: manifest@,
                ip: *ip,
                status: status@,
                current_dependencies: views(current_dependencies@),
                current_dependents: views(current_dependents@),
            },
            PackageDataEntry::Removing { manifest, current_dependents } => EntryView::Removing {
                manifest: manifest@,
                current_dependents: views(current_dependents@),
            },
        }
    }
}

/// The entry with which a package stands in the database once its
/// installation has been committed: stopped, and with no edge to or from
/// another package.
pub open spec fn fresh_installed(manifest: ManifestView, ip: u32) -> EntryView {
    EntryView::Installed {
        manifest,
        ip,
        status: StatusView { main: MainStatus::Stopped, dependency_config_errors: Seq::empty() },
        current_dependencies: Seq::empty(),
        current_dependents: Seq::empty(),
    }
}

impl PackageDataEntry {
    /// The entry of a package whose installation has just been committed.
    pub fn installed(manifest: Manifest, ip: u32) -> (entry: PackageDataEntry)
        ensures
            entry@ == fresh_installed(manifest@, ip),
    {
        let entry = PackageDataEntry::Installed {
            manifest,
            ip,
            status: Status { main: MainStatus::Stopped, dependency_config_errors: Vec::new() },
            current_dependencies: Vec::new(),
            current_dependents: Vec::new(),
        };
        assert(entry@ =~= fresh_installed(manifest@, ip)) by {
            assert(views(Seq::<Dependency>::empty()) =~= Seq::<DependencyView>::empty());
            assert(views(Seq::<DependencyConfigError>::empty()) =~= Seq::<
                DependencyConfigErrorView,
            >::empty());
        }
        entry
    }
}

/// One package of the database.
#[derive(Debug)]
pub struct Package {
    pub id: PackageId,
    pub entry: PackageDataEntry,
}

/// The mathematical value of a [`Package`].
pub struct PackageView {
    pub id: Seq<char>,
    pub entry: EntryView,
}

impl View for Package {
    type V = PackageView;

    open spec fn view(&self) -> PackageView {
        PackageView { id: self.id@, entry: self.entry@ }
    }
}

/// The package database.
#[derive(Debug)]
pub struct Database {
    /// Whether the clock of the machine has been set from the network.
    pub ntp_synced: bool,
    /// The packages, each under its identifier.
    pub package_data: Vec<Package>,
    /// The packages whose last transition failed.
    pub broken_packages: Vec<PackageId>,
}

/// The mathematical value of a [`Database`].
pub struct DatabaseView {
    pub ntp_synced: bool,
    pub package_data: Seq<PackageView>,
    pub broken_packages: Seq<Seq<char>>,
}

impl View for Database {
    type V = DatabaseView;

    open spec fn view(&self) -> DatabaseView {
        DatabaseView {
            ntp_synced: self.ntp_synced,
            package_data: views(self.package_data@),
            broken_packages: views(self.broken_packages@),
        }
    }
}

/// The identifiers of a list of packages, in its order.
pub open spec fn ids_of(packages: Seq<PackageView>) -> Seq<Seq<char>> {
    packages.map_values(|p: PackageView| p.id)
}

/// The first place at which an identifier stands in a list of identifiers.
pub open spec fn first_index(ids: Seq<Seq<char>>, id: Seq<char>) -> Option<int>
    decreases ids.len(),
{
    if ids.len() == 0 {
        None
    } else {
        match first_index(ids.drop_last(), id) {
            Some(i) => Some(i),
            None => if ids.last() == id {
                Some(ids.len() - 1)
            } else {
                None
            },
        }
    }
}

/// Where a package stands in a list of packages: the first place with its
/// identifier.
pub open spec fn position_of(packages: Seq<PackageView>, id: Seq<char>) -> Option<int> {
    first_index(ids_of(packages), id)
}

/// A list without what stands at the first place of an identifier.
pub open spec fn without_first<T>(items: Seq<T>, at: Option<int>) -> Seq<T> {
    match at {
        Some(i) => items.remove(i),
        None => items,
    }
}

impl DatabaseView {
    /// Whether the database is well formed: no package stands in it twice,
    /// and none is listed as broken twice.
    pub open spec fn wf(self) -> bool {
        &&& ids_of(self.package_data).no_duplicates()
        &&& self.broken_packages.no_duplicates()
    }

    /// Whether the database holds an entry for a package.
    pub open spec fn has(self, id: Seq<char>) -> bool {
        position_of(self.package_data, id) is Some
    }

    /// The entry of a package that the database holds.
    pub open spec fn entry(self, id: Seq<char>) -> EntryView
        recommends
            self.has(id),
    {
        self.package_data[position_of(self.package_data, id).unwrap()].entry
    }

    /// Whether a package is listed as broken.
    pub open spec fn is_broken(self, id: Seq<char>) -> bool {
        first_index(self.broken_packages, id) is Some
    }

    /// The database with a package listed as broken; unchanged where it is
    /// listed already.
    pub open spec fn with_broken(self, id: Seq<char>) -> DatabaseView {
        if self.is_broken(id) {
            self
        } else {
            DatabaseView { broken_packages: self.broken_packages.push(id), ..self }
        }
    }

    /// The database with a package taken off the list of broken packages.
    pub open spec fn without_broken(self, id: Seq<char>) -> DatabaseView {
        DatabaseView {
            broken_packages: without_first(
                self.broken_packages,
                first_index(self.broken_packages, id),
            ),
            ..self
        }
    }

    /// The database with `entry` as the entry of a package: in the place of
    /// the entry that it had, or behind the others where it had none.
    pub open spec fn with_entry(self, id: Seq<char>, entry: EntryView) -> DatabaseView {
        let package = PackageView { id, entry };
        match position_of(self.package_data, id) {
            Some(i) => DatabaseView { package_data: self.package_data.update(i, package), ..self },
            None => DatabaseView { package_data: self.package_data.push(package), ..self },
        }
    }

    /// The database without the entry of a package.
    pub open spec fn without_entry(self, id: Seq<char>) -> DatabaseView {
        DatabaseView {
            package_data: without_first(
                self.package_data,
                position_of(self.package_data, id),
            ),
            ..self
        }
    }
}

/// What the first place of an identifier says: it holds the identifier, and
/// no place before it does; where there is none, no place holds it.
pub proof fn lemma_first_index(ids: Seq<Seq<char>>, id: Seq<char>)
    ensures
        match first_index(ids, id) {
            Some(i) => 0 <= i < ids.len() && ids[i] == id && forall|j: int|
                0 <= j < i ==> #[trigger] ids[j] != id,
            None => forall|j: int| 0 <= j < ids.len() ==> #[trigger] ids[j] != id,
        },
    decreases ids.len(),
{
    if ids.len() > 0 {
        lemma_first_index(ids.drop_last(), id);
        match first_index(ids.drop_last(), id) {
            Some(i) => {
                assert(ids.drop_last()[i] == ids[i]);
                assert forall|j: int| 0 <= j < i implies #[trigger] ids[j] != id by {
                    assert(ids.drop_last()[j] == ids[j]);
                }
            },
            None => {
                assert forall|j: int| 0 <= j < ids.len() - 1 implies #[trigger] ids[j] != id by {
                    assert(ids.drop_last()[j] == ids[j]);
                }
            },
        }
    }
}

/// The first place of an identifier is the place that holds it and has no
/// place before it that does.
pub proof fn lemma_first_index_is(ids: Seq<Seq<char>>, id: Seq<char>, i: int)
    requires
        0 <= i < ids.len(),
        ids[i] == id,
        forall|j: int| 0 <= j < i ==> #[trigger] ids[j] != id,
    ensures
        first_index(ids, id) == Some(i),
{
    lemma_first_index(ids, id);
}

/// An identifier that stands nowhere has no first place.
pub proof fn lemma_first_index_none(ids: Seq<Seq<char>>, id: Seq<char>)
    requires
        forall|j: int| 0 <= j < ids.len() ==> #[trigger] ids[j] != id,
    ensures
        first_index(ids, id) is None,
{
    lemma_first_index(ids, id);
}

} // verus!
