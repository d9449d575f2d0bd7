//! What the installation of one package is made of: where it stands, what it
//! is told, and what it asks for.

use crate::error::{Error, ErrorKind, ErrorView, NetworkErrorKind};
use crate::id::{PackageId, Version};
use crate::model::{EntryView, Manifest, ManifestView, PackageDataEntry};
use crate::progress::InstallProgress;
use vstd::prelude::*;

verus! {

/// Where an installation stands: the work that it has asked for last and
/// whose end it waits for.
#[derive(Clone, Copy, Debug, PartialEq, Eq, Structural)]
pub enum Phase {
    Start,
    EnsuringCacheDir,
    OpeningCached,
    ReadingCached,
    ReplacingCache,
    Downloading,
    Rewinding,
    OpeningArchive,
    Validating,
    CheckingEntry,
    ReadingManifest,
    CreatingPublicDir,
    UnpackingLicense,
    UnpackingIcon,
    LoadingImages,
    ProbingInstructions,
    UnpackingInstructions,
    BeginningTransaction,
    InstallingMain,
    InstallingInterfaces,
    Committing,
    MarkingBroken,
    Finished,
}

/// Where the archive of an installation comes from.
#[derive(Clone, Copy, Debug, PartialEq, Eq, Structural)]
pub enum Source {
    /// Not decided yet, or handed in by the caller.
    Undecided,
    /// The cached archive, whose declared hash is the one the source announced.
    Cache,
    /// A fresh download.
    Download,
}

/// Why a transfer ended early.
#[derive(Debug)]
pub enum TransferError {
    /// The transport failed; the two flags are what it says of the failure.
    Transport { is_connect: bool, is_timeout: bool, message: String },
    /// The cache file could not be written.
    Sink { message: String },
}

/// How the image loader ended.
#[derive(Debug)]
pub struct LoaderExit {
    /// Its exit code, where it has one.
    pub code: Option<i32>,
    /// What it wrote to its error stream.
    pub stderr: Vec<u8>,
}

/// What an installation is told.
#[derive(Debug)]
pub enum Event {
    /// The installation is to begin.
    Begin,
    /// The work asked for has ended.
    Done(Result<(), Error>),
    /// The thing asked about is there, or is not.
    Found(Result<bool, Error>),
    /// The archive's header and table of contents have been read; the text
    /// is its declared hash in hexadecimal.
    ArchiveOpened(Result<String, Error>),
    /// So many bytes more have been written to the cache file.
    Written(u64),
    /// So many bytes more have been read from the archive.
    Read(u64),
    /// The download has ended.
    Downloaded(Result<(), TransferError>),
    /// The hash has been checked, over so many bytes.
    Validated(Result<u64, Error>),
    /// The manifest has been read.
    ManifestRead(Result<Manifest, Error>),
    /// The image loader has ended.
    ImagesLoaded(Result<LoaderExit, Error>),
    /// The main service has been installed, with this address.
    MainInstalled(Result<u32, Error>),
}

/// The mathematical value of an [`Event`].
pub enum EventView {
    Begin,
    Done(Result<(), ErrorView>),
    Found(Result<bool, ErrorView>),
    ArchiveOpened(Result<Seq<char>, ErrorView>),
    Written(u64),
    Read(u64),
    Downloaded(Result<(), ErrorView>),
    Validated(Result<u64, ErrorView>),
    ManifestRead(Result<ManifestView, ErrorView>),
    ImagesLoaded(Result<(Option<i32>, Seq<u8>), ErrorView>),
    MainInstalled(Result<u32, ErrorView>),
}

/// The error that a failed transfer stands for: a network error of the kind
/// that the transport's flags give, or an I/O error for the cache file.
pub open spec fn transfer_error(t: TransferError) -> ErrorView {
    match t {
        TransferError::Transport { is_connect, is_timeout, message } => ErrorView {
            kind: ErrorKind::Network(crate::error::network_kind_of(is_connect, is_timeout)),
            message: message@,
        },
        TransferError::Sink { message } => ErrorView { kind: ErrorKind::Io, message: message@ },
    }
}

/// The view of an outcome that carries nothing or an error.
pub open spec fn unit_view(r: Result<(), Error>) -> Result<(), ErrorView> {
    match r {
        Ok(_) => Ok(()),
        Err(e) => Err(e@),
    }
}

impl View for Event {
    type V = EventView;

    open spec fn view(&self) -> EventView {
        match self {
            Event::Begin => EventView::Begin,
            Event::Done(r) => EventView::Done(unit_view(*r)),
            Event::Found(r) => EventView::Found(
                match r {
                    Ok(b) => Ok(*b),
                    Err(e) => Err(e@),
                },
            ),
            Event::ArchiveOpened(r) => EventView::ArchiveOpened(
                match r {
                    Ok(h) => Ok(h@),
                    Err(e) => Err(e@),
                },
            ),
            Event::Written(n) => EventView::Written(*n),
            Event::Read(n) => EventView::Read(*n),
            Event::Downloaded(r) => EventView::Downloaded(
                match r {
                    Ok(_) => Ok(()),
                    Err(t) => Err(transfer_error(*t)),
                },
            ),
            Event::Validated(r) => EventView::Validated(
                match r {
                    Ok(n) => Ok(*n),
                    Err(e) => Err(e@),
                },
            ),
            Event::ManifestRead(r) => EventView::ManifestRead(
                match r {
                    Ok(m) => Ok(m@),
                    Err(e) => Err(e@),
                },
            ),
            Event::ImagesLoaded(r) => EventView::ImagesLoaded(
                match r {
                    Ok(exit) => Ok((exit.code, exit.stderr@)),
                    Err(e) => Err(e@),
                },
            ),
            Event::MainInstalled(r) => EventView::MainInstalled(
                match r {
                    Ok(ip) => Ok(*ip),
                    Err(e) => Err(e@),
                },
            ),
        }
    }
}

/// What an installation asks for.
#[derive(Debug)]
pub enum Action {
    /// Nothing new: go on with the work asked for last.
    Continue,
    /// Create the cache directory, with the directories above it.
    EnsureCacheDir { path: String },
    /// Open the cached archive and say whether it is there.
    OpenCached { path: String },
    /// Read header and table of contents of the cached archive.
    ReadCached,
    /// Delete the cached archive and open a new, empty one in its place.
    ReplaceCacheFile { path: String },
    /// Copy the source into the cache file.
    Download,
    /// Go back to the start of the cache file.
    Rewind,
    /// Read header and table of contents of the downloaded archive.
    OpenArchive,
    /// Check the archive's hash.
    Validate,
    /// Say whether the database has an entry for the package.
    CheckEntry { id: PackageId },
    /// Read the manifest from the archive.
    ReadManifest,
    /// Create the public directory, with the directories above it.
    CreatePublicDir { path: String },
    /// Copy the licence from the archive to this file, and sync it.
    UnpackLicense { path: String },
    /// Copy the icon from the archive to this file, and sync it.
    UnpackIcon { path: String },
    /// Hand the images of the archive to the image loader.
    LoadImages,
    /// Say whether the archive has instructions.
    ProbeInstructions,
    /// Copy the instructions from the archive to this file, and sync it.
    UnpackInstructions { path: String },
    /// Begin a database transaction, and in it write the entry again as one
    /// that is being installed.
    BeginTransaction { id: PackageId, install_progress: InstallProgress },
    /// In the transaction, take the address pool, install the main service,
    /// which allots an address and attaches the volumes, and write the pool back.
    InstallMain,
    /// Bind the package's interfaces to its address.
    InstallInterfaces { ip: u32 },
    /// In the transaction, write the entry of the installed package, take the
    /// package off the list of broken packages, and commit.
    Commit { id: PackageId, entry: PackageDataEntry },
    /// Give up any open transaction and put the package on the list of
    /// broken packages.
    MarkBroken { id: PackageId },
    /// The installation has ended, with this outcome.
    Finish(Result<(), Error>),
}

/// The mathematical value of an [`Action`].
pub enum ActionView {
    Continue,
    EnsureCacheDir { path: Seq<char> },
    OpenCached { path: Seq<char> },
    ReadCached,
    ReplaceCacheFile { path: Seq<char> },
    Download,
    Rewind,
    OpenArchive,
    Validate,
    CheckEntry { id: Seq<char> },
    ReadManifest,
    CreatePublicDir { path: Seq<char> },
    UnpackLicense { path: Seq<char> },
    UnpackIcon { path: Seq<char> },
    LoadImages,
    ProbeInstructions,
    UnpackInstructions { path: Seq<char> },
    BeginTransaction { id: Seq<char>, install_progress: InstallProgress },
    InstallMain,
    InstallInterfaces { ip: u32 },
    Commit { id: Seq<char>, entry: EntryView },
    MarkBroken { id: Seq<char> },
    Finish(Result<(), ErrorView>),
}

impl View for Action {
    type V = ActionView;

    open spec fn view(&self) -> ActionView {
        match self {
            Action::Continue => ActionView::Continue,
            Action::EnsureCacheDir { path } => ActionView::EnsureCacheDir { path: path@ },
            Action::OpenCached { path } => ActionView::OpenCached { path: path@ },
            Action::ReadCached => ActionView::ReadCached,
            Action::ReplaceCacheFile { path } => ActionView::ReplaceCacheFile { path: path@ },
            Action::Download => ActionView::Download,
            Action::Rewind => ActionView::Rewind,
            Action::OpenArchive => ActionView::OpenArchive,
            Action::Validate => ActionView::Validate,
            Action::CheckEntry { id } => ActionView::CheckEntry { id: id@ },
            Action::ReadManifest => ActionView::ReadManifest,
            Action::CreatePublicDir { path } => ActionView::CreatePublicDir { path: path@ },
            Action::UnpackLicense { path } => ActionView::UnpackLicense { path: path@ },
            Action::UnpackIcon { path } => ActionView::UnpackIcon { path: path@ },
            Action::LoadImages => ActionView::LoadImages,
            Action::ProbeInstructions => ActionView::ProbeInstructions,
            Action::UnpackInstructions { path } => ActionView::UnpackInstructions { path: path@ },
            Action::BeginTransaction { id, install_progress } => ActionView::BeginTransaction {
                id: id@,
                install_progress: *install_progress,
            },
            Action::InstallMain => ActionView::InstallMain,
            Action::InstallInterfaces { ip } => ActionView::InstallInterfaces { ip: *ip },
            Action::Commit { id, entry } => ActionView::Commit { id: id@, entry: entry@ },
            Action::MarkBroken { id } => ActionView::MarkBroken { id: id@ },
            Action::Finish(r) => ActionView::Finish(unit_view(*r)),
        }
    }
}

/// The installation of one package.
#[derive(Debug)]
pub struct Installer {
    pub id: PackageId,
    pub version: Version,
    /// The hash that the source announced for the archive, as the bytes of
    /// its `x-s9pk-hash` header.
    pub declared_hash: Option<Vec<u8>>,
    pub progress: InstallProgress,
    pub phase: Phase,
    pub source: Source,
    /// Over how many bytes the hash has been checked, once it has been.
    pub validated_bytes: Option<u64>,
    /// The manifest, once it has been read.
    pub manifest: Option<Manifest>,
    /// The address of the main service, once it has been allotted.
    pub ip: Option<u32>,
    /// The error with which the installation has failed.
    pub failure: Option<Error>,
    /// Whether the package has been put on the list of broken packages.
    pub recorded_broken: bool,
}

/// The mathematical value of an [`Installer`].
pub struct InstallerView {
    pub id: Seq<char>,
    pub version: Version,
    pub declared_hash: Option<Seq<u8>>,
    pub progress: InstallProgress,
    pub phase: Phase,
    pub source: Source,
    pub validated_bytes: Option<u64>,
    pub manifest: Option<ManifestView>,
    pub ip: Option<u32>,
    pub failure: Option<ErrorView>,
    pub recorded_broken: bool,
}

impl View for Installer {
    type V = InstallerView;

    open spec fn view(&self) -> InstallerView {
        InstallerView {
            id: self.id@,
            version: self.version,
            declared_hash: match self.declared_hash {
                Some(h) => Some(h@),
                None => None,
            },
            progress: self.progress,
            phase: self.phase,
            source: self.source,
            validated_bytes: self.validated_bytes,
            manifest: match self.manifest {
                Some(m) => Some(m@),
                None => None,
            },
            ip: self.ip,
            failure: match self.failure {
                Some(e) => Some(e@),
                None => None,
            },
            recorded_broken: self.recorded_broken,
        }
    }
}

/// An installation that has not begun: nothing counted, nothing decided.
pub open spec fn initial(
    id: Seq<char>,
    version: Version,
    size: Option<u64>,
    declared_hash: Option<Seq<u8>>,
) -> InstallerView {
    InstallerView {
        id,
        version,
        declared_hash,
        progress: InstallProgress {
            size,
            downloaded: 0,
            download_complete: false,
            validated: 0,
            read: 0,
            read_complete: false,
        },
        phase: Phase::Start,
        source: Source::Undecided,
        validated_bytes: None,
        manifest: None,
        ip: None,
        failure: None,
        recorded_broken: false,
    }
}

impl Installer {
    /// The installation of a package version from a network source that
    /// has announced this size and this hash, or none. It waits to be told
    /// to begin.
    pub fn new(
        id: PackageId,
        version: Version,
        size: Option<u64>,
        declared_hash: Option<Vec<u8>>,
    ) -> (installer: Installer)
        ensures
            installer@ == initial(
                id@,
                version,
                size,
                match declared_hash {
                    Some(h) => Some(h@),
                    None => None,
                },
            ),
    {
        Installer {
            id,
            version,
            declared_hash,
            progress: InstallProgress::new(size),
            phase: Phase::Start,
            source: Source::Undecided,
            validated_bytes: None,
            manifest: None,
            ip: None,
            failure: None,
            recorded_broken: false,
        }
    }

    /// The installation of a package version from an archive that the
    /// caller has opened, with the progress made so far. It waits for the
    /// archive's hash to be checked.
    pub fn for_archive(id: PackageId, version: Version, progress: InstallProgress) -> (installer:
        Installer)
        ensures
            installer@ == (InstallerView {
                progress,
                phase: Phase::Validating,
                ..initial(id@, version, progress.size, None)
            }),
    {
        Installer {
            id,
            version,
            declared_hash: None,
            progress,
            phase: Phase::Validating,
            source: Source::Undecided,
            validated_bytes: None,
            manifest: None,
            ip: None,
            failure: None,
            recorded_broken: false,
        }
    }
}

impl InstallerView {
    /// Whether the installation has ended well.
    pub open spec fn succeeded(self) -> bool {
        self.phase is Finished && self.failure is None
    }

    /// Whether the installation has ended with an error.
    pub open spec fn failed(self) -> bool {
        self.phase is Finished && self.failure is Some
    }

    /// The outcome of an installation that has ended.
    pub open spec fn outcome(self) -> Result<(), ErrorView> {
        match self.failure {
            Some(e) => Err(e),
            None => Ok(()),
        }
    }
}

} // verus!
