//! The steps of an installation: what it asks for next when it is told how
//! the last piece of work has ended.

use crate::error::{network_error_kind, Error, ErrorKind, ErrorView};
use crate::install::machine::{
    transfer_error, Action, ActionView, Event, EventView, Installer, InstallerView, LoaderExit,
    Phase, Source, TransferError,
};
use crate::model::{fresh_installed, PackageDataEntry};
use crate::paths::{
    cache_dir, cache_dir_text, cache_file, cache_file_text, icon_path, icon_text,
    instructions_path, instructions_text, license_path, license_text, public_dir,
    public_dir_text,
};
use crate::progress::{counter_max, counter_sum, InstallProgress};
use crate::text::{bytes_equal, text_from_utf8, utf8_error_text};
use vstd::prelude::*;
use vstd::string::StringExecFns;
use vstd::string::StringSliceAdditionalSpecFns;
use vstd::utf8::{decode_utf8, encode_utf8, valid_utf8};

verus! {

/// The error for an event that does not answer the work asked for.
pub open spec fn unexpected_event() -> ErrorView {
    ErrorView { kind: ErrorKind::Unknown, message: "unexpected event"@ }
}

/// The error for a package that has no entry in the database.
pub open spec fn entry_missing() -> ErrorView {
    ErrorView { kind: ErrorKind::NotFound, message: "PackageDataEntry does not exist"@ }
}

/// The error for a manifest that is asked for before it has been read.
pub open spec fn manifest_missing() -> ErrorView {
    ErrorView { kind: ErrorKind::Unknown, message: "manifest has not been read"@ }
}

/// What the image loader's error stream says, as text: the text that the
/// bytes encode, or a note that they encode none.
pub open spec fn loader_message(stderr: Seq<u8>) -> Seq<char> {
    if valid_utf8(stderr) {
        decode_utf8(stderr)
    } else {
        "Could not parse stderr: "@ + utf8_error_text(stderr)
    }
}

/// The error for an image loader that did not end with exit code zero.
pub open spec fn loader_error(stderr: Seq<u8>) -> ErrorView {
    ErrorView { kind: ErrorKind::ContainerRuntime, message: loader_message(stderr) }
}

/// Whether the image loader ended well: with exit code zero.
pub open spec fn loader_succeeded(code: Option<i32>) -> bool {
    code == Some(0i32)
}

/// Whether the cached archive is the one that the source announced: the
/// announced hash is there, and it is, byte for byte, the text of the hash
/// that the archive declares.
pub open spec fn is_cache_hit(announced: Option<Seq<u8>>, declared: Seq<char>) -> bool {
    announced == Some(encode_utf8(declared))
}

impl InstallerView {
    /// The installation after `bytes` more bytes have been read.
    pub open spec fn with_read(self, bytes: u64) -> InstallerView {
        InstallerView {
            progress: InstallProgress {
                read: counter_sum(self.progress.read, bytes),
                ..self.progress
            },
            ..self
        }
    }

    /// The installation after `bytes` more bytes have been written to the
    /// cache file.
    pub open spec fn with_written(self, bytes: u64) -> InstallerView {
        InstallerView {
            progress: InstallProgress {
                downloaded: counter_sum(self.progress.downloaded, bytes),
                ..self.progress
            },
            ..self
        }
    }

    /// The installation in another phase.
    pub open spec fn at(self, phase: Phase) -> InstallerView {
        InstallerView { phase, ..self }
    }

    /// The installation once everything has been read from the archive.
    pub open spec fn with_read_complete(self) -> InstallerView {
        InstallerView {
            progress: InstallProgress { read_complete: true, ..self.progress },
            ..self
        }
    }

    /// The installation once the download has ended, or has been found
    /// unnecessary.
    pub open spec fn with_download_complete(self) -> InstallerView {
        InstallerView {
            progress: InstallProgress { download_complete: true, ..self.progress },
            ..self
        }
    }
}

/// An installation ends with an error.
pub open spec fn fail(s: InstallerView, e: ErrorView) -> (InstallerView, ActionView) {
    (InstallerView { phase: Phase::Finished, failure: Some(e), ..s }, ActionView::Finish(Err(e)))
}

/// An installation has failed and asks for the package to be listed as
/// broken.
pub open spec fn broken(s: InstallerView, e: ErrorView) -> (InstallerView, ActionView) {
    (
        InstallerView { phase: Phase::MarkingBroken, failure: Some(e), ..s },
        ActionView::MarkBroken { id: s.id },
    )
}

/// The cache holds nothing of use: the archive is to be downloaded.
pub open spec fn miss(s: InstallerView) -> (InstallerView, ActionView) {
    (
        InstallerView { phase: Phase::ReplacingCache, source: Source::Download, ..s },
        ActionView::ReplaceCacheFile { path: cache_file_text(s.id, s.version) },
    )
}

/// Everything has been read: the database transaction begins.
pub open spec fn begin_transaction(s: InstallerView) -> (InstallerView, ActionView) {
    let t = s.with_read_complete().at(Phase::BeginningTransaction);
    (t, ActionView::BeginTransaction { id: s.id, install_progress: t.progress })
}

/// What an installation that works on an opened archive does when it is
/// told `e`: the installation after it, and what it asks for next.
///
/// Bytes read are counted in every phase. Each phase answers the end of its
/// work by asking for the next piece of work, and an error by ending with
/// that error. Phases in order: validate; look for the database entry; read
/// the manifest; create the public directory; unpack the licence; unpack the
/// icon; load the images; unpack the instructions, if there are any; begin the
/// transaction; install the main service; install the interfaces; commit.
#[verifier::opaque]
pub open spec fn install_step(s: InstallerView, e: EventView) -> (InstallerView, ActionView) {
    if s.phase is Finished {
        (s, ActionView::Finish(s.outcome()))
    } else {
        match e {
            EventView::Read(n) => (s.with_read(n), ActionView::Continue),
            EventView::Written(_) => (s, ActionView::Continue),
            _ => match (s.phase, e) {
                (Phase::Validating, EventView::Validated(Ok(total))) => (
                    InstallerView {
                        phase: Phase::CheckingEntry,
                        validated_bytes: Some(total),
                        progress: InstallProgress {
                            validated: counter_max(s.progress.validated, total),
                            ..s.progress
                        },
                        ..s
                    },
                    ActionView::CheckEntry { id: s.id },
                ),
                (Phase::Validating, EventView::Validated(Err(err))) => fail(s, err),
                (Phase::CheckingEntry, EventView::Found(Ok(found))) => if found {
                    (s.at(Phase::ReadingManifest), ActionView::ReadManifest)
                } else {
                    fail(s, entry_missing())
                },
                (Phase::CheckingEntry, EventView::Found(Err(err))) => fail(s, err),
                (Phase::ReadingManifest, EventView::ManifestRead(Ok(manifest))) => (
                    InstallerView {
                        phase: Phase::CreatingPublicDir,
                        manifest: Some(manifest),
                        ..s
                    },
                    ActionView::CreatePublicDir { path: public_dir_text(s.id, s.version) },
                ),
                (Phase::ReadingManifest, EventView::ManifestRead(Err(err))) => fail(s, err),
                (Phase::CreatingPublicDir, EventView::Done(Ok(_))) => (
                    s.at(Phase::UnpackingLicense),
                    ActionView::UnpackLicense { path: license_text(s.id, s.version) },
                ),
                (Phase::UnpackingLicense, EventView::Done(Ok(_))) => match s.manifest {
                    Some(manifest) => (
                        s.at(Phase::UnpackingIcon),
                        ActionView::UnpackIcon {
                            path: icon_text(s.id, s.version, manifest.icon_type),
                        },
                    ),
                    None => fail(s, manifest_missing()),
                },
                (Phase::UnpackingIcon, EventView::Done(Ok(_))) => (
                    s.at(Phase::LoadingImages),
                    ActionView::LoadImages,
                ),
                (Phase::LoadingImages, EventView::ImagesLoaded(Ok((code, stderr)))) => if loader_succeeded(
                    code,
                ) {
                    (s.at(Phase::ProbingInstructions), ActionView::ProbeInstructions)
                } else {
                    fail(s, loader_error(stderr))
                },
                (Phase::LoadingImages, EventView::ImagesLoaded(Err(err))) => fail(s, err),
                (Phase::ProbingInstructions, EventView::Found(Ok(found))) => if found {
                    (
                        s.at(Phase::UnpackingInstructions),
                        ActionView::UnpackInstructions {
                            path: instructions_text(s.id, s.version),
                        },
                    )
                } else {
                    begin_transaction(s)
                },
                (Phase::ProbingInstructions, EventView::Found(Err(err))) => fail(s, err),
                (Phase::UnpackingInstructions, EventView::Done(Ok(_))) => begin_transaction(s),
                (Phase::BeginningTransaction, EventView::Done(Ok(_))) => (
                    s.at(Phase::InstallingMain),
                    ActionView::InstallMain,
                ),
                (Phase::InstallingMain, EventView::MainInstalled(Ok(ip))) => (
                    InstallerView { phase: Phase::InstallingInterfaces, ip: Some(ip), ..s },
                    ActionView::InstallInterfaces { ip },
                ),
                (Phase::InstallingMain, EventView::MainInstalled(Err(err))) => fail(s, err),
                (Phase::InstallingInterfaces, EventView::Done(Ok(_))) => match (s.manifest, s.ip) {
                    (Some(manifest), Some(ip)) => (
                        s.at(Phase::Committing),
                        ActionView::Commit { id: s.id, entry: fresh_installed(manifest, ip) },
                    ),
                    _ => fail(s, manifest_missing()),
                },
                (Phase::Committing, EventView::Done(Ok(_))) => (
                    s.at(Phase::Finished),
                    ActionView::Finish(Ok(())),
                ),
                (
                    Phase::CreatingPublicDir
                    | Phase::UnpackingLicense
                    | Phase::UnpackingIcon
                    | Phase::UnpackingInstructions
                    | Phase::BeginningTransaction
                    | Phase::InstallingInterfaces
                    | Phase::Committing,
                    EventView::Done(Err(err)),
                ) => fail(s, err),
                _ => fail(s, unexpected_event()),
            },
        }
    }
}

/// Whether a phase belongs to the work on an opened archive.
pub open spec fn in_install_part(phase: Phase) -> bool {
    match phase {
        Phase::Validating
        | Phase::CheckingEntry
        | Phase::ReadingManifest
        | Phase::CreatingPublicDir
        | Phase::UnpackingLicense
        | Phase::UnpackingIcon
        | Phase::LoadingImages
        | Phase::ProbingInstructions
        | Phase::UnpackingInstructions
        | Phase::BeginningTransaction
        | Phase::InstallingMain
        | Phase::InstallingInterfaces
        | Phase::Committing => true,
        _ => false,
    }
}

/// What an installation from a network source does when it is told `e`.
///
/// Bytes written are counted while the download runs, and at no other
/// time. The cache directory is made first. The cached archive is used if the
/// source announced a hash and the archive declares that very hash; a cache
/// that cannot be opened or read counts as one that holds nothing. Otherwise
/// the cache file is replaced, the source downloaded into it, the file
/// rewound and opened as an archive. From there on the steps are those of
/// [`install_step`]. Whatever fails, the installation asks for the package to
/// be listed as broken before it ends, with the error that failed it, or
/// with the error of the listing where that fails too.
#[verifier::opaque]
pub open spec fn download_install_step(s: InstallerView, e: EventView) -> (
    InstallerView,
    ActionView,
) {
    if s.phase is Finished {
        (s, ActionView::Finish(s.outcome()))
    } else if in_install_part(s.phase) {
        let (t, a) = install_step(s, e);
        if t.failed() {
            (t.at(Phase::MarkingBroken), ActionView::MarkBroken { id: s.id })
        } else {
            (t, a)
        }
    } else {
        match e {
            EventView::Read(n) => (s.with_read(n), ActionView::Continue),
            EventView::Written(n) => (
                if s.phase is Downloading {
                    s.with_written(n)
                } else {
                    s
                },
                ActionView::Continue,
            ),
            _ => match (s.phase, e) {
                (Phase::Start, EventView::Begin) => (
                    s.at(Phase::EnsuringCacheDir),
                    ActionView::EnsureCacheDir { path: cache_dir_text(s.id, s.version) },
                ),
                (Phase::EnsuringCacheDir, EventView::Done(Ok(_))) => if s.declared_hash is Some {
                    (
                        s.at(Phase::OpeningCached),
                        ActionView::OpenCached { path: cache_file_text(s.id, s.version) },
                    )
                } else {
                    miss(s)
                },
                (Phase::OpeningCached, EventView::Found(Ok(found))) => if found {
                    (s.at(Phase::ReadingCached), ActionView::ReadCached)
                } else {
                    miss(s)
                },
                (Phase::OpeningCached, EventView::Found(Err(_))) => miss(s),
                (Phase::ReadingCached, EventView::ArchiveOpened(Ok(declared))) => if is_cache_hit(
                    s.declared_hash,
                    declared,
                ) {
                    (
                        InstallerView {
                            phase: Phase::Validating,
                            source: Source::Cache,
                            ..s.with_download_complete()
                        },
                        ActionView::Validate,
                    )
                } else {
                    miss(s)
                },
                (Phase::ReadingCached, EventView::ArchiveOpened(Err(_))) => miss(s),
                (Phase::ReplacingCache, EventView::Done(Ok(_))) => (
                    s.at(Phase::Downloading),
                    ActionView::Download,
                ),
                (Phase::Downloading, EventView::Downloaded(Ok(_))) => (
                    s.with_download_complete().at(Phase::Rewinding),
                    ActionView::Rewind,
                ),
                (Phase::Downloading, EventView::Downloaded(Err(err))) => broken(s, err),
                (Phase::Rewinding, EventView::Done(Ok(_))) => (
                    s.at(Phase::OpeningArchive),
                    ActionView::OpenArchive,
                ),
                (Phase::OpeningArchive, EventView::ArchiveOpened(Ok(_))) => (
                    s.at(Phase::Validating),
                    ActionView::Validate,
                ),
                (Phase::OpeningArchive, EventView::ArchiveOpened(Err(err))) => broken(s, err),
                (
                    Phase::EnsuringCacheDir | Phase::ReplacingCache | Phase::Rewinding,
                    EventView::Done(Err(err)),
                ) => broken(s, err),
                (Phase::MarkingBroken, EventView::Done(Ok(_))) => (
                    InstallerView { phase: Phase::Finished, recorded_broken: true, ..s },
                    ActionView::Finish(s.outcome()),
                ),
                (Phase::MarkingBroken, EventView::Done(Err(err))) => fail(s, err),
                (Phase::MarkingBroken, _) => (s, ActionView::MarkBroken { id: s.id }),
                _ => broken(s, unexpected_event()),
            },
        }
    }
}

fn finish(state: Installer) -> (next: (Installer, Action))
    requires
        state.phase is Finished,
    ensures
        next.0@ == state@,
        next.1@ == ActionView::Finish(state@.outcome()),
{
    let outcome = match &state.failure {
        Some(e) => Err(e.clone()),
        None => Ok(()),
    };
    (state, Action::Finish(outcome))
}

fn fail_with(state: Installer, e: Error) -> (next: (Installer, Action))
    ensures
        (next.0@, next.1@) == fail(state@, e@),
{
    let mut state = state;
    state.phase = Phase::Finished;
    state.failure = Some(e.clone());
    (state, Action::Finish(Err(e)))
}

fn fail_unexpected(state: Installer) -> (next: (Installer, Action))
    ensures
        (next.0@, next.1@) == fail(state@, unexpected_event()),
{
    fail_with(state, Error::new(ErrorKind::Unknown, "unexpected event"))
}

fn fail_manifest_missing(state: Installer) -> (next: (Installer, Action))
    ensures
        (next.0@, next.1@) == fail(state@, manifest_missing()),
{
    fail_with(state, Error::new(ErrorKind::Unknown, "manifest has not been read"))
}

fn mark_broken(state: Installer, e: Error) -> (next: (Installer, Action))
    ensures
        (next.0@, next.1@) == broken(state@, e@),
{
    let mut state = state;
    state.phase = Phase::MarkingBroken;
    state.failure = Some(e);
    let id = state.id.clone();
    (state, Action::MarkBroken { id })
}

fn cache_miss(state: Installer) -> (next: (Installer, Action))
    ensures
        (next.0@, next.1@) == miss(state@),
{
    let mut state = state;
    state.phase = Phase::ReplacingCache;
    state.source = Source::Download;
    let path = cache_file(&state.id, &state.version);
    (state, Action::ReplaceCacheFile { path })
}

fn advance(state: Installer, phase: Phase, action: Action) -> (next: (Installer, Action))
    ensures
        next.0@ == state@.at(phase),
        next.1 == action,
{
    let mut state = state;
    state.phase = phase;
    (state, action)
}

fn open_transaction(state: Installer) -> (next: (Installer, Action))
    ensures
        (next.0@, next.1@) == begin_transaction(state@),
{
    let mut state = state;
    state.progress.set_read_complete();
    state.phase = Phase::BeginningTransaction;
    let id = state.id.clone();
    let install_progress = state.progress;
    (state, Action::BeginTransaction { id, install_progress })
}

/// The error of a failed transfer.
pub fn error_of_transfer(t: TransferError) -> (e: Error)
    ensures
        e@ == transfer_error(t),
{
    match t {
        TransferError::Transport { is_connect, is_timeout, message } => Error {
            kind: ErrorKind::Network(network_error_kind(is_connect, is_timeout)),
            message,
        },
        TransferError::Sink { message } => Error { kind: ErrorKind::Io, message },
    }
}

/// Judges how the image loader ended: well if its exit code is zero, and
/// otherwise, whatever the code and also where there is none, with an error
/// of the container runtime that carries what the loader wrote to its error
/// stream.
pub fn loader_outcome(exit: LoaderExit) -> (outcome: Result<(), Error>)
    ensures
        outcome is Ok <==> loader_succeeded(exit.code),
        outcome matches Err(e) ==> e@ == loader_error(exit.stderr@),
{
    let LoaderExit { code, stderr } = exit;
    let succeeded = match code {
        Some(c) => c == 0,
        None => false,
    };
    if succeeded {
        Ok(())
    } else {
        let message = match text_from_utf8(stderr) {
            Ok(text) => text,
            Err(reason) => {
                let mut note = String::from_str("Could not parse stderr: ");
                note.append(reason.as_str());
                note
            },
        };
        Err(Error { kind: ErrorKind::ContainerRuntime, message })
    }
}

/// Whether the cached archive is the one that the source announced.
pub fn cache_hit(announced: &Option<Vec<u8>>, declared: &str) -> (hit: bool)
    ensures
        hit == is_cache_hit(
            match announced {
                Some(h) => Some(h@),
                None => None,
            },
            declared@,
        ),
{
    match announced {
        Some(h) => bytes_equal(h.as_slice(), declared.as_bytes()),
        None => false,
    }
}

/// Takes an installation that works on an opened archive one step further:
/// from what it is told to what it asks for next.
pub fn install_s9pk(state: Installer, event: Event) -> (next: (Installer, Action))
    ensures
        (next.0@, next.1@) == install_step(state@, event@),
{
    reveal(install_step);
    let mut state = state;
    if let Phase::Finished = state.phase {
        return finish(state);
    }
    if let Event::Read(n) = event {
        state.progress.add_read(n);
        return (state, Action::Continue);
    }
    if let Event::Written(_) = event {
        return (state, Action::Continue);
    }
    match state.phase {
        Phase::Validating => match event {
            Event::Validated(Ok(total)) => {
                state.progress.set_validated(total);
                state.validated_bytes = Some(total);
                state.phase = Phase::CheckingEntry;
                let id = state.id.clone();
                (state, Action::CheckEntry { id })
            },
            Event::Validated(Err(e)) => fail_with(state, e),
            _ => fail_unexpected(state),
        },
        Phase::CheckingEntry => match event {
            Event::Found(Ok(found)) => {
                if found {
                    advance(state, Phase::ReadingManifest, Action::ReadManifest)
                } else {
                    fail_with(
                        state,
                        Error::new(ErrorKind::NotFound, "PackageDataEntry does not exist"),
                    )
                }
            },
            Event::Found(Err(e)) => fail_with(state, e),
            _ => fail_unexpected(state),
        },
        Phase::ReadingManifest => match event {
            Event::ManifestRead(Ok(manifest)) => {
                state.phase = Phase::CreatingPublicDir;
                state.manifest = Some(manifest);
                let path = public_dir(&state.id, &state.version);
                (state, Action::CreatePublicDir { path })
            },
            Event::ManifestRead(Err(e)) => fail_with(state, e),
            _ => fail_unexpected(state),
        },
        Phase::CreatingPublicDir => match event {
            Event::Done(Ok(_)) => {
                let path = license_path(&state.id, &state.version);
                advance(state, Phase::UnpackingLicense, Action::UnpackLicense { path })
            },
            Event::Done(Err(e)) => fail_with(state, e),
            _ => fail_unexpected(state),
        },
        Phase::UnpackingLicense => match event {
            Event::Done(Ok(_)) => {
                let path = match &state.manifest {
                    Some(manifest) => Some(
                        icon_path(&state.id, &state.version, manifest.icon_type.as_str()),
                    ),
                    None => None,
                };
                match path {
                    Some(path) => advance(
                        state,
                        Phase::UnpackingIcon,
                        Action::UnpackIcon { path },
                    ),
                    None => fail_manifest_missing(state),
                }
            },
            Event::Done(Err(e)) => fail_with(state, e),
            _ => fail_unexpected(state),
        },
        Phase::UnpackingIcon => match event {
            Event::Done(Ok(_)) => advance(state, Phase::LoadingImages, Action::LoadImages),
            Event::Done(Err(e)) => fail_with(state, e),
            _ => fail_unexpected(state),
        },
        Phase::LoadingImages => match event {
            Event::ImagesLoaded(Ok(exit)) => match loader_outcome(exit) {
                Ok(_) => advance(state, Phase::ProbingInstructions, Action::ProbeInstructions),
                Err(e) => fail_with(state, e),
            },
            Event::ImagesLoaded(Err(e)) => fail_with(state, e),
            _ => fail_unexpected(state),
        },
        Phase::ProbingInstructions => match event {
            Event::Found(Ok(found)) => {
                if found {
                    let path = instructions_path(&state.id, &state.version);
                    advance(
                        state,
                        Phase::UnpackingInstructions,
                        Action::UnpackInstructions { path },
                    )
                } else {
                    open_transaction(state)
                }
            },
            Event::Found(Err(e)) => fail_with(state, e),
            _ => fail_unexpected(state),
        },
        Phase::UnpackingInstructions => match event {
            Event::Done(Ok(_)) => open_transaction(state),
            Event::Done(Err(e)) => fail_with(state, e),
            _ => fail_unexpected(state),
        },
        Phase::BeginningTransaction => match event {
            Event::Done(Ok(_)) => advance(state, Phase::InstallingMain, Action::InstallMain),
            Event::Done(Err(e)) => fail_with(state, e),
            _ => fail_unexpected(state),
        },
        Phase::InstallingMain => match event {
            Event::MainInstalled(Ok(ip)) => {
                state.phase = Phase::InstallingInterfaces;
                state.ip = Some(ip);
                (state, Action::InstallInterfaces { ip })
            },
            Event::MainInstalled(Err(e)) => fail_with(state, e),
            _ => fail_unexpected(state),
        },
        Phase::InstallingInterfaces => match event {
            Event::Done(Ok(_)) => {
                let entry = match (&state.manifest, state.ip) {
                    (Some(manifest), Some(ip)) => Some(
                        PackageDataEntry::installed(manifest.clone(), ip),
                    ),
                    _ => None,
                };
                match entry {
                    Some(entry) => {
                        let id = state.id.clone();
                        advance(state, Phase::Committing, Action::Commit { id, entry })
                    },
                    None => fail_manifest_missing(state),
                }
            },
            Event::Done(Err(e)) => fail_with(state, e),
            _ => fail_unexpected(state),
        },
        Phase::Committing => match event {
            Event::Done(Ok(_)) => advance(state, Phase::Finished, Action::Finish(Ok(()))),
            Event::Done(Err(e)) => fail_with(state, e),
            _ => fail_unexpected(state),
        },
        _ => fail_unexpected(state),
    }
}

fn is_install_phase(phase: Phase) -> (yes: bool)
    ensures
        yes == in_install_part(phase),
{
    match phase {
        Phase::Validating
        | Phase::CheckingEntry
        | Phase::ReadingManifest
        | Phase::CreatingPublicDir
        | Phase::UnpackingLicense
        | Phase::UnpackingIcon
        | Phase::LoadingImages
        | Phase::ProbingInstructions
        | Phase::UnpackingInstructions
        | Phase::BeginningTransaction
        | Phase::InstallingMain
        | Phase::InstallingInterfaces
        | Phase::Committing => true,
        _ => false,
    }
}

/// Takes an installation from a network source one step further: from what
/// it is told to what it asks for next.
pub fn download_install_s9pk(state: Installer, event: Event) -> (next: (Installer, Action))
    ensures
        (next.0@, next.1@) == download_install_step(state@, event@),
{
    reveal(download_install_step);
    reveal(install_step);
    let mut state = state;
    if let Phase::Finished = state.phase {
        return finish(state);
    }
    if is_install_phase(state.phase) {
        let ghost before = state@;
        let (mut after, action) = install_s9pk(state, event);
        let failed = match (after.phase, &after.failure) {
            (Phase::Finished, Some(_)) => true,
            _ => false,
        };
        if failed {
            after.phase = Phase::MarkingBroken;
            let id = after.id.clone();
            assert(after.id@ == before.id);
            return (after, Action::MarkBroken { id });
        }
        return (after, action);
    }
    if let Event::Read(n) = event {
        state.progress.add_read(n);
        return (state, Action::Continue);
    }
    if let Event::Written(n) = event {
        if let Phase::Downloading = state.phase {
            state.progress.add_downloaded(n);
        }
        return (state, Action::Continue);
    }
    match state.phase {
        Phase::Start => match event {
            Event::Begin => {
                let path = cache_dir(&state.id, &state.version);
                advance(state, Phase::EnsuringCacheDir, Action::EnsureCacheDir { path })
            },
            _ => mark_broken(state, Error::new(ErrorKind::Unknown, "unexpected event")),
        },
        Phase::EnsuringCacheDir => match event {
            Event::Done(Ok(_)) => {
                if state.declared_hash.is_some() {
                    let path = cache_file(&state.id, &state.version);
                    advance(state, Phase::OpeningCached, Action::OpenCached { path })
                } else {
                    cache_miss(state)
                }
            },
            Event::Done(Err(e)) => mark_broken(state, e),
            _ => mark_broken(state, Error::new(ErrorKind::Unknown, "unexpected event")),
        },
        Phase::OpeningCached => match event {
            Event::Found(Ok(found)) => {
                if found {
                    advance(state, Phase::ReadingCached, Action::ReadCached)
                } else {
                    cache_miss(state)
                }
            },
            Event::Found(Err(_)) => cache_miss(state),
            _ => mark_broken(state, Error::new(ErrorKind::Unknown, "unexpected event")),
        },
        Phase::ReadingCached => match event {
            Event::ArchiveOpened(Ok(declared)) => {
                if cache_hit(&state.declared_hash, declared.as_str()) {
                    state.progress.set_download_complete();
                    state.phase = Phase::Validating;
                    state.source = Source::Cache;
                    (state, Action::Validate)
                } else {
                    cache_miss(state)
                }
            },
            Event::ArchiveOpened(Err(_)) => cache_miss(state),
            _ => mark_broken(state, Error::new(ErrorKind::Unknown, "unexpected event")),
        },
        Phase::ReplacingCache => match event {
            Event::Done(Ok(_)) => advance(state, Phase::Downloading, Action::Download),
            Event::Done(Err(e)) => mark_broken(state, e),
            _ => mark_broken(state, Error::new(ErrorKind::Unknown, "unexpected event")),
        },
        Phase::Downloading => match event {
            Event::Downloaded(Ok(_)) => {
                state.progress.set_download_complete();
                state.phase = Phase::Rewinding;
                (state, Action::Rewind)
            },
            Event::Downloaded(Err(t)) => {
                let e = error_of_transfer(t);
                mark_broken(state, e)
            },
            _ => mark_broken(state, Error::new(ErrorKind::Unknown, "unexpected event")),
        },
        Phase::Rewinding => match event {
            Event::Done(Ok(_)) => advance(state, Phase::OpeningArchive, Action::OpenArchive),
            Event::Done(Err(e)) => mark_broken(state, e),
            _ => mark_broken(state, Error::new(ErrorKind::Unknown, "unexpected event")),
        },
        Phase::OpeningArchive => match event {
            Event::ArchiveOpened(Ok(_)) => advance(state, Phase::Validating, Action::Validate),
            Event::ArchiveOpened(Err(e)) => mark_broken(state, e),
            _ => mark_broken(state, Error::new(ErrorKind::Unknown, "unexpected event")),
        },
        Phase::MarkingBroken => match event {
            Event::Done(Ok(_)) => {
                state.phase = Phase::Finished;
                state.recorded_broken = true;
                finish(state)
            },
            Event::Done(Err(e)) => fail_with(state, e),
            _ => {
                let id = state.id.clone();
                (state, Action::MarkBroken { id })
            },
        },
        _ => mark_broken(state, Error::new(ErrorKind::Unknown, "unexpected event")),
    }
}

} // verus!
