//! Progress of one installation: byte counters, completion flags, and the rule
//! by which snapshots of them are published.

use vstd::prelude::*;

verus! {

/// The counters and flags of one installation.
#[derive(Clone, Copy, Debug, PartialEq, Eq, Structural)]
pub struct InstallProgress {
    /// Size of the archive in bytes, where the source has announced it.
    pub size: Option<u64>,
    /// Bytes written to the cache file by the download.
    pub downloaded: u64,
    pub download_complete: bool,
    /// Zero until the archive's hash has been checked, then the number of
    /// bytes that were checked.
    pub validated: u64,
    /// Bytes read from the archive.
    pub read: u64,
    pub read_complete: bool,
}

/// Sum of two counters, held at the largest value a counter can have.
pub open spec fn counter_sum(a: u64, b: u64) -> u64 {
    if a + b > u64::MAX {
        u64::MAX
    } else {
        (a + b) as u64
    }
}

/// The larger of two counters.
pub open spec fn counter_max(a: u64, b: u64) -> u64 {
    if a >= b {
        a
    } else {
        b
    }
}

impl InstallProgress {
    /// Whether `later` can be observed after `self`: the size is the same, no
    /// counter is smaller and no flag has been taken back.
    pub open spec fn advances_to(self, later: InstallProgress) -> bool {
        &&& later.size == self.size
        &&& self.downloaded <= later.downloaded
        &&& self.validated <= later.validated
        &&& self.read <= later.read
        &&& self.download_complete ==> later.download_complete
        &&& self.read_complete ==> later.read_complete
    }

    /// Whether the counters stand in their order: no more validated than
    /// read, no more read than downloaded, no more downloaded than the
    /// announced size.
    pub open spec fn in_order(self) -> bool {
        &&& self.validated <= self.read
        &&& self.read <= self.downloaded
        &&& self.size matches Some(size) ==> self.downloaded <= size
    }

    /// Whether nothing has happened yet.
    pub open spec fn is_fresh(self) -> bool {
        &&& self.downloaded == 0
        &&& self.validated == 0
        &&& self.read == 0
        &&& !self.download_complete
        &&& !self.read_complete
    }

    /// The progress of an installation that has not begun.
    pub fn new(size: Option<u64>) -> (p: InstallProgress)
        ensures
            p.size == size,
            p.is_fresh(),
    {
        InstallProgress {
            size,
            downloaded: 0,
            download_complete: false,
            validated: 0,
            read: 0,
            read_complete: false,
        }
    }

    /// Records that the download has written `bytes` more bytes.
    pub fn add_downloaded(&mut self, bytes: u64)
        ensures
            *final(self) == (InstallProgress {
                downloaded: counter_sum(old(self).downloaded, bytes),
                ..*old(self)
            }),
            old(self).advances_to(*final(self)),
            old(self).in_order() && (old(self).size matches Some(size) ==> old(self).downloaded
                + bytes <= size) ==> final(self).in_order(),
    {
        self.downloaded = self.downloaded.saturating_add(bytes);
    }

    /// Records that `bytes` more bytes have been read from the archive.
    pub fn add_read(&mut self, bytes: u64)
        ensures
            *final(self) == (InstallProgress {
                read: counter_sum(old(self).read, bytes),
                ..*old(self)
            }),
            old(self).advances_to(*final(self)),
            old(self).in_order() && old(self).read + bytes <= old(self).downloaded
                ==> final(self).in_order(),
    {
        self.read = self.read.saturating_add(bytes);
    }

    /// Records that the hash of the archive has been checked over `total`
    /// bytes.
    pub fn set_validated(&mut self, total: u64)
        ensures
            *final(self) == (InstallProgress {
                validated: counter_max(old(self).validated, total),
                ..*old(self)
            }),
            old(self).advances_to(*final(self)),
            old(self).in_order() && total <= old(self).read ==> final(self).in_order(),
    {
        if total > self.validated {
            self.validated = total;
        }
    }

    /// Records that the download has ended.
    pub fn set_download_complete(&mut self)
        ensures
            *final(self) == (InstallProgress { download_complete: true, ..*old(self) }),
            old(self).advances_to(*final(self)),
            old(self).in_order() ==> final(self).in_order(),
    {
        self.download_complete = true;
    }

    /// Records that everything has been read from the archive.
    pub fn set_read_complete(&mut self)
        ensures
            *final(self) == (InstallProgress { read_complete: true, ..*old(self) }),
            old(self).advances_to(*final(self)),
            old(self).in_order() ==> final(self).in_order(),
    {
        self.read_complete = true;
    }
}

/// Every state can be observed after itself.
pub proof fn lemma_advances_reflexive(p: InstallProgress)
    ensures
        p.advances_to(p),
{
}

/// What is observed later still lies after what was observed first: over
/// any sequence of observations no counter decreases.
pub proof fn lemma_advances_transitive(a: InstallProgress, b: InstallProgress, c: InstallProgress)
    requires
        a.advances_to(b),
        b.advances_to(c),
    ensures
        a.advances_to(c),
{
}

/// Which counter a tracking scope watches.
#[derive(Clone, Copy, Debug, PartialEq, Eq, Structural)]
pub enum Watch {
    Download,
    Read,
}

/// Least time between two published snapshots, in milliseconds.
pub const SNAPSHOT_INTERVAL_MS: u64 = 250;

/// The watched counter of a snapshot.
pub open spec fn watched(p: InstallProgress, which: Watch) -> u64 {
    match which {
        Watch::Download => p.downloaded,
        Watch::Read => p.read,
    }
}

/// Whether the watched counter has moved by a hundredth of the size since the
/// last published snapshot; where the size is not known, whether it has moved
/// at all.
pub open spec fn moved_a_percent(last: InstallProgress, now: InstallProgress, which: Watch) -> bool {
    let delta = watched(now, which) - watched(last, which);
    match now.size {
        Some(size) => delta >= 0 && delta * 100 >= size,
        None => delta > 0,
    }
}

/// Whether a snapshot is to be published: always when the tracked work has
/// ended; before that, when the interval has passed since the last one and
/// the watched counter has moved by a hundredth.
pub open spec fn snapshot_due(
    last: InstallProgress,
    now: InstallProgress,
    which: Watch,
    elapsed_ms: u64,
    ended: bool,
) -> bool {
    ended || (elapsed_ms >= SNAPSHOT_INTERVAL_MS && moved_a_percent(last, now, which))
}

/// Publishes snapshots of a progress for the time of one piece of work.
#[derive(Clone, Copy, Debug)]
pub struct ProgressTracker {
    pub which: Watch,
    /// The snapshot published last.
    pub last: InstallProgress,
    /// When it was published, in milliseconds on the caller's clock.
    pub last_ms: u64,
}

impl ProgressTracker {
    /// A tracker that begins at `now_ms` with `start` as the snapshot
    /// published last.
    pub fn new(which: Watch, start: InstallProgress, now_ms: u64) -> (t: ProgressTracker)
        ensures
            t == (ProgressTracker { which, last: start, last_ms: now_ms }),
    {
        ProgressTracker { which, last: start, last_ms: now_ms }
    }

    /// The time since the last published snapshot; zero where the clock has
    /// gone back.
    pub open spec fn elapsed(self, now_ms: u64) -> u64 {
        if now_ms >= self.last_ms {
            (now_ms - self.last_ms) as u64
        } else {
            0
        }
    }

    /// Looks at the progress at time `now_ms`. Returns the snapshot to publish,
    /// if one is due, and remembers it as the last one.
    pub fn observe(&mut self, now: InstallProgress, now_ms: u64, ended: bool) -> (publish: Option<
        InstallProgress,
    >)
        ensures
            publish == if snapshot_due(
                old(self).last,
                now,
                old(self).which,
                old(self).elapsed(now_ms),
                ended,
            ) {
                Some(now)
            } else {
                None
            },
            final(self).which == old(self).which,
            publish is Some ==> final(self).last == now && final(self).last_ms == now_ms,
            publish is None ==> *final(self) == *old(self),
    {
        let elapsed: u64 = if now_ms >= self.last_ms {
            now_ms - self.last_ms
        } else {
            0
        };
        let (seen, before): (u64, u64) = match self.which {
            Watch::Download => (now.downloaded, self.last.downloaded),
            Watch::Read => (now.read, self.last.read),
        };
        let moved = if seen < before {
            false
        } else {
            let delta: u64 = seen - before;
            match now.size {
                Some(size) => delta >= size / 100 + (if size % 100 == 0 {
                    0
                } else {
                    1
                }),
                None => delta > 0,
            }
        };
        assert(moved == moved_a_percent(self.last, now, self.which)) by (nonlinear_arith)
            requires
                seen == watched(now, self.which),
                before == watched(self.last, self.which),
                moved == if seen < before {
                    false
                } else {
                    match now.size {
                        Some(size) => seen - before >= size / 100 + (if size % 100 == 0 {
                            0int
                        } else {
                            1int
                        }),
                        None => seen - before > 0,
                    }
                },
        ;
        if ended || (elapsed >= SNAPSHOT_INTERVAL_MS && moved) {
            self.last = now;
            self.last_ms = now_ms;
            Some(now)
        } else {
            None
        }
    }
}

} // verus!
