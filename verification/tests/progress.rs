use install_core::progress::{InstallProgress, ProgressTracker, Watch, SNAPSHOT_INTERVAL_MS};

#[test]
fn a_new_progress_has_counted_nothing() {
    let p = InstallProgress::new(Some(1000));
    assert_eq!(
        p,
        InstallProgress {
            size: Some(1000),
            downloaded: 0,
            download_complete: false,
            validated: 0,
            read: 0,
            read_complete: false,
        }
    );
    assert_eq!(InstallProgress::new(None).size, None);
}

#[test]
fn counters_add_up_and_stop_at_the_largest_value() {
    let mut p = InstallProgress::new(None);
    p.add_downloaded(10);
    p.add_downloaded(0);
    p.add_downloaded(32);
    assert_eq!(p.downloaded, 42);
    p.add_read(7);
    p.add_read(8);
    assert_eq!(p.read, 15);
    p.add_downloaded(u64::MAX);
    assert_eq!(p.downloaded, u64::MAX);
    p.add_downloaded(1);
    assert_eq!(p.downloaded, u64::MAX);
    p.add_read(u64::MAX - 15);
    assert_eq!(p.read, u64::MAX);
    p.add_read(5);
    assert_eq!(p.read, u64::MAX);
    assert_eq!(p.validated, 0);
    assert!(!p.download_complete && !p.read_complete);
}

#[test]
fn validation_sets_the_counter_to_the_bytes_checked_and_never_back() {
    let mut p = InstallProgress::new(Some(500));
    p.set_validated(500);
    assert_eq!(p.validated, 500);
    p.set_validated(100);
    assert_eq!(p.validated, 500);
    p.set_validated(600);
    assert_eq!(p.validated, 600);
    assert_eq!((p.downloaded, p.read), (0, 0));
}

#[test]
fn flags_are_set_and_stay_set() {
    let mut p = InstallProgress::new(Some(5));
    p.set_download_complete();
    assert!(p.download_complete && !p.read_complete);
    p.set_read_complete();
    assert!(p.download_complete && p.read_complete);
    p.set_download_complete();
    p.add_read(1);
    assert!(p.download_complete && p.read_complete);
    assert_eq!(p.size, Some(5));
}

#[test]
fn counters_never_decrease_over_a_sequence_of_observations() {
    let mut p = InstallProgress::new(Some(100));
    let mut seen = vec![p];
    p.add_downloaded(40);
    seen.push(p);
    p.add_downloaded(60);
    seen.push(p);
    p.set_download_complete();
    seen.push(p);
    p.add_read(100);
    seen.push(p);
    p.set_validated(100);
    seen.push(p);
    p.add_read(30);
    seen.push(p);
    p.set_read_complete();
    seen.push(p);
    for pair in seen.windows(2) {
        let (a, b) = (pair[0], pair[1]);
        assert!(a.downloaded <= b.downloaded);
        assert!(a.read <= b.read);
        assert!(a.validated <= b.validated);
        assert!(!a.download_complete || b.download_complete);
        assert!(!a.read_complete || b.read_complete);
        assert_eq!(a.size, b.size);
    }
}

#[test]
fn a_snapshot_is_due_after_the_interval_and_a_hundredth() {
    assert_eq!(SNAPSHOT_INTERVAL_MS, 250);
    let start = InstallProgress::new(Some(1000));
    let mut moved = start;
    moved.add_downloaded(10);
    // Interval passed and exactly one hundredth moved: due.
    let mut t = ProgressTracker::new(Watch::Download, start, 1_000);
    assert_eq!(t.observe(moved, 1_250, false), Some(moved));
    assert_eq!(t.last, moved);
    assert_eq!(t.last_ms, 1_250);
    // One millisecond too early: not due, and nothing is remembered.
    let mut t = ProgressTracker::new(Watch::Download, start, 1_000);
    assert_eq!(t.observe(moved, 1_249, false), None);
    assert_eq!(t.last, start);
    assert_eq!(t.last_ms, 1_000);
    // One byte too few: not due.
    let mut little = start;
    little.add_downloaded(9);
    let mut t = ProgressTracker::new(Watch::Download, start, 1_000);
    assert_eq!(t.observe(little, 5_000, false), None);
    // The end is always published.
    assert_eq!(t.observe(little, 5_000, true), Some(little));
    assert_eq!(t.observe(little, 5_000, true), Some(little));
}

#[test]
fn a_hundredth_is_rounded_up() {
    let start = InstallProgress::new(Some(1001));
    let mut ten = start;
    ten.add_read(10);
    let mut eleven = start;
    eleven.add_read(11);
    let mut t = ProgressTracker::new(Watch::Read, start, 0);
    // 10 * 100 = 1000 < 1001
    assert_eq!(t.observe(ten, 300, false), None);
    // 11 * 100 = 1100 >= 1001
    assert_eq!(t.observe(eleven, 300, false), Some(eleven));
}

#[test]
fn a_tracker_watches_one_counter_only() {
    let start = InstallProgress::new(Some(100));
    let mut read_only = start;
    read_only.add_read(50);
    let mut t = ProgressTracker::new(Watch::Download, start, 0);
    assert_eq!(t.observe(read_only, 1_000, false), None);
    let mut t = ProgressTracker::new(Watch::Read, start, 0);
    assert_eq!(t.observe(read_only, 1_000, false), Some(read_only));
    assert_eq!(t.which, Watch::Read);
}

#[test]
fn without_a_size_any_movement_counts() {
    let start = InstallProgress::new(None);
    let mut one = start;
    one.add_downloaded(1);
    let mut t = ProgressTracker::new(Watch::Download, start, 0);
    assert_eq!(t.observe(start, 250, false), None);
    assert_eq!(t.observe(one, 250, false), Some(one));
    assert_eq!(t.observe(one, 600, false), None);
}

#[test]
fn a_size_of_zero_and_a_clock_that_goes_back() {
    let start = InstallProgress::new(Some(0));
    let mut t = ProgressTracker::new(Watch::Download, start, 1_000);
    // Nothing moved, but nothing is a hundredth of nothing.
    assert_eq!(t.observe(start, 1_250, false), Some(start));
    // The clock went back: no time has passed.
    let mut t = ProgressTracker::new(Watch::Download, start, 1_000);
    assert_eq!(t.observe(start, 10, false), None);
}
