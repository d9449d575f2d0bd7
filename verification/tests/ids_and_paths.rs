use install_core::id::{PackageId, Version};
use install_core::install::log::{cache_warning, log_line};
use install_core::error::{network_error_kind, Error, ErrorKind, NetworkErrorKind};
use install_core::paths::{
    cache_dir, cache_file, db_path, icon_path, instructions_path, license_path, public_dir,
    volume_tmp_path, DEFAULT_DATADIR, PKG_CACHE, PKG_PUBLIC_DIR,
};

#[test]
fn package_ids_are_path_segments_of_identifier_characters() {
    for good in ["hello", "bitcoind", "lnd-2", "my_app", "A1", "x", "-", "_"] {
        let id = PackageId::new(good).expect(good);
        assert_eq!(id.as_str(), good);
    }
    for bad in ["", "a/b", "..", ".", "a b", "a.b", "héllo", "a\0", "pkg/", "日本", "a\n", "a@b"] {
        assert!(PackageId::new(bad).is_none(), "{:?} was accepted", bad);
    }
}

#[test]
fn package_ids_compare_by_their_text() {
    let a = PackageId::new("hello").unwrap();
    let b = PackageId::new("hello").unwrap();
    let c = PackageId::new("hellp").unwrap();
    assert!(a.same(&b));
    assert!(!a.same(&c));
    assert!(a.clone().same(&a));
    assert_eq!(a.clone().as_str(), "hello");
}

#[test]
fn versions_are_written_as_three_numbers_with_dots() {
    assert_eq!(Version::new(1, 0, 0).to_text(), "1.0.0");
    assert_eq!(Version::new(0, 0, 0).to_text(), "0.0.0");
    assert_eq!(Version::new(12, 305, 7).to_text(), "12.305.7");
    assert_eq!(Version::new(10, 100, 1000).to_text(), "10.100.1000");
    assert_eq!(Version::new(9, 99, 999).to_text(), "9.99.999");
    let max = usize::MAX;
    assert_eq!(Version::new(max, 0, max).to_text(), format!("{}.0.{}", max, max));
    let v = Version::new(1, 2, 3);
    assert_eq!((v.major, v.minor, v.patch), (1, 2, 3));
    assert_eq!(v, Version { major: 1, minor: 2, patch: 3 });
}

#[test]
fn paths_of_a_package_version() {
    let id = PackageId::new("hello").unwrap();
    let v = Version::new(1, 0, 0);
    assert_eq!(PKG_CACHE, "/mnt/embassy-os/cache/packages");
    assert_eq!(PKG_PUBLIC_DIR, "/mnt/embassy-os/public/package-data");
    assert_eq!(cache_dir(&id, &v), "/mnt/embassy-os/cache/packages/hello/1.0.0");
    assert_eq!(cache_file(&id, &v), "/mnt/embassy-os/cache/packages/hello/1.0.0/hello.s9pk");
    assert_eq!(public_dir(&id, &v), "/mnt/embassy-os/public/package-data/hello/1.0.0");
    assert_eq!(
        license_path(&id, &v),
        "/mnt/embassy-os/public/package-data/hello/1.0.0/LICENSE.md"
    );
    assert_eq!(
        icon_path(&id, &v, "png"),
        "/mnt/embassy-os/public/package-data/hello/1.0.0/icon.png"
    );
    assert_eq!(
        icon_path(&id, &v, "svg"),
        "/mnt/embassy-os/public/package-data/hello/1.0.0/icon.svg"
    );
    assert_eq!(
        instructions_path(&id, &v),
        "/mnt/embassy-os/public/package-data/hello/1.0.0/INSTRUCTIONS.md"
    );
}

#[test]
fn paths_below_the_data_directory() {
    let id = PackageId::new("lnd").unwrap();
    assert_eq!(DEFAULT_DATADIR, "/embassy-data");
    assert_eq!(db_path("/embassy-data"), "/embassy-data/main/embassy.db");
    assert_eq!(db_path("/tmp/x"), "/tmp/x/main/embassy.db");
    assert_eq!(
        volume_tmp_path("/embassy-data", &id, "main"),
        "/embassy-data/package-data/volumes/lnd/data/main.tmp"
    );
}

#[test]
fn log_lines_begin_with_package_and_version() {
    let id = PackageId::new("hello").unwrap();
    let v = Version::new(1, 2, 3);
    assert_eq!(log_line(&id, &v, "Unpacking Manifest"), "Install hello@1.2.3: Unpacking Manifest");
    assert_eq!(log_line(&id, &v, ""), "Install hello@1.2.3: ");
    let e = Error { kind: ErrorKind::Io, message: "permission denied".to_string() };
    assert_eq!(
        cache_warning(&id, &v, &e),
        "Install hello@1.2.3: Could not open cache: Io: permission denied"
    );
}

#[test]
fn transport_failures_are_classified() {
    assert_eq!(network_error_kind(true, false), NetworkErrorKind::ConnectionRefused);
    assert_eq!(network_error_kind(true, true), NetworkErrorKind::ConnectionRefused);
    assert_eq!(network_error_kind(false, true), NetworkErrorKind::TimedOut);
    assert_eq!(network_error_kind(false, false), NetworkErrorKind::Other);
}

#[test]
fn errors_are_rendered_with_their_kind() {
    let cases = [
        (ErrorKind::Network(NetworkErrorKind::ConnectionRefused), "Network(ConnectionRefused)"),
        (ErrorKind::Network(NetworkErrorKind::TimedOut), "Network(TimedOut)"),
        (ErrorKind::Network(NetworkErrorKind::Other), "Network(Other)"),
        (ErrorKind::Io, "Io"),
        (ErrorKind::InvalidArchive, "InvalidArchive"),
        (ErrorKind::HashMismatch, "HashMismatch"),
        (ErrorKind::SectionMissing, "SectionMissing"),
        (ErrorKind::ContainerRuntime, "ContainerRuntime"),
        (ErrorKind::Database, "Database"),
        (ErrorKind::DependencyMissing, "DependencyMissing"),
        (ErrorKind::NotFound, "NotFound"),
        (ErrorKind::ParseUrl, "ParseUrl"),
        (ErrorKind::Filesystem, "Filesystem"),
        (ErrorKind::Unknown, "Unknown"),
    ];
    for (kind, tag) in cases {
        assert_eq!(kind.tag(), tag);
        let e = Error::new(kind, "it broke");
        assert_eq!(e.kind, kind);
        assert_eq!(e.message, "it broke");
        assert_eq!(e.render(), format!("{}: it broke", tag));
        let copy = e.clone();
        assert_eq!(copy.kind, kind);
        assert_eq!(copy.message, "it broke");
    }
}
