use http::header::{HeaderMap, HeaderName, HeaderValue};
use install_core::cache::{declared_hash, HASH_HEADER};
use install_core::id::{PackageId, Version};
use install_core::install::machine::{Installer, Phase, Source};

#[test]
fn the_announced_hash_is_the_value_of_the_hash_header() {
    assert_eq!(HASH_HEADER, "x-s9pk-hash");
    let mut headers = HeaderMap::new();
    assert_eq!(declared_hash(&headers), None);
    headers.insert("content-type", HeaderValue::from_static("application/octet-stream"));
    assert_eq!(declared_hash(&headers), None);
    headers.insert("x-s9pk-hash", HeaderValue::from_static("abc123"));
    assert_eq!(declared_hash(&headers), Some(b"abc123".to_vec()));
}

#[test]
fn header_names_are_matched_whatever_their_case_was() {
    let mut headers = HeaderMap::new();
    headers.insert(
        HeaderName::from_bytes(b"X-S9PK-Hash").unwrap(),
        HeaderValue::from_static("00ff"),
    );
    assert_eq!(declared_hash(&headers), Some(b"00ff".to_vec()));
}

#[test]
fn the_first_of_several_values_is_taken() {
    let mut headers = HeaderMap::new();
    headers.append("x-s9pk-hash", HeaderValue::from_static("first"));
    headers.append("x-s9pk-hash", HeaderValue::from_static("second"));
    assert_eq!(declared_hash(&headers), Some(b"first".to_vec()));
}

#[test]
fn a_value_need_not_be_text() {
    let mut headers = HeaderMap::new();
    headers.insert("x-s9pk-hash", HeaderValue::from_bytes(&[0xe9, 0x80]).unwrap());
    assert_eq!(declared_hash(&headers), Some(vec![0xe9, 0x80]));
    headers.insert("x-s9pk-hash", HeaderValue::from_static(""));
    assert_eq!(declared_hash(&headers), Some(Vec::new()));
}

#[test]
fn an_installation_takes_size_and_hash_from_the_response() {
    let mut headers = HeaderMap::new();
    headers.insert("x-s9pk-hash", HeaderValue::from_static("abc"));
    let installer = Installer::for_response(
        PackageId::new("hello").unwrap(),
        Version::new(1, 0, 0),
        Some(4096),
        &headers,
    );
    assert_eq!(installer.declared_hash, Some(b"abc".to_vec()));
    assert_eq!(installer.progress.size, Some(4096));
    assert_eq!(installer.phase, Phase::Start);
    assert_eq!(installer.source, Source::Undecided);
    assert_eq!(installer.id.as_str(), "hello");
    let installer = Installer::for_response(
        PackageId::new("hello").unwrap(),
        Version::new(1, 0, 0),
        None,
        &HeaderMap::new(),
    );
    assert_eq!(installer.declared_hash, None);
    assert_eq!(installer.progress.size, None);
}
