use std::sync::Arc;

use polywrap::native::error::FFIError;
use polywrap::native::resolvers::_static::FFIStaticUriResolver;
use polywrap::native::resolvers::uri_package_or_wrapper::{FFIUriPackageOrWrapper, UriPackageOrWrapper};
use polywrap::native::uri::ffi_uri_from_string;

fn mock_uri_package_or_wrapper() -> FFIUriPackageOrWrapper<String, String> {
    let uri = ffi_uri_from_string("wrap/mock").unwrap();
    FFIUriPackageOrWrapper::from_wrapper(uri, "mock wrapper".to_string())
}

#[test]
fn ffi_static_resolver_returns_error_with_bad_uri() {
    let ffi_uri_package_or_wrapper = mock_uri_package_or_wrapper();
    let ffi_static_resolver = FFIStaticUriResolver::new(vec![(
        "wrong-uri-format".to_string(),
        ffi_uri_package_or_wrapper,
    )]);

    assert!(ffi_static_resolver.is_err());
    assert!(ffi_static_resolver
        .err()
        .unwrap()
        .to_string()
        .contains("Error parsing URI:"));
}

#[test]
fn static_resolver_parses_every_key_in_order() {
    let uri = ffi_uri_from_string("mock/target").unwrap();
    let resolver = FFIStaticUriResolver::new(vec![
        ("wrap/mock".to_string(), mock_uri_package_or_wrapper()),
        (
            "wrap://ens/other".to_string(),
            FFIUriPackageOrWrapper::<String, String>::from_uri(Arc::clone(&uri)),
        ),
    ])
    .ok()
    .unwrap();
    assert_eq!(resolver.uri_map.len(), 2);
    assert_eq!(resolver.uri_map[0].0.to_string_uri(), "wrap://wrap/mock");
    assert_eq!(resolver.uri_map[1].0.authority(), "ens");
    assert_eq!(resolver.uri_map[1].0.path(), "other");
    match &resolver.uri_map[0].1 {
        UriPackageOrWrapper::Wrapper(u, w) => {
            assert_eq!(u.to_string_uri(), "wrap://wrap/mock");
            assert_eq!(w, "mock wrapper");
        }
        _ => panic!("expected a wrapper"),
    }
    match &resolver.uri_map[1].1 {
        UriPackageOrWrapper::Uri(u) => assert_eq!(u.to_string_uri(), "wrap://mock/target"),
        _ => panic!("expected a uri"),
    }
}

#[test]
fn static_resolver_reports_first_bad_key() {
    let resolver = FFIStaticUriResolver::new(vec![
        ("wrap/mock".to_string(), mock_uri_package_or_wrapper()),
        ("ipfs/QmHASHwrap://".to_string(), mock_uri_package_or_wrapper()),
        ("wrong-uri-format".to_string(), mock_uri_package_or_wrapper()),
    ]);
    match resolver.err().unwrap() {
        FFIError::UriParseError { err } => assert_eq!(
            err,
            "\"The wrap:// scheme must be at the beginning of the URI string\""
        ),
        _ => panic!("expected a URI parse error"),
    }
}

#[test]
fn static_resolver_accepts_empty_table() {
    let resolver = FFIStaticUriResolver::<String, String>::new(vec![]).ok().unwrap();
    assert!(resolver.uri_map.is_empty());
}

#[test]
fn static_resolver_keeps_one_entry_per_uri_last_value_wins() {
    let first = ffi_uri_from_string("first/target").unwrap();
    let second = ffi_uri_from_string("second/target").unwrap();
    let resolver = FFIStaticUriResolver::<String, String>::new(vec![
        ("wrap/a".to_string(), FFIUriPackageOrWrapper::from_uri(first)),
        ("wrap/b".to_string(), mock_uri_package_or_wrapper()),
        ("wrap://wrap/a".to_string(), FFIUriPackageOrWrapper::from_uri(second)),
    ])
    .ok()
    .unwrap();
    assert_eq!(resolver.uri_map.len(), 2);
    let entry = resolver
        .uri_map
        .iter()
        .find(|(u, _)| u.to_string_uri() == "wrap://wrap/a")
        .unwrap();
    match &entry.1 {
        UriPackageOrWrapper::Uri(u) => assert_eq!(u.to_string_uri(), "wrap://second/target"),
        _ => panic!("expected a uri"),
    }
    assert!(resolver.uri_map.iter().any(|(u, _)| u.to_string_uri() == "wrap://wrap/b"));
}
