use std::collections::HashMap;
use std::sync::Arc;

use polywrap::ffi_c::invoke::ArgsBuffer;
use polywrap::ffi_c::resolvers::uri_package_or_wrapper::UriPackageOrWrapperType;
use polywrap::ffi_c::resolvers::uri_resolver::SafeUriResolversType;
use polywrap::ffi_c::resolvers::uri_resolver_like::UriResolverLikeType;
use polywrap::native::error::{ClientError, FFIError};
use polywrap::native::resolvers::uri_package_or_wrapper::{
    FFIUriPackageOrWrapper, FFIUriPackageOrWrapperKind, FFIUriWrapPackage, FFIUriWrapper,
    UriPackageOrWrapper,
};
use polywrap::native::resolvers::uri_resolver_like::{
    FFIUriResolverLike, FFIUriResolverLikeKind, FFIUriResolverLikePackageVariant,
    FFIUriResolverLikeRedirectVariant, FFIUriResolverLikeResolverLikeVariant,
    FFIUriResolverLikeResolverVariant, FFIUriResolverLikeWrapperVariant, UriResolverLike,
};
use polywrap::native::uri::{ffi_uri_from_string, FFIUri};

type Item = FFIUriResolverLike<String, String, String>;

fn uri(s: &str) -> Arc<FFIUri> {
    ffi_uri_from_string(s).unwrap()
}

#[test]
fn ffi_error_messages() {
    let e = |v: FFIError| v.to_string();
    assert_eq!(e(FFIError::UriParseError { err: "bad".into() }), "Error parsing URI: `bad`");
    assert_eq!(e(FFIError::WrapperError { err: "w".into() }), "`w`");
    assert_eq!(
        e(FFIError::WrapperCreateError { err: "w".into() }),
        "Failed to create wrapper: `w`"
    );
    assert_eq!(
        e(FFIError::InvokeError { uri: "u".into(), method: "m".into(), err: "x".into() }),
        "Failed to invoke wrapper, uri: `u`, method: `m`: `x`"
    );
    assert_eq!(
        e(FFIError::LoadWrapperError { uri: "u".into(), err: "x".into() }),
        "Error loading wrapper: `x`"
    );
    assert_eq!(e(FFIError::WasmWrapperError { err: "x".into() }), "WasmWrapper error: `x`");
    assert_eq!(e(FFIError::ResolutionError { err: "x".into() }), "Failed to resolve wrapper: `x`");
    assert_eq!(e(FFIError::UriNotFoundError { uri: "u".into() }), "URI not found: `u`");
    assert_eq!(e(FFIError::MsgpackError { err: "x".into() }), "`x`");
    assert_eq!(e(FFIError::ManifestError { err: "x".into() }), "`x`");
    assert_eq!(e(FFIError::FileReadError { err: "x".into() }), "Error reading file: `x`");
    assert_eq!(e(FFIError::ResolverError { err: "x".into() }), "`x`");
    assert_eq!(e(FFIError::PluginError { err: "x".into() }), "`x`");
    assert_eq!(e(FFIError::RuntimeError { err: "x".into() }), "`x`");
    assert_eq!(e(FFIError::OtherError { err: "x".into() }), "`x`");
}

#[test]
fn redirects_error_message_holds_stack() {
    let mut stack = HashMap::new();
    stack.insert("wrap://aa/b".to_string(), "wrap://cc/d".to_string());
    let msg = FFIError::RedirectsError { err: "loop".into(), resolution_stack: stack }.to_string();
    assert!(msg.starts_with("`loop`\nResolution Stack: `"));
    assert!(msg.contains("wrap://aa/b"));
    assert!(msg.ends_with('`'));
}

#[test]
fn client_error_conversions_roundtrip() {
    let samples = vec![
        ClientError::UriParseError("p".into()),
        ClientError::InvokeError("u".into(), "m".into(), "e".into()),
        ClientError::LoadWrapperError("u".into(), "e".into()),
        ClientError::MsgpackError("m".into()),
        ClientError::OtherError("o".into()),
    ];
    for c in samples {
        let text = format!("{:?}", c);
        let f = FFIError::from(c);
        let back = ClientError::from(f);
        assert_eq!(format!("{:?}", back), text);
    }
    match FFIError::from(ClientError::InvokeError("u".into(), "m".into(), "e".into())) {
        FFIError::InvokeError { uri, method, err } => {
            assert_eq!((uri.as_str(), method.as_str(), err.as_str()), ("u", "m", "e"))
        }
        _ => panic!("expected an invoke error"),
    }
    match ClientError::from(FFIError::UriNotFoundError { uri: "u".into() }) {
        ClientError::UriNotFoundError(u) => assert_eq!(u, "u"),
        _ => panic!("expected a not found error"),
    }
}

#[test]
fn uri_package_or_wrapper_kinds_and_casts() {
    let u: FFIUriPackageOrWrapper<String, String> = FFIUriPackageOrWrapper::from_uri(uri("mock/a"));
    assert_eq!(u.get_kind(), FFIUriPackageOrWrapperKind::URI);
    assert_eq!(u.as_uri().ok().unwrap().to_string_uri(), "wrap://mock/a");
    match u.as_wrapper() {
        Err(FFIError::ResolutionError { err }) => assert_eq!(
            err,
            "Cannot cast uri_package_or_wrapper as Package. This instance is of type 'Uri'"
        ),
        _ => panic!("expected a resolution error"),
    }

    let w: FFIUriPackageOrWrapper<String, String> =
        FFIUriPackageOrWrapper::from_wrapper(uri("mock/w"), "wrapper".to_string());
    assert_eq!(w.get_kind(), FFIUriPackageOrWrapperKind::WRAPPER);
    let FFIUriWrapper { uri: wu, wrapper } = w.as_wrapper().ok().unwrap();
    assert_eq!(wu.to_string_uri(), "wrap://mock/w");
    assert_eq!(wrapper, "wrapper");
    match w.as_package() {
        Err(FFIError::ResolutionError { err }) => assert!(err.ends_with("'Wrapper'")),
        _ => panic!("expected a resolution error"),
    }
    assert!(w.as_uri().is_err());

    let p: FFIUriPackageOrWrapper<String, String> =
        FFIUriPackageOrWrapper::from_package(uri("mock/p"), "package".to_string());
    assert_eq!(p.get_kind(), FFIUriPackageOrWrapperKind::PACKAGE);
    let FFIUriWrapPackage { uri: pu, package } = p.as_package().ok().unwrap();
    assert_eq!(pu.path(), "p");
    assert_eq!(package, "package");
    match p.as_uri() {
        Err(FFIError::ResolutionError { err }) => assert!(err.ends_with("'Package'")),
        _ => panic!("expected a resolution error"),
    }
    assert!(matches!(p.0, UriPackageOrWrapper::Package(_, _)));
}

#[test]
fn kind_names() {
    assert_eq!(FFIUriPackageOrWrapperKind::URI.to_string(), "Uri");
    assert_eq!(FFIUriPackageOrWrapperKind::PACKAGE.to_string(), "Package");
    assert_eq!(FFIUriPackageOrWrapperKind::WRAPPER.to_string(), "Wrapper");
}

#[test]
fn resolver_like_constructors_and_getters() {
    let redirect = Arc::new(FFIUriResolverLikeRedirectVariant::new(uri("aa/b"), uri("cc/d")));
    let item: Item = FFIUriResolverLike::new_redirect(redirect);
    assert!(item.get_kind() == FFIUriResolverLikeKind::_Redirect);
    assert!(item.get_resolver().is_none());
    assert!(item.get_package().is_none());
    assert!(item.get_wrapper().is_none());
    assert!(item.get_resolver_like().is_none());
    let r = item.get_redirect().unwrap();
    assert_eq!(r.from.to_string_uri(), "wrap://aa/b");
    assert_eq!(r.to.to_string_uri(), "wrap://cc/d");

    let item: Item = FFIUriResolverLike::new_resolver(Arc::new(
        FFIUriResolverLikeResolverVariant::new("resolver".to_string()),
    ));
    assert!(item.get_kind() == FFIUriResolverLikeKind::_Resolver);
    assert_eq!(*item.get_resolver().unwrap().resolver, "resolver");
    assert!(item.get_redirect().is_none());
}

#[test]
fn resolver_like_converts_recursively() {
    let package: Item = FFIUriResolverLike::new_package(Arc::new(
        FFIUriResolverLikePackageVariant::new(uri("pp/q"), Arc::new("pkg".to_string())),
    ));
    let wrapper: Item = FFIUriResolverLike::new_wrapper(Arc::new(
        FFIUriResolverLikeWrapperVariant::new(uri("ww/x"), Arc::new("wrp".to_string())),
    ));
    let list: Item = FFIUriResolverLike::new_resolver_like(Arc::new(
        FFIUriResolverLikeResolverLikeVariant::new(vec![Arc::new(package), Arc::new(wrapper)]),
    ));
    assert!(list.get_kind() == FFIUriResolverLikeKind::_ResolverLike);
    match list.to_uri_resolver_like() {
        UriResolverLike::ResolverLike(items) => {
            assert_eq!(items.len(), 2);
            match &items[0] {
                UriResolverLike::Package(u, p) => {
                    assert_eq!(u.to_string_uri(), "wrap://pp/q");
                    assert_eq!(p.as_str(), "pkg");
                }
                _ => panic!("expected a package"),
            }
            match &items[1] {
                UriResolverLike::Wrapper(u, w) => {
                    assert_eq!(u.authority(), "ww");
                    assert_eq!(w.as_str(), "wrp");
                }
                _ => panic!("expected a wrapper"),
            }
        }
        _ => panic!("expected a list"),
    }
    let redirect: Item = FFIUriResolverLike::new_redirect(Arc::new(
        FFIUriResolverLikeRedirectVariant::new(uri("aa/b"), uri("cc/d")),
    ));
    match redirect.to_uri_resolver_like() {
        UriResolverLike::Redirect(from, to) => {
            assert_eq!(from.to_string_uri(), "wrap://aa/b");
            assert_eq!(to.to_string_uri(), "wrap://cc/d");
        }
        _ => panic!("expected a redirect"),
    }
}

#[test]
fn c_interface_tags_map_to_kinds() {
    assert_eq!(UriPackageOrWrapperType::Uri.kind(), FFIUriPackageOrWrapperKind::URI);
    assert_eq!(UriPackageOrWrapperType::WasmWrapper.kind(), FFIUriPackageOrWrapperKind::WRAPPER);
    assert_eq!(UriPackageOrWrapperType::PluginWrapper.kind(), FFIUriPackageOrWrapperKind::WRAPPER);
    assert_eq!(UriPackageOrWrapperType::WasmPackage.kind(), FFIUriPackageOrWrapperKind::PACKAGE);
    assert_eq!(UriPackageOrWrapperType::PluginPackage.kind(), FFIUriPackageOrWrapperKind::PACKAGE);
    assert!(UriResolverLikeType::Resolver.kind() == FFIUriResolverLikeKind::_Resolver);
    assert!(UriResolverLikeType::Redirect.kind() == FFIUriResolverLikeKind::_Redirect);
    assert!(UriResolverLikeType::WasmPackage.kind() == FFIUriResolverLikeKind::_Package);
    assert!(UriResolverLikeType::PluginPackage.kind() == FFIUriResolverLikeKind::_Package);
    assert!(UriResolverLikeType::WasmWrapper.kind() == FFIUriResolverLikeKind::_Wrapper);
    assert!(UriResolverLikeType::PluginWrapper.kind() == FFIUriResolverLikeKind::_Wrapper);
    assert!(SafeUriResolversType::Static != SafeUriResolversType::Recursive);
}

#[test]
fn args_buffer_holds_bytes() {
    let buffer = ArgsBuffer::new(vec![1, 2, 3]);
    assert_eq!(buffer.len(), 3);
    assert_eq!(buffer.data, vec![1, 2, 3]);
    assert_eq!(ArgsBuffer::new(vec![]).len(), 0);
}

#[test]
fn loader_holds_client() {
    let loader = polywrap::native::loader::FFILoader::new(Arc::new("client".to_string()));
    let _ = loader;
}

#[test]
fn redirects_error_with_empty_stack() {
    let msg = FFIError::RedirectsError { err: "loop".into(), resolution_stack: HashMap::new() }
        .to_string();
    assert_eq!(msg, "`loop`\nResolution Stack: `{}`");
}
