use vstd::prelude::*;
use vstd::pervasive::cloned;
use std::sync::Arc;
use crate::native::error::FFIError;
use crate::native::uri::FFIUri;

verus! {

/// What a URI resolves to: another URI, a package or a wrapper.
#[derive(Clone, Copy, Debug, PartialEq, Eq, Structural)]
pub enum FFIUriPackageOrWrapperKind {
    URI,
    PACKAGE,
    WRAPPER,
}

impl FFIUriPackageOrWrapperKind {
    pub open spec fn spec_name(&self) -> Seq<char> {
        match self {
            FFIUriPackageOrWrapperKind::URI => "Uri"@,
            FFIUriPackageOrWrapperKind::PACKAGE => "Package"@,
            FFIUriPackageOrWrapperKind::WRAPPER => "Wrapper"@,
        }
    }

    /// The name the kind is displayed with.
    pub fn to_string(&self) -> (res: String)
        ensures
            res@ == self.spec_name(),
    {
        match self {
            FFIUriPackageOrWrapperKind::URI => String::from_str("Uri"),
            FFIUriPackageOrWrapperKind::PACKAGE => String::from_str("Package"),
            FFIUriPackageOrWrapperKind::WRAPPER => String::from_str("Wrapper"),
        }
    }
}

/// A URI together with the wrapper it resolved to.
pub struct FFIUriWrapper<W> {
    pub uri: Arc<FFIUri>,
    pub wrapper: W,
}

impl<W> FFIUriWrapper<W> {
    pub fn new(uri: Arc<FFIUri>, wrapper: W) -> (res: Self)
        ensures
            res.uri == uri,
            res.wrapper == wrapper,
    {
        FFIUriWrapper { uri, wrapper }
    }
}

/// A URI together with the package it resolved to.
pub struct FFIUriWrapPackage<P> {
    pub uri: Arc<FFIUri>,
    pub package: P,
}

impl<P> FFIUriWrapPackage<P> {
    pub fn new(uri: Arc<FFIUri>, package: P) -> (res: Self)
        ensures
            res.uri == uri,
            res.package == package,
    {
        FFIUriWrapPackage { uri, package }
    }
}

/// The result of resolving a URI: a URI to go on with, or the URI with the
/// package or the wrapper found for it.
pub enum UriPackageOrWrapper<P, W> {
    Uri(FFIUri),
    Wrapper(FFIUri, W),
    Package(FFIUri, P),
}

/// A resolution result as the bindings hand it out.
pub struct FFIUriPackageOrWrapper<P, W>(pub UriPackageOrWrapper<P, W>);

/// The error for reading a resolution result of kind `kind` as another kind.
pub open spec fn cast_error_message(kind: FFIUriPackageOrWrapperKind) -> Seq<char> {
    "Cannot cast uri_package_or_wrapper as Package. This instance is of type '"@ + kind.spec_name()
        + "'"@
}

impl<P, W> FFIUriPackageOrWrapper<P, W> {
    pub open spec fn spec_kind(&self) -> FFIUriPackageOrWrapperKind {
        match self.0 {
            UriPackageOrWrapper::Uri(_) => FFIUriPackageOrWrapperKind::URI,
            UriPackageOrWrapper::Wrapper(_, _) => FFIUriPackageOrWrapperKind::WRAPPER,
            UriPackageOrWrapper::Package(_, _) => FFIUriPackageOrWrapperKind::PACKAGE,
        }
    }

    pub fn from_uri(uri: Arc<FFIUri>) -> (res: Self)
        ensures
            res.0 == UriPackageOrWrapper::<P, W>::Uri(*uri),
    {
        FFIUriPackageOrWrapper(UriPackageOrWrapper::Uri((*uri).duplicate()))
    }

    pub fn from_package(uri: Arc<FFIUri>, package: P) -> (res: Self)
        ensures
            res.0 == UriPackageOrWrapper::<P, W>::Package(*uri, package),
    {
        FFIUriPackageOrWrapper(UriPackageOrWrapper::Package((*uri).duplicate(), package))
    }

    pub fn from_wrapper(uri: Arc<FFIUri>, wrapper: W) -> (res: Self)
        ensures
            res.0 == UriPackageOrWrapper::<P, W>::Wrapper(*uri, wrapper),
    {
        FFIUriPackageOrWrapper(UriPackageOrWrapper::Wrapper((*uri).duplicate(), wrapper))
    }

    pub fn get_kind(&self) -> (res: FFIUriPackageOrWrapperKind)
        ensures
            res == self.spec_kind(),
    {
        match &self.0 {
            UriPackageOrWrapper::Uri(_) => FFIUriPackageOrWrapperKind::URI,
            UriPackageOrWrapper::Wrapper(_, _) => FFIUriPackageOrWrapperKind::WRAPPER,
            UriPackageOrWrapper::Package(_, _) => FFIUriPackageOrWrapperKind::PACKAGE,
        }
    }

    /// The URI of a `Uri` result.
    pub fn as_uri(&self) -> (res: Result<Arc<FFIUri>, FFIError>)
        ensures
            match self.0 {
                UriPackageOrWrapper::Uri(u) => res matches Ok(r) && *r == u,
                _ => res matches Err(FFIError::ResolutionError { err }) && err@ == cast_error_message(
                    self.spec_kind(),
                ),
            },
    {
        let kind = self.get_kind();
        match &self.0 {
            UriPackageOrWrapper::Uri(u) => Ok(Arc::new(u.duplicate())),
            _ => Err(FFIError::ResolutionError { err: cast_error(kind) }),
        }
    }

    /// The URI and the wrapper of a `Wrapper` result; the wrapper is a clone of
    /// the one held.
    pub fn as_wrapper(&self) -> (res: Result<FFIUriWrapper<W>, FFIError>) where W: Clone
        ensures
            match self.0 {
                UriPackageOrWrapper::Wrapper(u, w) => res matches Ok(r) && *r.uri == u && cloned(
                    w,
                    r.wrapper,
                ),
                _ => res matches Err(FFIError::ResolutionError { err }) && err@ == cast_error_message(
                    self.spec_kind(),
                ),
            },
    {
        let kind = self.get_kind();
        match &self.0 {
            UriPackageOrWrapper::Wrapper(u, w) => Ok(
                FFIUriWrapper::new(Arc::new(u.duplicate()), w.clone()),
            ),
            _ => Err(FFIError::ResolutionError { err: cast_error(kind) }),
        }
    }

    /// The URI and the package of a `Package` result; the package is a clone of
    /// the one held.
    pub fn as_package(&self) -> (res: Result<FFIUriWrapPackage<P>, FFIError>) where P: Clone
        ensures
            match self.0 {
                UriPackageOrWrapper::Package(u, p) => res matches Ok(r) && *r.uri == u && cloned(
                    p,
                    r.package,
                ),
                _ => res matches Err(FFIError::ResolutionError { err }) && err@ == cast_error_message(
                    self.spec_kind(),
                ),
            },
    {
        let kind = self.get_kind();
        match &self.0 {
            UriPackageOrWrapper::Package(u, p) => Ok(
                FFIUriWrapPackage::new(Arc::new(u.duplicate()), p.clone()),
            ),
            _ => Err(FFIError::ResolutionError { err: cast_error(kind) }),
        }
    }
}

fn cast_error(kind: FFIUriPackageOrWrapperKind) -> (res: String)
    ensures
        res@ == cast_error_message(kind),
{
    let mut res = String::from_str(
        "Cannot cast uri_package_or_wrapper as Package. This instance is of type '",
    );
    let name = kind.to_string();
    res.append(name.as_str());
    res.append("'");
    res
}

} // verus!
