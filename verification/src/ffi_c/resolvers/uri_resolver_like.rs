use vstd::prelude::*;
use crate::native::resolvers::uri_resolver_like::FFIUriResolverLikeKind;

verus! {

/// The tag of a resolver-like passed through the C interface.
#[derive(Clone, Copy, Debug, PartialEq, Eq, Structural)]
pub enum UriResolverLikeType {
    Resolver,
    Redirect,
    WasmPackage,
    PluginPackage,
    WasmWrapper,
    PluginWrapper,
}

impl UriResolverLikeType {
    pub open spec fn spec_kind(self) -> FFIUriResolverLikeKind {
        match self {
            UriResolverLikeType::Resolver => FFIUriResolverLikeKind::_Resolver,
            UriResolverLikeType::Redirect => FFIUriResolverLikeKind::_Redirect,
            UriResolverLikeType::WasmPackage => FFIUriResolverLikeKind::_Package,
            UriResolverLikeType::PluginPackage => FFIUriResolverLikeKind::_Package,
            UriResolverLikeType::WasmWrapper => FFIUriResolverLikeKind::_Wrapper,
            UriResolverLikeType::PluginWrapper => FFIUriResolverLikeKind::_Wrapper,
        }
    }

    /// The kind of resolver-like an entry with this tag becomes: wasm and
    /// plugin packages become packages, wasm and plugin wrappers wrappers.
    pub fn kind(&self) -> (res: FFIUriResolverLikeKind)
        ensures
            res == self.spec_kind(),
    {
        match self {
            UriResolverLikeType::Resolver => FFIUriResolverLikeKind::_Resolver,
            UriResolverLikeType::Redirect => FFIUriResolverLikeKind::_Redirect,
            UriResolverLikeType::WasmPackage => FFIUriResolverLikeKind::_Package,
            UriResolverLikeType::PluginPackage => FFIUriResolverLikeKind::_Package,
            UriResolverLikeType::WasmWrapper => FFIUriResolverLikeKind::_Wrapper,
            UriResolverLikeType::PluginWrapper => FFIUriResolverLikeKind::_Wrapper,
        }
    }
}

} // verus!
