use vstd::prelude::*;
use crate::native::resolvers::uri_package_or_wrapper::FFIUriPackageOrWrapperKind;

verus! {

/// The tag of an entry of a static resolver passed through the C interface:
/// what the entry's data points to.
#[derive(Clone, Copy, Debug, PartialEq, Eq, Structural)]
pub enum UriPackageOrWrapperType {
    Uri,
    WasmWrapper,
    PluginWrapper,
    WasmPackage,
    PluginPackage,
}

impl UriPackageOrWrapperType {
    pub open spec fn spec_kind(self) -> FFIUriPackageOrWrapperKind {
        match self {
            UriPackageOrWrapperType::Uri => FFIUriPackageOrWrapperKind::URI,
            UriPackageOrWrapperType::WasmWrapper => FFIUriPackageOrWrapperKind::WRAPPER,
            UriPackageOrWrapperType::PluginWrapper => FFIUriPackageOrWrapperKind::WRAPPER,
            UriPackageOrWrapperType::WasmPackage => FFIUriPackageOrWrapperKind::PACKAGE,
            UriPackageOrWrapperType::PluginPackage => FFIUriPackageOrWrapperKind::PACKAGE,
        }
    }

    /// The kind of resolution result an entry with this tag becomes: wasm and
    /// plugin wrappers become wrappers, wasm and plugin packages packages.
    pub fn kind(&self) -> (res: FFIUriPackageOrWrapperKind)
        ensures
            res == self.spec_kind(),
    {
        match self {
            UriPackageOrWrapperType::Uri => FFIUriPackageOrWrapperKind::URI,
            UriPackageOrWrapperType::WasmWrapper => FFIUriPackageOrWrapperKind::WRAPPER,
            UriPackageOrWrapperType::PluginWrapper => FFIUriPackageOrWrapperKind::WRAPPER,
            UriPackageOrWrapperType::WasmPackage => FFIUriPackageOrWrapperKind::PACKAGE,
            UriPackageOrWrapperType::PluginPackage => FFIUriPackageOrWrapperKind::PACKAGE,
        }
    }
}

} // verus!
