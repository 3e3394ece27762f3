use vstd::prelude::*;
use std::sync::Arc;
use crate::native::uri::FFIUri;

verus! {

/// A redirect from one URI to another.
pub struct FFIUriResolverLikeRedirectVariant {
    pub from: Arc<FFIUri>,
    pub to: Arc<FFIUri>,
}

impl FFIUriResolverLikeRedirectVariant {
    pub fn new(from: Arc<FFIUri>, to: Arc<FFIUri>) -> (res: FFIUriResolverLikeRedirectVariant)
        ensures
            res.from == from,
            res.to == to,
    {
        FFIUriResolverLikeRedirectVariant { from, to }
    }
}

/// A package to serve for a URI.
pub struct FFIUriResolverLikePackageVariant<P> {
    pub uri: Arc<FFIUri>,
    pub package: Arc<P>,
}

impl<P> FFIUriResolverLikePackageVariant<P> {
    pub fn new(uri: Arc<FFIUri>, package: Arc<P>) -> (res: FFIUriResolverLikePackageVariant<P>)
        ensures
            res.uri == uri,
            res.package == package,
    {
        FFIUriResolverLikePackageVariant { uri, package }
    }
}

/// A wrapper to serve for a URI.
pub struct FFIUriResolverLikeWrapperVariant<W> {
    pub uri: Arc<FFIUri>,
    pub wrapper: Arc<W>,
}

impl<W> FFIUriResolverLikeWrapperVariant<W> {
    pub fn new(uri: Arc<FFIUri>, wrapper: Arc<W>) -> (res: FFIUriResolverLikeWrapperVariant<W>)
        ensures
            res.uri == uri,
            res.wrapper == wrapper,
    {
        FFIUriResolverLikeWrapperVariant { uri, wrapper }
    }
}

/// A resolver to consult.
pub struct FFIUriResolverLikeResolverVariant<R> {
    pub resolver: Arc<R>,
}

impl<R> FFIUriResolverLikeResolverVariant<R> {
    pub fn new(resolver: R) -> (res: FFIUriResolverLikeResolverVariant<R>)
        ensures
            *res.resolver == resolver,
    {
        FFIUriResolverLikeResolverVariant { resolver: Arc::new(resolver) }
    }
}

/// A list of resolver-likes to consult in order.
pub struct FFIUriResolverLikeResolverLikeVariant<R, P, W> {
    pub resolver_like: Vec<Arc<FFIUriResolverLike<R, P, W>>>,
}

impl<R, P, W> FFIUriResolverLikeResolverLikeVariant<R, P, W> {
    pub fn new(resolver_like: Vec<Arc<FFIUriResolverLike<R, P, W>>>) -> (res:
        FFIUriResolverLikeResolverLikeVariant<R, P, W>)
        ensures
            res.resolver_like == resolver_like,
    {
        FFIUriResolverLikeResolverLikeVariant { resolver_like }
    }
}

/// Which variant a resolver-like holds.
#[derive(Clone, Copy, Debug, PartialEq, Eq, Structural)]
pub enum FFIUriResolverLikeKind {
    _Resolver,
    _Redirect,
    _Package,
    _Wrapper,
    _ResolverLike,
}

/// Something that can take part in URI resolution: a resolver, a redirect, a
/// package, a wrapper or a list of these. The kind tells which of the variant
/// fields is present; exactly that one is.
pub struct FFIUriResolverLike<R, P, W> {
    kind: FFIUriResolverLikeKind,
    resolver: Option<Arc<FFIUriResolverLikeResolverVariant<R>>>,
    redirect: Option<Arc<FFIUriResolverLikeRedirectVariant>>,
    wrapper: Option<Arc<FFIUriResolverLikeWrapperVariant<W>>>,
    package: Option<Arc<FFIUriResolverLikePackageVariant<P>>>,
    resolver_like: Option<Arc<FFIUriResolverLikeResolverLikeVariant<R, P, W>>>,
}

/// A resolver-like in the form the client's resolution takes.
pub enum UriResolverLike<R, P, W> {
    Resolver(Arc<R>),
    Redirect(FFIUri, FFIUri),
    Package(FFIUri, Arc<P>),
    Wrapper(FFIUri, Arc<W>),
    ResolverLike(Vec<UriResolverLike<R, P, W>>),
}

impl<R, P, W> FFIUriResolverLike<R, P, W> {
    #[verifier::type_invariant]
    closed spec fn kind_matches(self) -> bool {
        &&& (self.resolver is Some <==> self.kind == FFIUriResolverLikeKind::_Resolver)
        &&& (self.redirect is Some <==> self.kind == FFIUriResolverLikeKind::_Redirect)
        &&& (self.wrapper is Some <==> self.kind == FFIUriResolverLikeKind::_Wrapper)
        &&& (self.package is Some <==> self.kind == FFIUriResolverLikeKind::_Package)
        &&& (self.resolver_like is Some <==> self.kind == FFIUriResolverLikeKind::_ResolverLike)
    }

    pub closed spec fn spec_kind(&self) -> FFIUriResolverLikeKind {
        self.kind
    }

    pub closed spec fn spec_resolver(&self) -> Option<Arc<FFIUriResolverLikeResolverVariant<R>>> {
        self.resolver
    }

    pub closed spec fn spec_redirect(&self) -> Option<Arc<FFIUriResolverLikeRedirectVariant>> {
        self.redirect
    }

    pub closed spec fn spec_wrapper(&self) -> Option<Arc<FFIUriResolverLikeWrapperVariant<W>>> {
        self.wrapper
    }

    pub closed spec fn spec_package(&self) -> Option<Arc<FFIUriResolverLikePackageVariant<P>>> {
        self.package
    }

    pub closed spec fn spec_resolver_like(&self) -> Option<
        Arc<FFIUriResolverLikeResolverLikeVariant<R, P, W>>,
    > {
        self.resolver_like
    }

    /// `res` is `self` in the form the client's resolution takes: the variant
    /// that the kind names, with the same URIs and handles, a list converted
    /// item by item.
    pub closed spec fn converts_to(self, res: UriResolverLike<R, P, W>) -> bool
        decreases self,
    {
        match self.kind {
            FFIUriResolverLikeKind::_Resolver => self.resolver matches Some(v) && res
                == UriResolverLike::<R, P, W>::Resolver(v.resolver),
            FFIUriResolverLikeKind::_Redirect => self.redirect matches Some(v) && res
                == UriResolverLike::<R, P, W>::Redirect(*v.from, *v.to),
            FFIUriResolverLikeKind::_Package => self.package matches Some(v) && res
                == UriResolverLike::<R, P, W>::Package(*v.uri, v.package),
            FFIUriResolverLikeKind::_Wrapper => self.wrapper matches Some(v) && res
                == UriResolverLike::<R, P, W>::Wrapper(*v.uri, v.wrapper),
            FFIUriResolverLikeKind::_ResolverLike => match (self.resolver_like, res) {
                (Some(v), UriResolverLike::ResolverLike(items)) => {
                    &&& items@.len() == v.resolver_like@.len()
                    &&& forall|i: int|
                        0 <= i < items@.len() ==> (*v.resolver_like@[i]).converts_to(
                            #[trigger] items@[i],
                        )
                },
                _ => false,
            },
        }
    }

    /// The client's form of a resolver-like is the variant its kind names,
    /// holding the same URIs and handles; a list becomes a list of the same
    /// length whose items are the converted items.
    pub proof fn lemma_conversion_keeps_variant(self, res: UriResolverLike<R, P, W>)
        requires
            self.converts_to(res),
        ensures
            self.spec_kind() == FFIUriResolverLikeKind::_Resolver ==> (self.spec_resolver() matches Some(
                v,
            ) && res == UriResolverLike::<R, P, W>::Resolver(v.resolver)),
            self.spec_kind() == FFIUriResolverLikeKind::_Redirect ==> (self.spec_redirect() matches Some(
                v,
            ) && res == UriResolverLike::<R, P, W>::Redirect(*v.from, *v.to)),
            self.spec_kind() == FFIUriResolverLikeKind::_Package ==> (self.spec_package() matches Some(
                v,
            ) && res == UriResolverLike::<R, P, W>::Package(*v.uri, v.package)),
            self.spec_kind() == FFIUriResolverLikeKind::_Wrapper ==> (self.spec_wrapper() matches Some(
                v,
            ) && res == UriResolverLike::<R, P, W>::Wrapper(*v.uri, v.wrapper)),
            self.spec_kind() == FFIUriResolverLikeKind::_ResolverLike ==> (self.spec_resolver_like() matches Some(
                v,
            ) && (res matches UriResolverLike::ResolverLike(items) && items@.len()
                == v.resolver_like@.len() && forall|i: int|
                0 <= i < items@.len() ==> (*v.resolver_like@[i]).converts_to(#[trigger] items@[i]))),
    {
    }

    pub fn get_kind(&self) -> (res: FFIUriResolverLikeKind)
        ensures
            res == self.spec_kind(),
            res == FFIUriResolverLikeKind::_Resolver <==> self.spec_resolver() is Some,
            res == FFIUriResolverLikeKind::_Redirect <==> self.spec_redirect() is Some,
            res == FFIUriResolverLikeKind::_Wrapper <==> self.spec_wrapper() is Some,
            res == FFIUriResolverLikeKind::_Package <==> self.spec_package() is Some,
            res == FFIUriResolverLikeKind::_ResolverLike <==> self.spec_resolver_like() is Some,
    {
        proof {
            use_type_invariant(self);
        }
        self.kind
    }

    pub fn new_resolver(resolver: Arc<FFIUriResolverLikeResolverVariant<R>>) -> (res: Self)
        ensures
            res.spec_kind() == FFIUriResolverLikeKind::_Resolver,
            res.spec_resolver() == Some(resolver),
    {
        FFIUriResolverLike {
            kind: FFIUriResolverLikeKind::_Resolver,
            resolver: Some(resolver),
            redirect: None,
            wrapper: None,
            package: None,
            resolver_like: None,
        }
    }

    pub fn new_redirect(redirect: Arc<FFIUriResolverLikeRedirectVariant>) -> (res: Self)
        ensures
            res.spec_kind() == FFIUriResolverLikeKind::_Redirect,
            res.spec_redirect() == Some(redirect),
    {
        FFIUriResolverLike {
            kind: FFIUriResolverLikeKind::_Redirect,
            resolver: None,
            redirect: Some(redirect),
            wrapper: None,
            package: None,
            resolver_like: None,
        }
    }

    pub fn new_wrapper(wrapper: Arc<FFIUriResolverLikeWrapperVariant<W>>) -> (res: Self)
        ensures
            res.spec_kind() == FFIUriResolverLikeKind::_Wrapper,
            res.spec_wrapper() == Some(wrapper),
    {
        FFIUriResolverLike {
            kind: FFIUriResolverLikeKind::_Wrapper,
            resolver: None,
            redirect: None,
            wrapper: Some(wrapper),
            package: None,
            resolver_like: None,
        }
    }

    pub fn new_package(package: Arc<FFIUriResolverLikePackageVariant<P>>) -> (res: Self)
        ensures
            res.spec_kind() == FFIUriResolverLikeKind::_Package,
            res.spec_package() == Some(package),
    {
        FFIUriResolverLike {
            kind: FFIUriResolverLikeKind::_Package,
            resolver: None,
            redirect: None,
            wrapper: None,
            package: Some(package),
            resolver_like: None,
        }
    }

    pub fn new_resolver_like(resolver_like: Arc<FFIUriResolverLikeResolverLikeVariant<R, P, W>>) -> (res: Self)
        ensures
            res.spec_kind() == FFIUriResolverLikeKind::_ResolverLike,
            res.spec_resolver_like() == Some(resolver_like),
    {
        FFIUriResolverLike {
            kind: FFIUriResolverLikeKind::_ResolverLike,
            resolver: None,
            redirect: None,
            wrapper: None,
            package: None,
            resolver_like: Some(resolver_like),
        }
    }

    pub fn get_resolver(&self) -> (res: Option<Arc<FFIUriResolverLikeResolverVariant<R>>>)
        ensures
            res == self.spec_resolver(),
    {
        match &self.resolver {
            Some(v) => Some(v.clone()),
            None => None,
        }
    }

    pub fn get_redirect(&self) -> (res: Option<Arc<FFIUriResolverLikeRedirectVariant>>)
        ensures
            res == self.spec_redirect(),
    {
        match &self.redirect {
            Some(v) => Some(v.clone()),
            None => None,
        }
    }

    pub fn get_wrapper(&self) -> (res: Option<Arc<FFIUriResolverLikeWrapperVariant<W>>>)
        ensures
            res == self.spec_wrapper(),
    {
        match &self.wrapper {
            Some(v) => Some(v.clone()),
            None => None,
        }
    }

    pub fn get_package(&self) -> (res: Option<Arc<FFIUriResolverLikePackageVariant<P>>>)
        ensures
            res == self.spec_package(),
    {
        match &self.package {
            Some(v) => Some(v.clone()),
            None => None,
        }
    }

    pub fn get_resolver_like(&self) -> (res: Option<Arc<FFIUriResolverLikeResolverLikeVariant<R, P, W>>>)
        ensures
            res == self.spec_resolver_like(),
    {
        match &self.resolver_like {
            Some(v) => Some(v.clone()),
            None => None,
        }
    }

    /// The resolver-like in the form the client's resolution takes.
    pub fn to_uri_resolver_like(&self) -> (res: UriResolverLike<R, P, W>)
        ensures
            self.converts_to(res),
        decreases self,
    {
        proof {
            use_type_invariant(self);
        }
        match self.kind {
            FFIUriResolverLikeKind::_Resolver => {
                let v = self.resolver.as_ref().unwrap();
                UriResolverLike::Resolver(v.resolver.clone())
            },
            FFIUriResolverLikeKind::_Redirect => {
                let v = self.redirect.as_ref().unwrap();
                UriResolverLike::Redirect(v.from.duplicate(), v.to.duplicate())
            },
            FFIUriResolverLikeKind::_Package => {
                let v = self.package.as_ref().unwrap();
                UriResolverLike::Package(v.uri.duplicate(), v.package.clone())
            },
            FFIUriResolverLikeKind::_Wrapper => {
                let v = self.wrapper.as_ref().unwrap();
                UriResolverLike::Wrapper(v.uri.duplicate(), v.wrapper.clone())
            },
            FFIUriResolverLikeKind::_ResolverLike => {
                let v = self.resolver_like.as_ref().unwrap();
                let mut items: Vec<UriResolverLike<R, P, W>> = Vec::new();
                let mut i: usize = 0;
                while i < v.resolver_like.len()
                    invariant
                        self.resolver_like == Some(*v),
                        i <= v.resolver_like@.len(),
                        items@.len() == i,
                        forall|k: int|
                            0 <= k < i ==> (*v.resolver_like@[k]).converts_to(#[trigger] items@[k]),
                    decreases v.resolver_like@.len() - i,
                {
                    proof {
                        assert(decreases_to!(*self => self.resolver_like));
                        assert(decreases_to!(self.resolver_like => (self.resolver_like)->Some_0));
                        assert(decreases_to!(*v => v.resolver_like));
                        assert(decreases_to!(v.resolver_like => v.resolver_like[i as int]));
                    }
                    let item = v.resolver_like[i].to_uri_resolver_like();
                    items.push(item);
                    i = i + 1;
                }
                UriResolverLike::ResolverLike(items)
            },
        }
    }
}

} // verus!
