pub mod uri_package_or_wrapper;
pub mod uri_resolver;
pub mod uri_resolver_like;
