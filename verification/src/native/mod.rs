pub mod error;
pub mod loader;
pub mod resolvers;
pub mod uri;
