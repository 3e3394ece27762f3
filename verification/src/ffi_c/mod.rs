pub mod invoke;
pub mod resolvers;
