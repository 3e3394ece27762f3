pub mod from_010_to_020;

pub use crate::manifest::migrator::{MigrationKind, Migrator};
