pub mod deserialize;
pub mod error;
pub mod formats;
pub mod generate;
pub mod get_migrators;
pub mod migrate;
pub mod migration_path;
pub mod migrator;
pub mod migrators;
pub mod utils;
pub mod versions;
