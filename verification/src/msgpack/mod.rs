pub mod encode;
pub mod generic_map;
pub mod integers;
pub mod value;
