pub mod wrappers;
pub mod errors;
pub mod compress;
pub mod database;
