pub mod flags;
pub mod version;
pub mod types;
