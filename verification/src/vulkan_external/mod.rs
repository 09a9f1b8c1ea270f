pub mod flags;
pub mod handles;
pub mod structs;
pub mod helpers;
