pub mod laws;
pub mod registry;
pub mod user;
