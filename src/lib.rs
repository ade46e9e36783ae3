pub mod address;
pub mod laws;
pub mod query;
pub mod types;
pub mod wire;
