//! Query paths over a versioned, temporal property graph: parsing of token
//! sequences into typed paths, their canonical rendering and their parameter
//! types, together with the small configuration and authorization types that
//! travel with them.
pub mod text;
pub mod token;
pub mod path;
pub mod error;
pub mod entity_type;
pub mod base_url;
pub mod query;
pub mod laws;
pub mod store;
pub mod cli;
pub mod authorization;
pub mod task;
