//! Configuration model, its JSON document form, and the decisions of the
//! embedded store's bootstrap.
pub mod codec;
pub mod config;
pub mod json;
pub mod loader;
pub mod store;
