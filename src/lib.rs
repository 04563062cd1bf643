//! Semantic manifest model and the codecs between it and its wire form.
pub mod cls;
pub mod config;
pub mod connector;
pub mod engine;
pub mod error;
pub mod identifier;
pub mod legacy_bool;
pub mod manifest;
pub mod request;
pub mod response;
pub mod session;
pub mod table_reference;
pub mod wire;
