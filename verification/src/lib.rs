//! Client library for a secrets-management REST service: vault and item
//! calls are built as plain requests, sent through an abstract transport
//! with bounded exponential backoff, and decoded into a typed value plus
//! a raw JSON tree, with failures mapped into a structured error taxonomy.

pub mod backoff;
pub mod client;
pub mod decode;
pub mod error;
pub mod items;
pub mod json;
pub mod models;
pub mod request;
pub mod text;
pub mod vaults;
