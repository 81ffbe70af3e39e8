//! HAL 9000: multi-tenant analysis of authentication and API logs kept in
//! Elasticsearch.
//!
//! The library holds what the analysis computes: the queries it sends, what it
//! reads from the answers, the rates it derives and the time ranges it compares.
//! The program around it performs the HTTP exchanges and serves the tools.

pub mod config;
pub mod decimal;
pub mod errors;
pub mod json;
pub mod text;
pub mod time;
pub mod tools;
pub mod types;
pub mod es;
pub mod jwt;
