//! The analysis tools: what each one computes around its Elasticsearch queries.

pub mod interval;
pub mod window;
pub mod fetch_metrics;
pub mod detect_spike;
pub mod contextualize;
pub mod list_tenants;
