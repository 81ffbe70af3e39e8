//! Configuration of the Elasticsearch connection.

use vstd::prelude::*;

verus! {

/// HAL 9000 configuration.
pub struct Config {
    /// Elasticsearch cluster URL
    pub es_url: String,
    /// Elasticsearch API key for authentication
    pub es_api_key: String,
}

} // verus!
