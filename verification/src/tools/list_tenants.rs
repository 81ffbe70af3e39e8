//! List tenants tool: the tenant IDs found in the indices.

use vstd::prelude::*;

verus! {

/// Response containing the list of discovered tenant IDs.
pub struct ListTenantsResponse {
    /// Unique tenant identifiers, in increasing order
    pub tenants: Vec<String>,
}

} // verus!
