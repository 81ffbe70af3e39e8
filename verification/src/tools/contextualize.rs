//! Contextualization tool: the failed authentications by IP, overall and per
//! window, and the busiest API endpoints of a tenant over a time range.

use crate::config::Config;
use crate::errors::AgentError;
use crate::es::AuthFailedIpsConfig;
use crate::tools::interval::interval_value;
use crate::tools::window::{invalid_window_message, resolve_window, window_text};
use vstd::prelude::*;

verus! {

pub use crate::tools::interval::parse_interval_ms;

/// Number of top results to return: fewer than `es::DEFAULT_TOP_N`, for more
/// focused results.
pub const CONTEXT_TOP_N: usize = 5;

/// Request parameters for contextualization analysis.
pub struct ContextualizeRequest {
    /// The tenant identifier to analyze
    pub tenant: String,
    /// Start time in ISO8601/RFC3339 format
    pub from: String,
    /// End time in ISO8601/RFC3339 format
    pub to: String,
    /// Time window for analysis (e.g., '15m', '1h', '2d')
    pub window: Option<String>,
}

/// The window of a contextualization, resolved.
pub struct ContextWindow {
    /// The window text, as requested or the default
    pub window: String,
    /// The window in milliseconds
    pub window_ms: i64,
}

/// Resolves the window of a contextualization: the requested one or `15m`; a
/// window that is not an interval is refused with its message.
pub fn plan_context(window: Option<String>) -> (r: Result<ContextWindow, AgentError>)
    ensures
        ({
            let w = window_text(
                match window {
                    Some(s) => Some(s@),
                    None => None,
                },
            );
            match r {
                Ok(p) => p.window@ == w && interval_value(w) == Some(p.window_ms),
                Err(e) => interval_value(w) is None && (e matches AgentError::Other(m) && m@
                    == invalid_window_message(w)),
            }
        }),
{
    let (window, window_ms) = resolve_window(window)?;
    Ok(ContextWindow { window, window_ms })
}

/// The failed-authentication query settings of a contextualization.
pub fn auth_failed_ips_config<'a>(
    cfg: &'a Config,
    input: &'a ContextualizeRequest,
    plan: &'a ContextWindow,
    auth: &'a Option<String>,
) -> (r: AuthFailedIpsConfig<'a>)
    ensures
        r.es_url@ == cfg.es_url@,
        r.tenant@ == input.tenant@,
        r.from@ == input.from@,
        r.to@ == input.to@,
        r.window@ == plan.window@,
        r.window_ms == plan.window_ms,
        r.top_n == CONTEXT_TOP_N,
        r.auth == auth,
{
    AuthFailedIpsConfig {
        es_url: cfg.es_url.as_str(),
        tenant: input.tenant.as_str(),
        from: input.from.as_str(),
        to: input.to.as_str(),
        window: plan.window.as_str(),
        window_ms: plan.window_ms,
        top_n: CONTEXT_TOP_N,
        auth,
    }
}

} // verus!
