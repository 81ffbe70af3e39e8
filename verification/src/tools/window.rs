//! The analysis window that the contextualization and spike tools share.

use crate::errors::AgentError;
use crate::text::join3;
use crate::tools::interval::{interval_value, parse_interval_ms};
use vstd::prelude::*;

verus! {

/// The window used where the request names none.
pub open spec fn default_window() -> Seq<char> {
    "15m"@
}

/// The message for a window that is not an interval.
pub open spec fn invalid_window_message(window: Seq<char>) -> Seq<char> {
    "Invalid window format (expected e.g. '15m', got '"@ + window + "')"@
}

/// The window a request asks for, or the default.
pub open spec fn window_text(window: Option<Seq<char>>) -> Seq<char> {
    match window {
        Some(w) => w,
        None => default_window(),
    }
}

/// Takes the requested window, or `15m`, and reads it as milliseconds; a window
/// that is not an interval is refused with its message.
pub fn resolve_window(window: Option<String>) -> (r: Result<(String, i64), AgentError>)
    ensures
        ({
            let w = window_text(
                match window {
                    Some(s) => Some(s@),
                    None => None,
                },
            );
            match r {
                Ok((text, ms)) => text@ == w && interval_value(w) == Some(ms),
                Err(e) => interval_value(w) is None && (e matches AgentError::Other(m) && m@
                    == invalid_window_message(w)),
            }
        }),
{
    let text = match window {
        Some(w) => w,
        None => "15m".to_owned(),
    };
    match parse_interval_ms(text.as_str()) {
        Some(ms) => Ok((text, ms)),
        None => {
            let message = join3(
                "Invalid window format (expected e.g. '15m', got '",
                text.as_str(),
                "')",
            );
            Err(AgentError::Other(message))
        },
    }
}

} // verus!
