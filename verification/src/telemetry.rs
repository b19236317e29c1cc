//! Choice of the log filter.

use crate::text::concat;
use vstd::prelude::*;

verus! {

/// Level of logging where the environment sets none: debug builds log more,
/// and each repetition of the verbosity flag raises the level.
pub fn default_log_level(verbosity: u8, debug_build: bool) -> (r: &'static str)
    ensures
        r@ == if debug_build {
            if verbosity == 0 { "debug"@ } else { "trace"@ }
        } else {
            if verbosity == 0 { "info"@ } else if verbosity == 1 { "debug"@ } else { "trace"@ }
        },
{
    if debug_build {
        match verbosity {
            0 => "debug",
            _ => "trace",
        }
    } else {
        match verbosity {
            0 => "info",
            1 => "debug",
            _ => "trace",
        }
    }
}

/// The filter directive for `log_level`: it holds that level, and keeps the
/// libraries that nobody should need to read at `info`.
pub fn log_filter(log_level: &str) -> (r: String)
    ensures
        r@ == log_level@ + ",hyper=info,rustls=info,h2=info,sqlx=info,hickory_resolver=info,hickory_proto=info"@,
{
    concat(log_level, ",hyper=info,rustls=info,h2=info,sqlx=info,hickory_resolver=info,hickory_proto=info")
}

} // verus!
