//! How much is logged, and in what form.
use vstd::prelude::*;

use crate::text::owned;

verus! {

/// The least severe messages that are shown.
#[derive(Debug, Clone, Copy, PartialEq, Eq, Structural)]
pub enum LogLevel {
    Debug,
    Info,
}

/// The level and the message pattern: verbose runs show debug messages,
/// marked with a `****` prefix; others show informational messages as they
/// are.
pub fn log_settings(verbose: bool) -> (r: (LogLevel, String))
    ensures
        verbose ==> r.0 == LogLevel::Debug && r.1@ == "**** {m}{n}"@,
        !verbose ==> r.0 == LogLevel::Info && r.1@ == "{m}{n}"@,
{
    if verbose {
        (LogLevel::Debug, owned("**** {m}{n}"))
    } else {
        (LogLevel::Info, owned("{m}{n}"))
    }
}

} // verus!
