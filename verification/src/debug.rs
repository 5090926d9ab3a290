//! Log-verbosity levels for the engine's diagnostic messages, and the filter
//! directive string built from a requested level.
//!
//! Installing the process-wide subscriber is host-side work; this module only
//! computes the values the host hands to it.

use vstd::prelude::*;
use vstd::string::StringExecFns;

verus! {

/// The level of logging for the engine's diagnostic messages.
pub enum OrtDebugLevel {
    Trace,
    Debug,
    Info,
    Warn,
    Error,
}

/// The lower-case name of a level, as the filter syntax spells it.
pub open spec fn spec_level_name(level: OrtDebugLevel) -> Seq<char> {
    match level {
        OrtDebugLevel::Trace => "trace"@,
        OrtDebugLevel::Debug => "debug"@,
        OrtDebugLevel::Info => "info"@,
        OrtDebugLevel::Warn => "warn"@,
        OrtDebugLevel::Error => "error"@,
    }
}

/// The fallback filter directives for a requested level: everything at `info`,
/// the engine's own messages at the requested level (`debug` when none was
/// requested).
pub open spec fn spec_filter_directives(level: Option<OrtDebugLevel>) -> Seq<char> {
    let name = match level {
        Some(l) => spec_level_name(l),
        None => "debug"@,
    };
    "info,ort="@ + name
}

impl OrtDebugLevel {
    /// The level's lower-case name.
    pub fn value(&self) -> (r: String)
        ensures
            r@ == spec_level_name(*self),
    {
        let s: &str = match self {
            OrtDebugLevel::Trace => "trace",
            OrtDebugLevel::Debug => "debug",
            OrtDebugLevel::Info => "info",
            OrtDebugLevel::Warn => "warn",
            OrtDebugLevel::Error => "error",
        };
        String::from_str(s)
    }
}

/// The filter directives used when the environment supplies none.
pub fn default_filter_directives(level: Option<OrtDebugLevel>) -> (r: String)
    ensures
        r@ == spec_filter_directives(level),
{
    let name = match level {
        Some(l) => l.value(),
        None => OrtDebugLevel::Debug.value(),
    };
    let mut directives = String::from_str("info,ort=");
    directives.append(name.as_str());
    directives
}

} // verus!
