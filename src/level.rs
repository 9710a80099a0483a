use vstd::prelude::*;
use vstd::string::StringSliceAdditionalSpecFns;
use vstd::utf8::encode_utf8;

use crate::output::{ascii_ci_eq, eq_ignore_ascii_case};

verus! {

/// Severity of the tracing scope opened around an instrumented function.
#[derive(Clone, Copy, Debug, PartialEq, Eq)]
pub enum TraceLevel {
    Trace,
    Debug,
    Info,
    Warn,
    Error,
}

/// The severity that a `level` setting names, in any case; anything else,
/// including an absent setting, means info.
pub open spec fn named_level(name: Seq<u8>) -> TraceLevel {
    if ascii_ci_eq(name, encode_utf8("trace"@)) {
        TraceLevel::Trace
    } else if ascii_ci_eq(name, encode_utf8("debug"@)) {
        TraceLevel::Debug
    } else if ascii_ci_eq(name, encode_utf8("warn"@)) {
        TraceLevel::Warn
    } else if ascii_ci_eq(name, encode_utf8("error"@)) {
        TraceLevel::Error
    } else {
        TraceLevel::Info
    }
}

/// Reads the `level` setting of an instrumented function.
pub fn level_from_name(name: &str) -> (r: TraceLevel)
    ensures
        r == named_level(name.spec_bytes()),
{
    if eq_ignore_ascii_case(name, "trace") {
        TraceLevel::Trace
    } else if eq_ignore_ascii_case(name, "debug") {
        TraceLevel::Debug
    } else if eq_ignore_ascii_case(name, "warn") {
        TraceLevel::Warn
    } else if eq_ignore_ascii_case(name, "error") {
        TraceLevel::Error
    } else {
        TraceLevel::Info
    }
}

/// The severity for an instrumented function: the named one, or info when
/// no `level` is given.
pub fn instrument_level(setting: Option<&str>) -> (r: TraceLevel)
    ensures
        r == match setting {
            None => TraceLevel::Info,
            Some(name) => named_level(name.spec_bytes()),
        },
{
    match setting {
        None => TraceLevel::Info,
        Some(name) => level_from_name(name),
    }
}

/// The label of an instrumented function: the `name` setting when one is
/// given, else the function's own identifier.
pub fn instrument_label(function_name: &str, setting: Option<&str>) -> (r: String)
    ensures
        r@ == match setting {
            None => function_name@,
            Some(name) => name@,
        },
{
    match setting {
        None => function_name.to_owned(),
        Some(name) => name.to_owned(),
    }
}

} // verus!
