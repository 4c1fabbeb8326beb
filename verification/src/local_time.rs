//! The two places where the wall clock and the local time zone are consulted.
//!
//! Both go through the `chrono` crate. Nothing is claimed about what they
//! return: the current instant and the zone's rules belong to the machine.

use std::fmt::Write;
use vstd::prelude::*;

verus! {

/// Reads the current instant with `chrono::Local::now` and hands it back as
/// whole seconds since the Unix epoch (`DateTime::timestamp`) and the
/// nanoseconds within that second (`DateTime::timestamp_subsec_nanos`).
///
/// No property of the result is assumed.
#[verifier::external_body]
pub(crate) fn read_clock() -> (parts: (i64, u32)) {
    let now = chrono::Local::now();
    (now.timestamp(), now.timestamp_subsec_nanos())
}

/// Renders the instant `secs` seconds and `nanos` nanoseconds after the Unix
/// epoch in the machine's local time zone: `chrono::DateTime::from_timestamp`
/// builds the instant, `with_timezone(&Local)` moves it to the local zone and
/// `DateTime::format` lays it out by `pattern`.
///
/// `None` when chrono cannot represent the instant or rejects the pattern.
/// The text itself depends on the zone and is left unspecified. Like chrono
/// itself, the call relies on the zone data of the machine being well
/// formed.
#[verifier::external_body]
pub(crate) fn render_local(secs: i64, nanos: u32, pattern: &str) -> (text: Option<String>) {
    match chrono::DateTime::from_timestamp(secs, nanos) {
        Some(utc) => {
            let mut out = String::new();
            match write!(out, "{}", utc.with_timezone(&chrono::Local).format(pattern)) {
                Ok(()) => Some(out),
                Err(_) => None,
            }
        },
        None => None,
    }
}

} // verus!
