//! Rendering a point in time as text, in UTC.
//!
//! The calendar arithmetic and the strftime-style directives are owned by
//! the `chrono` crate; this module only fixes what the rendering is a
//! function of: the timestamp and the format string, and nothing else.

use std::fmt::Write;

use vstd::prelude::*;

verus! {

/// The text that the UTC calendar rendering of `chrono` produces for the
/// timestamp `secs` seconds and `nanos` nanoseconds since the Unix epoch,
/// under the strftime-style format `fmt`. The rendering depends on these
/// arguments alone.
pub uninterp spec fn utc_format_of(secs: i64, nanos: u32, fmt: Seq<char>) -> Seq<char>;

/// Render the timestamp `secs` seconds and `nanos` nanoseconds since the
/// Unix epoch as text, in UTC, under the strftime-style format `fmt`.
/// `None` is returned when the timestamp is out of the representable
/// calendar range or the format string is not well formed.
///
/// Relies on chrono's `DateTime::from_timestamp` and `DateTime::format`:
/// the rendered text is a function of the timestamp and the format string
/// alone, and rendering to a buffer reports a malformed format as an
/// error instead of panicking.
#[verifier::external_body]
pub fn fmt_time_utc(secs: i64, nanos: u32, fmt: &str) -> (r: Option<String>)
    ensures
        r matches Some(s) ==> s@ == utc_format_of(secs, nanos, fmt@),
{
    match chrono::DateTime::<chrono::Utc>::from_timestamp(secs, nanos) {
        None => None,
        Some(datetime) => {
            let mut rendered = String::new();
            match write!(rendered, "{}", datetime.format(fmt)) {
                Ok(()) => Some(rendered),
                Err(_) => None,
            }
        },
    }
}

} // verus!
