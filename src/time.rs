use chrono::{SecondsFormat, TimeZone, Utc};
use vstd::prelude::*;

use crate::types::Timestamp;

verus! {

/// Text shown for a timestamp that names no calendar instant.
pub const OUT_OF_RANGE: &'static str = "<out of range>";

/// Whether a millisecond count since the epoch names an instant that chrono can represent.
pub uninterp spec fn utc_millis_in_range(ms: int) -> bool;

/// The RFC 3339 text, with milliseconds and a `Z` suffix, of an instant in range.
pub uninterp spec fn rfc3339_millis_utc(ms: int) -> Seq<char>;

/// Relies on chrono's `TimeZone::timestamp_millis_opt` on `Utc` and
/// `DateTime::to_rfc3339_opts` with millisecond precision and `Z`: text exactly
/// when the count is in range.
#[verifier::external_body]
fn format_utc_millis(ms: i64) -> (r: Option<String>)
    ensures
        r.is_some() == utc_millis_in_range(ms as int),
        r matches Some(s) ==> s@ == rfc3339_millis_utc(ms as int),
{
    match Utc.timestamp_millis_opt(ms).single() {
        Some(d) => Some(d.to_rfc3339_opts(SecondsFormat::Millis, true)),
        None => None,
    }
}

/// The display text of a millisecond count: its RFC 3339 form, or the out-of-range text.
pub open spec fn display_of(ms: int) -> Seq<char> {
    if utc_millis_in_range(ms) {
        rfc3339_millis_utc(ms)
    } else {
        OUT_OF_RANGE@
    }
}

impl Timestamp {
    /// ISO-8601 text with milliseconds and `Z`, or the out-of-range text.
    pub fn to_display_string(&self) -> (r: String)
        ensures
            r@ == display_of(self.value as i64 as int),
    {
        match format_utc_millis(self.value as i64) {
            Some(s) => s,
            None => {
                let s = String::from_str(OUT_OF_RANGE);
                proof { reveal_strlit("<out of range>"); }
                s
            }
        }
    }
}

} // verus!
