//! The fixed textual timestamp format of the transport layer.
//!
//! Store timestamps reach the library as whole seconds since the Unix
//! epoch; they leave it as RFC 2822 text. The rendering itself is done by
//! the `chrono` crate and is a function of the seconds alone, so it is
//! named here rather than restated.

use vstd::prelude::*;

verus! {

/// What `chrono` renders for the given seconds since the Unix epoch, as an
/// RFC 2822 date-time in UTC. The text is a function of the seconds alone.
pub uninterp spec fn rfc2822_of(secs: int) -> Seq<char>;

/// The last second of year 9999, the latest instant the RFC 2822 rendering
/// accepts (the format has four-digit years).
pub const MAX_RFC2822_SECS: i64 = 253402300799;

/// Relies on chrono's `DateTime::<Utc>::from_timestamp` and
/// `DateTime::to_rfc2822`: for seconds between the epoch and the end of
/// year 9999 the conversion succeeds and the rendering depends on the
/// seconds alone.
#[verifier::external_body]
pub fn format_rfc2822_utc(secs: i64) -> (r: String)
    requires
        0 <= secs <= MAX_RFC2822_SECS,
    ensures
        r@ == rfc2822_of(secs as int),
{
    match chrono::DateTime::<chrono::Utc>::from_timestamp(secs, 0) {
        Some(d) => d.to_rfc2822(),
        None => String::new(),
    }
}

} // verus!
