//! Clock-offset estimation: the skew between the local clock and the
//! server clock, in whole seconds, computed once at startup from the
//! timestamp the metadata endpoint reports. An absent timestamp header
//! is an expected degraded mode and yields an offset of zero; a
//! malformed one is a protocol violation and is surfaced as an error.

use vstd::prelude::*;
use vstd::arithmetic::div_mod::lemma_div_multiples_vanish;
use crate::errors::RadioError;
use crate::progress::spec_elapsed_seconds;

verus! {

/// Truncating (round-toward-zero) division of `d` by 1000, the way the
/// machine divides two signed integers.
pub open spec fn trunc_div_1000(d: int) -> int {
    if d >= 0 {
        d / 1000
    } else {
        -((-d) / 1000)
    }
}

/// The estimated clock offset in whole seconds for a request issued at
/// `local_millis` whose response reports `server_millis`: the
/// difference `local - server`, truncated to seconds.
pub open spec fn spec_offset_seconds(local_millis: int, server_millis: int) -> int {
    trunc_div_1000(local_millis - server_millis)
}

/// The epoch milliseconds denoted by an RFC 2822 date string, if the
/// string is a well-formed date. What it is on a given string is
/// decided by the date grammar alone; it depends on nothing but the
/// characters.
pub uninterp spec fn rfc2822_millis(s: Seq<char>) -> Option<int>;

/// Relies on chrono's `DateTime::parse_from_rfc2822` to read an
/// RFC 2822 date string, and on `DateTime::timestamp_millis` to turn
/// the parsed date into epoch milliseconds. Both are pure functions of
/// the string alone; the result they agree on is named
/// [`rfc2822_millis`].
#[verifier::external_body]
fn parse_rfc2822_millis(s: &str) -> (r: Option<i64>)
    ensures
        match r {
            Some(t) => rfc2822_millis(s@) == Some(t as int),
            None => rfc2822_millis(s@) is None,
        },
{
    match chrono::DateTime::parse_from_rfc2822(s) {
        Ok(d) => Some(d.timestamp_millis()),
        Err(_) => None,
    }
}

/// Estimate the clock offset: `(local - server)` milliseconds,
/// truncated to whole seconds.
pub fn offset_seconds(local_millis: i64, server_millis: i64) -> (r: i64)
    ensures
        r == spec_offset_seconds(local_millis as int, server_millis as int),
{
    let local_wide: i128 = local_millis as i128;
    let server_wide: i128 = server_millis as i128;
    let diff: i128 = local_wide - server_wide;
    if diff >= 0 {
        (diff / 1000) as i64
    } else {
        (-((-diff) / 1000)) as i64
    }
}

/// The clock offset a metadata response yields: zero when the response
/// carries no date header, the estimated skew when it carries a
/// well-formed one, and an error when the header is present but
/// malformed.
pub fn clock_offset_from_header(header: Option<&str>, local_millis: i64) -> (r: Result<
    i64,
    RadioError,
>)
    ensures
        header is None ==> r == Ok::<i64, RadioError>(0i64),
        match header {
            None => r == Ok::<i64, RadioError>(0i64),
            Some(s) => match rfc2822_millis(s@) {
                Some(server) => (r matches Ok(v) && v == spec_offset_seconds(
                    local_millis as int,
                    server,
                )),
                None => r == Err::<i64, RadioError>(RadioError::MalformedClockHeader),
            },
        },
{
    match header {
        None => Ok(0),
        Some(s) => match parse_rfc2822_millis(s) {
            Some(server) => Ok(offset_seconds(local_millis, server)),
            None => Err(RadioError::MalformedClockHeader),
        },
    }
}

/// When local and server clocks are read at the same instant (both in
/// whole seconds), the estimated offset is exactly `local - server`,
/// and a later elapsed-time computation that applies the offset to a
/// local `now` of `server_now + offset` reduces to purely
/// server-relative time.
pub proof fn lemma_offset_server_relative(
    local_s: int,
    server_s: int,
    started: int,
    server_now: int,
)
    ensures
        spec_offset_seconds(local_s * 1000, server_s * 1000) == local_s - server_s,
        spec_elapsed_seconds(
            server_now + (local_s - server_s),
            started,
            local_s - server_s,
        ) == server_now - started,
{
    let d = local_s - server_s;
    assert(local_s * 1000 - server_s * 1000 == d * 1000);
    if d >= 0 {
        lemma_div_multiples_vanish(d, 1000);
        assert(1000 * d == d * 1000);
    } else {
        lemma_div_multiples_vanish(-d, 1000);
        assert(1000 * (-d) == (-(d * 1000)));
    }
}

} // verus!
