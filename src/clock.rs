//! Wall-clock readings, taken from chrono.

use vstd::prelude::*;
use crate::text::owned;

verus! {

/// RFC 3339 text of a UTC instant given in whole seconds since the Unix epoch.
pub uninterp spec fn rfc3339_of(seconds: int) -> Seq<char>;

/// The first second that RFC 3339 text is promised for: 0000-01-01T00:00:00Z.
pub open spec fn first_rendered_second() -> int {
    -62167219200
}

/// The last second that RFC 3339 text is promised for: 9999-12-31T23:59:59Z.
pub open spec fn last_rendered_second() -> int {
    253402300799
}

/// Relies on std's `SystemTime::now`, measured against `UNIX_EPOCH` with
/// `SystemTime::duration_since`: `Ok` holds the whole seconds and the
/// nanoseconds after the epoch, `Err` those before it (both read from the
/// `Duration`, whose nanoseconds stay below one billion). Which instant is read
/// depends on the machine.
#[verifier::external_body]
fn system_clock() -> (r: Result<(u64, u32), (u64, u32)>)
    ensures
        match r {
            Ok((_, n)) => n < 1_000_000_000,
            Err((_, n)) => n < 1_000_000_000,
        },
{
    match std::time::SystemTime::now().duration_since(std::time::UNIX_EPOCH) {
        Ok(d) => Ok((d.as_secs(), d.subsec_nanos())),
        Err(e) => Err((e.duration().as_secs(), e.duration().subsec_nanos())),
    }
}

/// The largest number of whole seconds, either side of the epoch, whose
/// milliseconds fit in an `i64`; readings further out are clamped to it.
pub open spec fn clock_limit() -> int {
    9_223_372_036_854_774
}

/// Whole seconds (rounded down) and milliseconds (rounded down) of a clock
/// reading, clamped to `clock_limit()` seconds either side of the epoch.
fn seconds_and_millis(reading: Result<(u64, u32), (u64, u32)>) -> (r: (i64, i64))
    requires
        match reading {
            Ok((_, n)) => n < 1_000_000_000,
            Err((_, n)) => n < 1_000_000_000,
        },
    ensures
        -clock_limit() - 1 <= r.0 <= clock_limit(),
        r.0 * 1000 <= r.1 < r.0 * 1000 + 1000,
{
    let limit: u64 = 9_223_372_036_854_774;
    match reading {
        Ok((s, n)) => {
            let (secs, nanos) = if s > limit {
                (limit, 0u32)
            } else {
                (s, n)
            };
            let seconds = secs as i64;
            (seconds, seconds * 1000 + (nanos / 1_000_000) as i64)
        },
        Err((s, n)) => {
            let (secs, nanos) = if s > limit {
                (limit, 0u32)
            } else {
                (s, n)
            };
            if nanos == 0 {
                let seconds = -(secs as i64);
                (seconds, seconds * 1000)
            } else {
                let seconds = -(secs as i64) - 1;
                let rest = 1_000_000_000 - nanos;
                (seconds, seconds * 1000 + (rest / 1_000_000) as i64)
            }
        },
    }
}

/// Relies on chrono's `DateTime::<Utc>::from_timestamp` (`None` only outside
/// chrono's range of some 262,000 years either side of year 0), with the
/// instant rendered by `DateTime::to_rfc3339`, which cannot fail; the text
/// depends on the number of seconds alone.
#[verifier::external_body]
fn rfc3339(seconds: i64) -> (r: Option<String>)
    ensures
        r matches Some(s) ==> s@ == rfc3339_of(seconds as int),
        first_rendered_second() <= seconds <= last_rendered_second() ==> r is Some,
{
    match chrono::DateTime::from_timestamp(seconds, 0) {
        Some(d) => Some(d.to_rfc3339()),
        None => None,
    }
}

/// An instant: whole seconds and milliseconds since the Unix epoch, and its RFC 3339 text.
#[derive(Debug, Clone)]
pub struct Instant {
    pub seconds: i64,
    pub millis: i64,
    pub rfc3339: String,
}

impl Instant {
    /// The instant `seconds` (and `millis`) after the epoch, with its RFC 3339
    /// text, or an empty text where chrono cannot represent it.
    pub fn at(seconds: i64, millis: i64) -> (r: Instant)
        ensures
            r.seconds == seconds,
            r.millis == millis,
            r.rfc3339@ == rfc3339_of(seconds as int) || r.rfc3339@.len() == 0,
            first_rendered_second() <= seconds <= last_rendered_second() ==> r.rfc3339@
                == rfc3339_of(seconds as int),
    {
        let text = match rfc3339(seconds) {
            Some(t) => t,
            None => owned(""),
        };
        proof {
            reveal_strlit("");
        }
        Instant { seconds, millis, rfc3339: text }
    }

    /// The current instant: its milliseconds within its second, and its text
    /// that of its second within the rendered range.
    pub fn now() -> (r: Instant)
        ensures
            r.seconds * 1000 <= r.millis < r.seconds * 1000 + 1000,
            r.rfc3339@ == rfc3339_of(r.seconds as int) || r.rfc3339@.len() == 0,
            first_rendered_second() <= r.seconds <= last_rendered_second() ==> r.rfc3339@
                == rfc3339_of(r.seconds as int),
    {
        let (seconds, millis) = seconds_and_millis(system_clock());
        Instant::at(seconds, millis)
    }
}

} // verus!
