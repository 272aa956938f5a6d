//! Instants and spans of time, and the two clocks that the library reads.
use vstd::prelude::*;

verus! {

/// The nanoseconds of one second.
pub const NANOS_PER_SEC: u32 = 1_000_000_000;

/// The first second that a date and time of `chrono` can stand for: the start of the
/// year -262143.
pub const MIN_TIMESTAMP: i64 = -8_334_601_228_800;

/// The last second that a date and time of `chrono` can stand for: the end of the
/// year 262142.
pub const MAX_TIMESTAMP: i64 = 8_210_266_876_799;

/// An instant: `secs` since the Unix epoch, and `nanos` into that second.
#[derive(Clone, Copy, Debug, PartialEq, Eq, Structural)]
pub struct UtcTime {
    pub secs: i64,
    pub nanos: u32,
}

/// A span of time, which is never negative: `secs` seconds and `nanos` nanoseconds.
#[derive(Clone, Copy, Debug, PartialEq, Eq, Structural)]
pub struct Lifetime {
    pub secs: u64,
    pub nanos: u32,
}

impl UtcTime {
    /// The instant is one that a date and time of `chrono` can stand for.
    pub open spec fn wf(self) -> bool {
        &&& MIN_TIMESTAMP <= self.secs <= MAX_TIMESTAMP
        &&& self.nanos < NANOS_PER_SEC
    }

    /// The nanoseconds since the Unix epoch.
    pub open spec fn total_nanos(self) -> int {
        self.secs * NANOS_PER_SEC + self.nanos
    }
}

impl Lifetime {
    /// The length of the span in nanoseconds.
    pub open spec fn total_nanos(self) -> int {
        self.secs * NANOS_PER_SEC + self.nanos
    }
}

/// The whole second, since the Unix epoch, in which the instant `span` after `start` lies.
pub open spec fn second_after(start: UtcTime, span: Lifetime) -> int {
    (start.total_nanos() + span.total_nanos()) / (NANOS_PER_SEC as int)
}

/// The instant `span` after `start` is one that a date and time of `chrono` can stand for.
pub open spec fn reaches(start: UtcTime, span: Lifetime) -> bool {
    second_after(start, span) <= MAX_TIMESTAMP
}

/// The second `span` after `start`, or `None` where no date and time stands for it.
///
/// Calls `chrono::DateTime::<Utc>::checked_add_signed`, which adds the span to the
/// instant exactly and answers `None` where the sum lies after the last date and time;
/// `timestamp` then drops the nanoseconds.
#[verifier::external_body]
pub(crate) fn timestamp_after(start: UtcTime, span: Lifetime) -> (second: Option<i64>)
    requires
        start.wf(),
    ensures
        second == (if reaches(start, span) {
            Some(second_after(start, span) as i64)
        } else {
            None
        }),
{
    let whole = std::time::Duration::from_secs(span.secs);
    let span = whole.checked_add(std::time::Duration::from_nanos(span.nanos as u64))?;
    let from = chrono::DateTime::<chrono::Utc>::from_timestamp(start.secs, start.nanos)?;
    let span = chrono::TimeDelta::from_std(span).ok()?;
    from.checked_add_signed(span).map(|sum| sum.timestamp())
}

/// The present instant.
///
/// Calls `chrono::Utc::now`, which reads the machine's clock: of the instant only this
/// is known, that a date and time can stand for it.
#[verifier::external_body]
pub(crate) fn utc_now() -> (now: UtcTime)
    ensures
        now.wf(),
{
    let now = chrono::Utc::now();
    UtcTime { secs: now.timestamp(), nanos: now.timestamp_subsec_nanos() }
}

/// The present second since the Unix epoch.
///
/// Calls `jsonwebtoken::get_current_timestamp`, which reads the machine's clock:
/// nothing is known of the second.
#[verifier::external_body]
pub(crate) fn unix_now() -> (now: u64) {
    jsonwebtoken::get_current_timestamp()
}

/// The two clocks, read one after the other: the instant, and the second since the Unix
/// epoch that tokens are held against.
#[derive(Clone, Copy, Debug, PartialEq, Eq, Structural)]
pub struct Clock {
    pub utc: UtcTime,
    pub unix: u64,
}

/// Reads both clocks.
pub(crate) fn read_clock() -> (clock: Clock)
    ensures
        clock.utc.wf(),
{
    Clock { utc: utc_now(), unix: unix_now() }
}

/// The second in which a span ends holds its end: the end lies in it, and so not before it
/// and not after it. There is such a date and time up to the end of the year 262142.
pub proof fn law_second_holds_the_end(start: UtcTime, span: Lifetime)
    ensures
        ({
            let second = second_after(start, span);
            let end = (start.secs + span.secs) * 1_000_000_000 + start.nanos + span.nanos;
            &&& second * 1_000_000_000 <= end < (second + 1) * 1_000_000_000
            &&& reaches(start, span) == (second <= 8_210_266_876_799)
        }),
{
}

/// A later start, or a longer span, does not end earlier; a span of whole seconds moves the
/// end by just so many.
pub proof fn law_spans_add_up(start: UtcTime, later: UtcTime, span: Lifetime, secs: u64)
    requires
        start.total_nanos() <= later.total_nanos(),
        span.secs + secs <= u64::MAX,
    ensures
        second_after(start, span) <= second_after(later, span),
        second_after(start, Lifetime { secs: (span.secs + secs) as u64, nanos: span.nanos })
            == second_after(start, span) + secs,
{
}

} // verus!
