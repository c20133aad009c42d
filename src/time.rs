//! Instants in UTC, the display zone's local wall clock, and the
//! "more than five minutes ago" test.

use vstd::prelude::*;
use vstd::string::StringExecFns;
use crate::text::digit_str;
use crate::text::two_digits;

verus! {

broadcast use vstd::string::group_string_axioms;

/// Bound on the seconds of an instant that the display zone can convert:
/// well inside the calendar range that chrono represents.
pub const TIMESTAMP_LIMIT: i64 = 8_000_000_000_000;

/// Seconds in a day.
pub const DAY_SECS: i64 = 86_400;

/// Five minutes, in nanoseconds.
pub const PAST_GRACE_NANOS: i128 = 300_000_000_000;

/// An instant in UTC: whole seconds since the Unix epoch and the nanoseconds
/// past that second.
#[derive(Clone, Copy, Debug, PartialEq, Eq, Structural)]
pub struct UtcTime {
    pub secs: i64,
    pub nanos: u32,
}

impl UtcTime {
    /// The instant lies in the range that the display zone can convert.
    pub open spec fn wf(&self) -> bool {
        -TIMESTAMP_LIMIT <= self.secs <= TIMESTAMP_LIMIT
    }

    /// The instant as nanoseconds since the Unix epoch.
    pub open spec fn nanos_since_epoch(&self) -> int {
        self.secs * 1_000_000_000 + self.nanos
    }
}

/// `now` lies strictly more than five minutes after `then`.
pub open spec fn is_past(now: UtcTime, then: UtcTime) -> bool {
    now.nanos_since_epoch() > then.nanos_since_epoch() + PAST_GRACE_NANOS
}

/// Offset of the display zone (Europe/Paris) from UTC, in seconds, at the
/// instant `secs` seconds after the Unix epoch.
pub uninterp spec fn paris_offset(secs: int) -> int;

/// Local wall-clock seconds in the display zone at instant `t`.
pub open spec fn local_secs(t: UtcTime) -> int {
    t.secs + paris_offset(t.secs as int)
}

/// `HH:MM` of a count of local seconds: hour and minute of its day.
pub open spec fn clock_of(local: int) -> Seq<char> {
    let sod = local % (DAY_SECS as int);
    two_digits(sod / 3600) + seq![':'] + two_digits((sod % 3600) / 60)
}

/// Relies on chrono-tz's Europe::Paris, through chrono's
/// `TimeZone::offset_from_utc_datetime` and `Offset::fix`: the zone's
/// local-minus-UTC offset at that instant, which chrono's `FixedOffset` keeps
/// strictly within one day. `DateTime::from_timestamp` is `Some` on this range.
#[verifier::external_body]
fn paris_offset_at(secs: i64) -> (r: i32)
    requires
        -TIMESTAMP_LIMIT <= secs <= TIMESTAMP_LIMIT,
    ensures
        r as int == paris_offset(secs as int),
        -DAY_SECS < r < DAY_SECS,
{
    let utc = chrono::DateTime::from_timestamp(secs, 0).unwrap().naive_utc();
    let offset = chrono::TimeZone::offset_from_utc_datetime(&chrono_tz::Europe::Paris, &utc);
    chrono::Offset::fix(&offset).local_minus_utc()
}

/// The `HH:MM` local time of `t` in the display zone.
pub fn local_clock(t: &UtcTime) -> (r: String)
    requires
        t.wf(),
    ensures
        r@ == clock_of(local_secs(*t)),
{
    let off = paris_offset_at(t.secs);
    let local: i64 = t.secs + off as i64;
    let shift: i64 = 200_000_000 * DAY_SECS;
    let sod: i64 = (local + shift) % DAY_SECS;
    proof {
        vstd::arithmetic::div_mod::lemma_mod_multiples_vanish(
            200_000_000,
            local as int,
            DAY_SECS as int,
        );
        assert(sod == (local as int) % (DAY_SECS as int));
    }
    let hour: i64 = sod / 3600;
    let minute: i64 = (sod % 3600) / 60;
    let mut out = String::new();
    out.append(digit_str((hour / 10) as u64));
    out.append(digit_str((hour % 10) as u64));
    out.append(":");
    out.append(digit_str((minute / 10) as u64));
    out.append(digit_str((minute % 10) as u64));
    proof {
        reveal_strlit(":");
    }
    assert(out@ =~= clock_of(local_secs(*t)));
    out
}

/// Whether `now` lies strictly more than five minutes after `then`.
pub fn past_at(now: &UtcTime, then: &UtcTime) -> (r: bool)
    ensures
        r == is_past(*now, *then),
{
    let n: i128 = now.secs as i128 * 1_000_000_000 + now.nanos as i128;
    let t: i128 = then.secs as i128 * 1_000_000_000 + then.nanos as i128;
    n > t + PAST_GRACE_NANOS
}

/// An instant is past exactly when it lies strictly more than five minutes
/// before the time of evaluation; exactly five minutes later is not yet past.
pub proof fn law_past_boundary(now: UtcTime, then: UtcTime)
    ensures
        is_past(now, then) <==> now.nanos_since_epoch() - then.nanos_since_epoch()
            > 300_000_000_000,
        now.nanos_since_epoch() == then.nanos_since_epoch() + 300_000_000_000 ==> !is_past(
            now,
            then,
        ),
        now.nanos_since_epoch() == then.nanos_since_epoch() + 300_000_000_001 ==> is_past(
            now,
            then,
        ),
{
}

} // verus!
