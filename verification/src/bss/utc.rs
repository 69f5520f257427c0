//! UTC dates and times, as the `chrono` crate represents and computes them.
use vstd::prelude::*;

verus! {

/// A UTC date and time as chrono's `DateTime<Utc>` holds it: the whole non-leap seconds since
/// 1970-01-01 00:00:00 UTC, and the nanoseconds since the last second boundary (more than
/// 999,999,999 only during a leap second).
#[derive(Debug, Clone, Copy, PartialEq, Eq, Structural, Hash)]
pub struct UtcTime {
    pub secs: i64,
    pub nanos: u32,
}

/// Whether chrono represents the date and time `secs` seconds and `nanos` nanoseconds after
/// the Unix epoch: the seconds within its date range, from -262143-01-01T00:00:00 to
/// 262142-12-31T23:59:59, and the nanoseconds under one second, or under two seconds in the
/// last second of a minute (a leap second).
pub open spec fn chrono_timestamp_valid(secs: i64, nanos: u32) -> bool {
    &&& -8_334_601_228_800 <= secs <= 8_210_266_876_799
    &&& (nanos < 1_000_000_000 || (nanos < 2_000_000_000 && secs % 60 == 59))
}

/// The date and time `ago_ns` nanoseconds before the valid date and time (`secs`, `nanos`),
/// as chrono's `checked_sub_signed` computes it, if within chrono's date range.
pub uninterp spec fn chrono_minus_nanos(secs: i64, nanos: u32, ago_ns: i64) -> Option<(i64, u32)>;

/// Calls `chrono::DateTime::from_timestamp`. It returns `None` when the day the seconds fall
/// on is outside chrono's date range or the nanoseconds are invalid for that second
/// (`chrono_timestamp_valid`), and otherwise the date and time that `timestamp()` and
/// `timestamp_subsec_nanos()` give back.
#[verifier::external_body]
pub fn utc_from_timestamp(secs: i64, nanos: u32) -> (r: Option<UtcTime>)
    ensures
        r is Some <==> chrono_timestamp_valid(secs, nanos),
        r matches Some(t) ==> t.secs == secs && t.nanos == nanos,
{
    match chrono::DateTime::from_timestamp(secs, nanos) {
        Some(d) => Some(UtcTime { secs: d.timestamp(), nanos: d.timestamp_subsec_nanos() }),
        None => None,
    }
}

/// Calls `chrono::DateTime::checked_sub_signed` with `TimeDelta::nanoseconds(ago_ns)` on the
/// date and time `t`, which must be one chrono represents. The result, `None` when out of
/// chrono's range, is named by `chrono_minus_nanos`; nothing more is stated of it.
#[verifier::external_body]
pub fn utc_minus_nanos(t: UtcTime, ago_ns: i64) -> (r: Option<UtcTime>)
    requires
        chrono_timestamp_valid(t.secs, t.nanos),
    ensures
        match chrono_minus_nanos(t.secs, t.nanos, ago_ns) {
            Some(v) => r == Some(UtcTime { secs: v.0, nanos: v.1 }),
            None => r is None,
        },
{
    match chrono::DateTime::from_timestamp(t.secs, t.nanos) {
        Some(d) => match d.checked_sub_signed(chrono::TimeDelta::nanoseconds(ago_ns)) {
            Some(x) => Some(UtcTime { secs: x.timestamp(), nanos: x.timestamp_subsec_nanos() }),
            None => None,
        },
        None => None,
    }
}

/// Reads the system clock (`std::time::SystemTime::now`) and its distance from the Unix epoch
/// (`duration_since(UNIX_EPOCH)`), as whole seconds and the nanoseconds of the last second;
/// `None` when the clock reads before the epoch. The reading depends on the clock, so only what
/// holds of every reading is stated: the nanoseconds are under one second.
#[verifier::external_body]
fn system_clock_since_epoch() -> (r: Option<(u64, u32)>)
    ensures
        r matches Some(d) ==> d.1 < 1_000_000_000,
{
    match std::time::SystemTime::now().duration_since(std::time::UNIX_EPOCH) {
        Ok(d) => Some((d.as_secs(), d.subsec_nanos())),
        Err(_) => None,
    }
}

/// The UTC date and time of a clock reading taken as seconds and nanoseconds since the Unix
/// epoch: `None` when the clock read before the epoch or the seconds are beyond what chrono
/// represents.
pub fn utc_from_clock(reading: Option<(u64, u32)>) -> (r: Option<UtcTime>)
    ensures
        match reading {
            Some(d) => r == (if d.0 <= i64::MAX && chrono_timestamp_valid(d.0 as i64, d.1) {
                Some(UtcTime { secs: d.0 as i64, nanos: d.1 })
            } else {
                None
            }),
            None => r is None,
        },
        r matches Some(t) ==> chrono_timestamp_valid(t.secs, t.nanos),
{
    match reading {
        Some((secs, nanos)) => if secs <= i64::MAX as u64 {
            utc_from_timestamp(secs as i64, nanos)
        } else {
            None
        },
        None => None,
    }
}

/// The current UTC date and time, as chrono's `Utc::now` reads it, or `None` when the system
/// clock reads before the Unix epoch (where `Utc::now` would panic). The reading depends on the
/// clock; whatever it is, a date and time returned is one chrono represents.
pub fn utc_now() -> (r: Option<UtcTime>)
    ensures
        r matches Some(t) ==> chrono_timestamp_valid(t.secs, t.nanos) && t.secs >= 0,
{
    utc_from_clock(system_clock_since_epoch())
}

} // verus!
