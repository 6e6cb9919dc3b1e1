//! Readings of the system clock. The clock is read through `SystemTime`,
//! which never fails: a reading before the Unix epoch comes back as the
//! distance before it. What the reading is depends on the time, so nothing
//! is stated of it; what is made of a reading is stated exactly.

use vstd::prelude::*;

verus! {

/// A clock reading: whole seconds and the nanoseconds beyond them, after
/// the Unix epoch (`Ok`) or before it (`Err`).
pub type ClockReading = Result<(u64, u32), (u64, u32)>;

/// `SystemTime::now().duration_since(UNIX_EPOCH)`: how far the clock reads
/// after the epoch, or (its error) how far before it, as `Duration` gives
/// them: whole seconds and fewer than a billion nanoseconds. Which reading
/// it gives depends on the time and is not stated.
#[verifier::external_body]
fn clock_reading() -> (r: ClockReading)
    ensures
        match r {
            Ok((_, n)) => n < 1_000_000_000,
            Err((_, n)) => n < 1_000_000_000,
        },
{
    match std::time::SystemTime::now().duration_since(std::time::UNIX_EPOCH) {
        Ok(d) => Ok((d.as_secs(), d.subsec_nanos())),
        Err(e) => Err((e.duration().as_secs(), e.duration().subsec_nanos())),
    }
}

/// The seconds since the epoch of a reading, rounded down (so a reading a
/// fraction of a second before the epoch is -1), held within `i64`.
pub open spec fn epoch_seconds_spec(r: ClockReading) -> i64 {
    match r {
        Ok((s, _)) => if s <= i64::MAX { s as i64 } else { i64::MAX },
        Err((s, n)) => {
            let t = s + if n > 0 { 1int } else { 0int };
            if t <= 0x8000_0000_0000_0000 { (-t) as i64 } else { i64::MIN }
        },
    }
}

/// The nanoseconds since the epoch of a reading; none when they do not fit
/// in an `i64`.
pub open spec fn epoch_nanos_spec(r: ClockReading) -> Option<i64> {
    match r {
        Ok((s, n)) => {
            let t = s * 1_000_000_000 + n;
            if t <= i64::MAX { Some(t as i64) } else { None }
        },
        Err((s, n)) => {
            let t = s * 1_000_000_000 + n;
            if t <= 0x8000_0000_0000_0000 { Some((-t) as i64) } else { None }
        },
    }
}

/// The seconds since the epoch of a reading, as `epoch_seconds_spec`
/// states them.
pub fn epoch_seconds(r: ClockReading) -> (s: i64)
    ensures
        s == epoch_seconds_spec(r),
{
    match r {
        Ok((s, _)) => if s <= 0x7fff_ffff_ffff_ffffu64 { s as i64 } else { i64::MAX },
        Err((s, n)) => {
            if s >= 0x8000_0000_0000_0000u64 {
                i64::MIN
            } else if n > 0 {
                -(s as i64) - 1
            } else {
                -(s as i64)
            }
        },
    }
}

/// The nanoseconds since the epoch of a reading, as `epoch_nanos_spec`
/// states them.
pub fn epoch_nanos(r: ClockReading) -> (t: Option<i64>)
    requires
        match r {
            Ok((_, n)) => n < 1_000_000_000,
            Err((_, n)) => n < 1_000_000_000,
        },
    ensures
        t == epoch_nanos_spec(r),
{
    match r {
        Ok((s, n)) => {
            let total: u128 = (s as u128) * 1_000_000_000u128 + (n as u128);
            if total <= 0x7fff_ffff_ffff_ffffu128 { Some(total as i64) } else { None }
        },
        Err((s, n)) => {
            let total: u128 = (s as u128) * 1_000_000_000u128 + (n as u128);
            if total < 0x8000_0000_0000_0000u128 {
                Some(-(total as i64))
            } else if total == 0x8000_0000_0000_0000u128 {
                Some(i64::MIN)
            } else {
                None
            }
        },
    }
}

/// Seconds since the Unix epoch now.
pub fn now_epoch() -> (r: i64)
{
    epoch_seconds(clock_reading())
}

/// Nanoseconds since the Unix epoch now, or `None` outside what an `i64`
/// holds.
pub fn now_nanos() -> (r: Option<i64>)
{
    epoch_nanos(clock_reading())
}

/// What `chrono` writes as `%Y%m%d` for the UTC day that holds a second
/// since the epoch; none for a second outside the dates it represents.
pub uninterp spec fn compact_date(secs: i64) -> Option<Seq<char>>;

/// `DateTime::<Utc>::from_timestamp(secs, 0)` formatted as `%Y%m%d`: the
/// year, month and day digits of that second's UTC day, a function of the
/// second alone; none where `from_timestamp` refuses the second.
#[verifier::external_body]
fn utc_date_compact(secs: i64) -> (r: Option<String>)
    ensures
        match compact_date(secs) {
            Some(d) => r matches Some(s) && s@ == d,
            None => r is None,
        },
{
    match chrono::DateTime::<chrono::Utc>::from_timestamp(secs, 0) {
        Some(d) => Some(d.format("%Y%m%d").to_string()),
        None => None,
    }
}

/// The date written for a second since the epoch: its compact UTC date,
/// or the empty text for a second beyond the dates `chrono` represents.
pub open spec fn date_text_spec(secs: i64) -> Seq<char> {
    match compact_date(secs) {
        Some(d) => d,
        None => Seq::empty(),
    }
}

/// The date written for a second since the epoch, as `date_text_spec`
/// states it.
pub fn date_text(secs: i64) -> (r: String)
    ensures
        r@ == date_text_spec(secs),
{
    match utc_date_compact(secs) {
        Some(d) => d,
        None => String::new(),
    }
}

/// Today's UTC date as year, month and day digits.
pub(crate) fn today_compact() -> (r: String)
    ensures
        exists|secs: i64| r@ == date_text_spec(secs),
{
    date_text(now_epoch())
}

} // verus!
