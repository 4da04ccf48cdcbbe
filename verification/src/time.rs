//! Points in time, as seconds and nanoseconds since the Unix epoch, and how they are written.
use chrono::DurationRound;
use vstd::prelude::*;

verus! {

/// The first second that chrono represents: January 1 of the year -262143, 00:00:00 UTC.
pub open spec fn chrono_min_secs() -> int {
    -8_334_601_228_800
}

/// The last second that chrono represents: December 31 of the year 262142, 23:59:59 UTC.
pub open spec fn chrono_max_secs() -> int {
    8_210_266_876_799
}

/// Whether chrono can represent the point in time `secs` seconds and `nanos` nanoseconds after
/// the Unix epoch (UTC), that is whether `DateTime::<Utc>::from_timestamp(secs, nanos)` gives
/// `Some`: the day must fall within the years that `NaiveDate` holds (-262143 to 262142), and
/// the nanoseconds must be under a second, or under two in the last second of a minute (a leap
/// second).
pub open spec fn chrono_accepts(secs: i64, nanos: u32) -> bool {
    &&& chrono_min_secs() <= secs <= chrono_max_secs()
    &&& (nanos < 1_000_000_000 || (nanos < 2_000_000_000 && secs % 60 == 59))
}

/// What chrono's `Display` writes for the date and time of day, without a time zone, of the
/// point `secs` seconds and `nanos` nanoseconds after the Unix epoch, read in UTC, e.g.
/// `2015-05-15 00:00:00`.
pub uninterp spec fn chrono_naive_text(secs: i64, nanos: u32) -> Seq<char>;

/// Calls `chrono::DateTime::<Utc>::from_timestamp(secs, nanos)` and says whether it gave
/// `Some`, which `chrono_accepts` states from chrono's source: `from_timestamp` takes the day
/// `secs.div_euclid(86_400)`, which `NaiveDate::from_num_days_from_ce_opt` accepts within its
/// `MIN_YEAR..=MAX_YEAR`, and the second of the day with `nanos`, which
/// `NaiveTime::from_num_seconds_from_midnight_opt` accepts below two seconds' worth, and
/// above one only in a minute's last second.
#[verifier::external_body]
fn chrono_accepts_exec(secs: i64, nanos: u32) -> (res: bool)
    ensures
        res == chrono_accepts(secs, nanos),
{
    chrono::DateTime::<chrono::Utc>::from_timestamp(secs, nanos).is_some()
}

/// Writes the point in time with chrono's `Display` for `DateTime<Utc>`, which writes the
/// date and time of day as `NaiveDateTime`'s `Display` does, a space, and the offset, which
/// `Utc` writes as `UTC`; the contract states that, over the name of the naive text.
#[verifier::external_body]
fn chrono_utc_display(secs: i64, nanos: u32) -> (res: String)
    requires
        chrono_accepts(secs, nanos),
    ensures
        res@ == chrono_naive_text(secs, nanos) + " UTC"@,
{
    chrono::DateTime::<chrono::Utc>::from_timestamp(secs, nanos).unwrap().to_string()
}

/// Writes the point in time with chrono's `Display` for `NaiveDateTime`, after
/// `DateTime::<Utc>::naive_utc`; the contract names the text and says nothing more of it.
#[verifier::external_body]
fn chrono_naive_display(secs: i64, nanos: u32) -> (res: String)
    requires
        chrono_accepts(secs, nanos),
    ensures
        res@ == chrono_naive_text(secs, nanos),
{
    chrono::DateTime::<chrono::Utc>::from_timestamp(secs, nanos).unwrap().naive_utc().to_string()
}

/// A point in time: `secs` seconds and `nanos` nanoseconds after the Unix epoch, within the
/// range that chrono can represent. `nanos` is under a second's worth, except in a leap second,
/// which chrono holds as the last second of a minute with `nanos` from one to two seconds'
/// worth.
#[derive(Clone, Copy, Debug)]
pub struct Timestamp {
    secs: i64,
    nanos: u32,
}

impl Timestamp {
    #[verifier::type_invariant]
    spec fn inv(self) -> bool {
        chrono_accepts(self.secs, self.nanos)
    }

    /// The seconds since the Unix epoch.
    pub closed spec fn spec_secs(self) -> i64 {
        self.secs
    }

    /// The nanoseconds past `spec_secs`.
    pub closed spec fn spec_nanos(self) -> u32 {
        self.nanos
    }

    /// The point `secs` seconds and `nanos` nanoseconds after the Unix epoch, or `None` where
    /// chrono cannot represent that point (see `chrono_accepts`).
    pub fn new(secs: i64, nanos: u32) -> (res: Option<Timestamp>)
        ensures
            res is Some <==> chrono_accepts(secs, nanos),
            res matches Some(t) ==> t.spec_secs() == secs && t.spec_nanos() == nanos,
    {
        if chrono_accepts_exec(secs, nanos) {
            Some(Timestamp { secs, nanos })
        } else {
            None
        }
    }

    /// The seconds since the Unix epoch.
    pub fn secs(&self) -> (res: i64)
        ensures
            res == self.spec_secs(),
    {
        self.secs
    }

    /// The nanoseconds past `secs`: a second's worth or more only in a leap second.
    pub fn nanos(&self) -> (res: u32)
        ensures
            res == self.spec_nanos(),
            res < 2_000_000_000,
            res >= 1_000_000_000 ==> self.spec_secs() % 60 == 59,
    {
        proof {
            use_type_invariant(self);
        }
        self.nanos
    }

    /// This point in time as chrono writes a `DateTime<Utc>`.
    pub fn utc_text(&self) -> (res: String)
        ensures
            res@ == utc_text(*self),
    {
        proof {
            use_type_invariant(self);
        }
        chrono_utc_display(self.secs, self.nanos)
    }

    /// The date and time of day of this point in UTC, as chrono writes a `NaiveDateTime`.
    pub fn naive_text(&self) -> (res: String)
        ensures
            res@ == naive_text(*self),
    {
        proof {
            use_type_invariant(self);
        }
        chrono_naive_display(self.secs, self.nanos)
    }

    /// Whether this point comes before `other`.
    pub fn is_before(&self, other: &Timestamp) -> (res: bool)
        ensures
            res == before(*self, *other),
    {
        self.secs < other.secs || (self.secs == other.secs && self.nanos < other.nanos)
    }
}

/// A point in time as chrono writes a `DateTime<Utc>`: its date and time of day in UTC, then
/// ` UTC`.
pub open spec fn utc_text(t: Timestamp) -> Seq<char> {
    chrono_naive_text(t.spec_secs(), t.spec_nanos()) + " UTC"@
}

/// The date and time of day of a point, in UTC, as chrono writes a `NaiveDateTime`.
pub open spec fn naive_text(t: Timestamp) -> Seq<char> {
    chrono_naive_text(t.spec_secs(), t.spec_nanos())
}

/// Whether `a` comes before `b`.
pub open spec fn before(a: Timestamp, b: Timestamp) -> bool {
    a.spec_secs() < b.spec_secs() || (a.spec_secs() == b.spec_secs() && a.spec_nanos()
        < b.spec_nanos())
}

} // verus!

verus! {

/// A span of time: `secs` seconds and `nanos` nanoseconds.
#[derive(Clone, Copy, Debug)]
pub struct Duration {
    pub secs: u64,
    pub nanos: u32,
}

} // verus!

verus! {

/// The nanoseconds since the Unix epoch of the point `secs` seconds and `nanos` nanoseconds
/// after it.
pub open spec fn epoch_nanos(secs: i64, nanos: u32) -> int {
    secs * 1_000_000_000 + nanos
}

/// The multiple of `span` nearest to `t`, the later one where two are equally near.
pub open spec fn rounded_to(t: int, span: int) -> int {
    let e = t % span;
    if e == 0 {
        t
    } else if 2 * e >= span {
        t + (span - e)
    } else {
        t - e
    }
}

/// The point `t` nanoseconds after the epoch as seconds and the nanoseconds past them, outside
/// any leap second.
pub open spec fn split_nanos(t: int) -> (int, int) {
    (t / 1_000_000_000, t % 1_000_000_000)
}

/// The point, as seconds and nanoseconds, that chrono's `duration_round` makes of the point
/// `secs`/`nanos` and an increment of `span` nanoseconds (see `rounded_to`), as chrono moves a
/// point by a span: a point outside a leap second moves as `rounded_to` says; a point within a
/// leap second stays within it where it moves by less than the rest of that leap second, and
/// otherwise leaves it, counting the leap second once for a move back and not at all for a move
/// forward.
pub open spec fn chrono_rounded(secs: int, nanos: int, span: int) -> (int, int) {
    let t = secs * 1_000_000_000 + nanos;
    let e = t % span;
    let leap = nanos >= 1_000_000_000;
    if e == 0 {
        (secs, nanos)
    } else if 2 * e < span {
        if leap && e < 1_000_000_000 {
            (secs, nanos - e)
        } else {
            split_nanos(t - e)
        }
    } else {
        let d = span - e;
        if leap && d < 1_000_000_000 && nanos + d < 2_000_000_000 {
            (secs, nanos + d)
        } else if leap {
            split_nanos(t + d - 1_000_000_000)
        } else {
            split_nanos(t + d)
        }
    }
}

/// The longest span that chrono's `TimeDelta` holds: `i64::MAX` milliseconds.
pub open spec fn max_delta_nanos() -> int {
    9_223_372_036_854_775int * 1_000_000_000 + 807_000_000
}

/// Why a point in time could not be rounded.
#[derive(Clone, Copy, Debug)]
pub enum RoundError {
    /// The increment is longer than chrono's `TimeDelta` can hold.
    OutOfRange,
    /// The increment is zero, or more nanoseconds than an `i64` holds.
    DurationExceedsLimit,
    /// The point in time is more nanoseconds from the epoch than an `i64` holds.
    TimestampExceedsLimit,
}

/// Why rounding the point `t` to a multiple of `increment` fails, if it does: the increment
/// is longer than chrono's `TimeDelta` holds, or is zero or more nanoseconds than an `i64`
/// holds, or the point is more nanoseconds from the epoch than an `i64` holds.
pub open spec fn round_failure(t: Timestamp, increment: Duration) -> Option<RoundError> {
    let span = increment.secs * 1_000_000_000 + increment.nanos;
    let n = epoch_nanos(t.spec_secs(), t.spec_nanos());
    if increment.secs > 9_223_372_036_854_775 || span > max_delta_nanos() {
        Some(RoundError::OutOfRange)
    } else if span == 0 || span > i64::MAX {
        Some(RoundError::DurationExceedsLimit)
    } else if n < i64::MIN || n > i64::MAX {
        Some(RoundError::TimestampExceedsLimit)
    } else {
        None
    }
}

/// Rounds the point `secs`/`nanos` to a multiple of the increment `inc_secs`/`inc_nanos`
/// with chrono: `TimeDelta::from_std` makes the increment, and
/// `DurationRound::duration_round` rounds. The contract states what chrono's source does:
/// `from_std` fails above `TimeDelta::MAX`; `duration_round` fails where the increment is not
/// a positive `i64` of nanoseconds, or the point is not an `i64` of nanoseconds from the epoch,
/// and otherwise moves the point to the nearest multiple of the increment, the later one on a
/// tie, by adding or subtracting a `TimeDelta`, which `NaiveTime::overflowing_add_signed`
/// carries out as `chrono_rounded` states, giving a point that chrono can represent.
#[verifier::external_body]
fn chrono_round(secs: i64, nanos: u32, inc_secs: u64, inc_nanos: u32) -> (res: Result<(i64, u32), RoundError>)
    requires
        chrono_accepts(secs, nanos),
        inc_nanos < 1_000_000_000,
    ensures
        (inc_secs > 9_223_372_036_854_775 || inc_secs * 1_000_000_000 + inc_nanos
            > max_delta_nanos()) ==> res matches Err(RoundError::OutOfRange),
        (inc_secs <= 9_223_372_036_854_775 && inc_secs * 1_000_000_000 + inc_nanos
            <= max_delta_nanos()) ==> ({
            let span = inc_secs * 1_000_000_000 + inc_nanos;
            let t = epoch_nanos(secs, nanos);
            if span == 0 || span > i64::MAX {
                res matches Err(RoundError::DurationExceedsLimit)
            } else if t < i64::MIN || t > i64::MAX {
                res matches Err(RoundError::TimestampExceedsLimit)
            } else {
                res matches Ok((s, n)) && (s as int, n as int) == chrono_rounded(
                    secs as int,
                    nanos as int,
                    span,
                ) && chrono_accepts(s, n)
            }
        }),
{
    let delta = match chrono::TimeDelta::from_std(std::time::Duration::new(inc_secs, inc_nanos)) {
        Ok(d) => d,
        Err(_) => return Err(RoundError::OutOfRange),
    };
    let point = chrono::DateTime::<chrono::Utc>::from_timestamp(secs, nanos).unwrap();
    match point.duration_round(delta) {
        Ok(r) => Ok((r.timestamp(), r.timestamp_subsec_nanos())),
        Err(chrono::RoundingError::DurationExceedsLimit) => Err(RoundError::DurationExceedsLimit),
        Err(chrono::RoundingError::TimestampExceedsLimit) => Err(RoundError::TimestampExceedsLimit),
        Err(_) => Err(RoundError::DurationExceedsLimit),
    }
}

impl Timestamp {
    /// This point rounded to the nearest multiple of `increment` since the epoch (the later one
    /// on a tie), as chrono's `duration_round` does for `clinvoice time stop` (see
    /// `chrono_rounded` for a point within a leap second).
    pub fn round_to(&self, increment: Duration) -> (res: Result<Timestamp, RoundError>)
        requires
            increment.nanos < 1_000_000_000,
        ensures
            ({
                let span = increment.secs * 1_000_000_000 + increment.nanos;
                let t = epoch_nanos(self.spec_secs(), self.spec_nanos());
                if increment.secs > 9_223_372_036_854_775 || span > max_delta_nanos() {
                    res matches Err(RoundError::OutOfRange)
                } else if span == 0 || span > i64::MAX {
                    res matches Err(RoundError::DurationExceedsLimit)
                } else if t < i64::MIN || t > i64::MAX {
                    res matches Err(RoundError::TimestampExceedsLimit)
                } else {
                    res matches Ok(r) && (r.spec_secs() as int, r.spec_nanos() as int)
                        == chrono_rounded(self.spec_secs() as int, self.spec_nanos() as int, span)
                }
            }),
    {
        proof {
            use_type_invariant(self);
        }
        match chrono_round(self.secs, self.nanos, increment.secs, increment.nanos) {
            Ok((secs, nanos)) => Ok(Timestamp { secs, nanos }),
            Err(e) => Err(e),
        }
    }
}

} // verus!
