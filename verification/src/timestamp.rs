//! Calendar time at second resolution.
//!
//! A [`Timestamp`] is an instant on the UTC time line, held as whole seconds
//! since the Unix epoch and confined to the range of dates that `chrono` can
//! represent. A [`UtcOffset`] is a fixed shift between UTC and local time, and
//! a [`TimeOfDay`] is what a wall clock shows: hour, minute and second.
//!
//! The calendar arithmetic itself is done by `chrono`; the functions that call
//! it are marked as trusted and state what the call returns over plain
//! integers.

use vstd::prelude::*;

verus! {

/// Unix time of the earliest instant `chrono` represents, the first second of
/// the year -262143.
pub const MIN_UNIX_SECONDS: i64 = -8_334_601_228_800;

/// Unix time of the last whole second `chrono` represents, the end of the year
/// 262142.
pub const MAX_UNIX_SECONDS: i64 = 8_210_266_876_799;

/// Number of seconds in a civil day.
pub const SECONDS_PER_DAY: i64 = 86_400;

/// Whether `secs` seconds since the Unix epoch names a representable instant.
pub open spec fn representable(secs: int) -> bool {
    MIN_UNIX_SECONDS <= secs <= MAX_UNIX_SECONDS
}

/// Whether `secs` is a shift that a fixed offset may have: strictly less than
/// one day in either direction.
pub open spec fn offset_in_range(secs: int) -> bool {
    -SECONDS_PER_DAY < secs < SECONDS_PER_DAY
}

/// Second of the civil day, `0..86400`, at Unix time `secs` shifted by
/// `offset` seconds.
pub open spec fn second_of_day(secs: int, offset: int) -> int {
    (secs + offset) % (SECONDS_PER_DAY as int)
}

/// Hour of the day shown at Unix time `secs` under the shift `offset`.
pub open spec fn hour_at(secs: int, offset: int) -> int {
    second_of_day(secs, offset) / 3600
}

/// Minute of the hour shown at Unix time `secs` under the shift `offset`.
pub open spec fn minute_at(secs: int, offset: int) -> int {
    (second_of_day(secs, offset) % 3600) / 60
}

/// Second of the minute shown at Unix time `secs` under the shift `offset`.
pub open spec fn second_at(secs: int, offset: int) -> int {
    second_of_day(secs, offset) % 60
}

/// `base + delta`, held at the last representable second where the sum would
/// pass it.
pub open spec fn saturating_advance(base: int, delta: int) -> int {
    if base + delta <= MAX_UNIX_SECONDS {
        base + delta
    } else {
        MAX_UNIX_SECONDS as int
    }
}

/// Calls `chrono::DateTime::from_timestamp` with a zero sub-second part and
/// reads the seconds back with `DateTime::timestamp`. The constructor accepts
/// exactly the representable range, and the two calls round-trip.
#[verifier::external_body]
fn chrono_from_timestamp(secs: i64) -> (r: Option<i64>)
    ensures
        r == (if representable(secs as int) {
            Some(secs)
        } else {
            None
        }),
{
    chrono::DateTime::from_timestamp(secs, 0).map(|t| t.timestamp())
}

/// Reads the Unix time of `chrono::NaiveDateTime::MIN` taken as UTC, the
/// earliest instant the crate represents.
#[verifier::external_body]
fn chrono_earliest() -> (r: i64)
    ensures
        r == MIN_UNIX_SECONDS,
{
    chrono::NaiveDateTime::MIN.and_utc().timestamp()
}

/// Calls `chrono::DateTime::checked_add_signed` on the instant `secs` with a
/// `TimeDelta` of `delta` whole seconds. The sum comes back when it is
/// representable, and nothing otherwise.
#[verifier::external_body]
fn chrono_checked_add_seconds(secs: i64, delta: i64) -> (r: Option<i64>)
    requires
        representable(secs as int),
        0 <= delta <= u64::MAX / 1_000_000,
    ensures
        r == (if representable(secs + delta) {
            Some((secs + delta) as i64)
        } else {
            None
        }),
{
    let base = chrono::DateTime::from_timestamp(secs, 0)?;
    let step = chrono::TimeDelta::try_seconds(delta)?;
    base.checked_add_signed(step).map(|t| t.timestamp())
}

/// Calls `chrono::FixedOffset::east_opt` and reads the shift back with
/// `local_minus_utc`. The constructor accepts shifts of less than a day.
#[verifier::external_body]
fn chrono_fixed_offset(secs: i32) -> (r: Option<i32>)
    ensures
        r == (if offset_in_range(secs as int) {
            Some(secs)
        } else {
            None
        }),
{
    chrono::FixedOffset::east_opt(secs).map(|tz| tz.local_minus_utc())
}

/// Calls `chrono::DateTime::with_timezone` to move the UTC instant `secs` into
/// the fixed offset `offset`, and reads hour, minute and second of the local
/// time through `chrono::Timelike`. The three fields are those of the second
/// of the day at `secs + offset`.
#[verifier::external_body]
fn chrono_local_clock(secs: i64, offset: i32) -> (r: Option<(u32, u32, u32)>)
    ensures
        r == (if representable(secs as int) && offset_in_range(offset as int) {
            Some(
                (
                    hour_at(secs as int, offset as int) as u32,
                    minute_at(secs as int, offset as int) as u32,
                    second_at(secs as int, offset as int) as u32,
                ),
            )
        } else {
            None
        }),
{
    let utc = chrono::DateTime::from_timestamp(secs, 0)?;
    let zone = chrono::FixedOffset::east_opt(offset)?;
    let local = utc.with_timezone(&zone);
    Some((
        chrono::Timelike::hour(&local),
        chrono::Timelike::minute(&local),
        chrono::Timelike::second(&local),
    ))
}

/// An instant on the UTC time line, at second resolution.
#[derive(Clone, Copy, Debug, PartialEq, Eq, Structural)]
pub struct Timestamp {
    secs: i64,
}

impl View for Timestamp {
    type V = int;

    /// Seconds since the Unix epoch.
    closed spec fn view(&self) -> int {
        self.secs as int
    }
}

impl Timestamp {
    /// Every timestamp lies in the representable range.
    #[verifier::type_invariant]
    pub open spec fn is_valid(&self) -> bool {
        representable(self@)
    }

    /// The timestamp `secs` seconds after the Unix epoch, for representable
    /// `secs`.
    pub closed spec fn at(secs: int) -> Timestamp {
        Timestamp { secs: secs as i64 }
    }

    /// `at` and the view are inverse to each other on the representable range.
    pub broadcast proof fn lemma_at(secs: int)
        requires
            representable(secs),
        ensures
            (#[trigger] Timestamp::at(secs))@ == secs,
            Timestamp::at(secs).is_valid(),
    {
    }

    /// The timestamp `secs` seconds after the Unix epoch, if there is one.
    pub fn from_unix_seconds(secs: i64) -> (r: Option<Timestamp>)
        ensures
            r == (if representable(secs as int) {
                Some(Timestamp::at(secs as int))
            } else {
                None
            }),
            r matches Some(t) ==> t@ == secs && t.is_valid(),
    {
        match chrono_from_timestamp(secs) {
            Some(secs) => Some(Timestamp { secs }),
            None => None,
        }
    }

    /// The earliest timestamp there is.
    pub fn earliest() -> (r: Timestamp)
        ensures
            r@ == MIN_UNIX_SECONDS,
            r.is_valid(),
    {
        Timestamp { secs: chrono_earliest() }
    }

    /// Seconds since the Unix epoch.
    pub fn unix_seconds(&self) -> (r: i64)
        ensures
            r == self@,
            self.is_valid(),
    {
        proof {
            use_type_invariant(self);
        }
        self.secs
    }

    /// The timestamp `elapsed_seconds` later, or the latest timestamp there is
    /// where that would lie beyond it.
    pub fn advanced_by(&self, elapsed_seconds: u64) -> (r: Timestamp)
        ensures
            r@ == saturating_advance(self@, elapsed_seconds as int),
            r.is_valid(),
    {
        proof {
            use_type_invariant(self);
        }
        if elapsed_seconds > u64::MAX / 1_000_000 {
            // More than the whole representable range, wherever it starts.
            Timestamp { secs: MAX_UNIX_SECONDS }
        } else {
            match chrono_checked_add_seconds(self.secs, elapsed_seconds as i64) {
                Some(secs) => Timestamp { secs },
                None => Timestamp { secs: MAX_UNIX_SECONDS },
            }
        }
    }

    /// The same instant as seen under the offset `zone`.
    pub fn with_timezone(&self, zone: UtcOffset) -> (r: LocalTimestamp)
        ensures
            r.utc() == *self,
            r.zone() == zone,
    {
        LocalTimestamp { utc: *self, zone }
    }
}

/// A fixed shift of local time against UTC, positive to the east.
#[derive(Clone, Copy, Debug, PartialEq, Eq, Structural)]
pub struct UtcOffset {
    secs: i32,
}

impl View for UtcOffset {
    type V = int;

    /// Seconds to add to UTC to get local time.
    closed spec fn view(&self) -> int {
        self.secs as int
    }
}

impl UtcOffset {
    /// Every offset is shorter than a day.
    #[verifier::type_invariant]
    pub open spec fn is_valid(&self) -> bool {
        offset_in_range(self@)
    }

    /// The offset `secs` seconds east of UTC (west where negative), if it is
    /// shorter than a day.
    pub fn east(secs: i32) -> (r: Option<UtcOffset>)
        ensures
            r is Some <==> offset_in_range(secs as int),
            r matches Some(zone) ==> zone@ == secs && zone.is_valid(),
    {
        match chrono_fixed_offset(secs) {
            Some(secs) => Some(UtcOffset { secs }),
            None => None,
        }
    }

    /// The offset of UTC itself.
    pub fn utc() -> (r: UtcOffset)
        ensures
            r@ == 0,
            r.is_valid(),
    {
        UtcOffset { secs: 0 }
    }

    /// Seconds to add to UTC to get local time.
    pub fn seconds(&self) -> (r: i32)
        ensures
            r == self@,
            self.is_valid(),
    {
        proof {
            use_type_invariant(self);
        }
        self.secs
    }
}

/// The reading of a wall clock: hour, minute and second of a civil day.
#[derive(Clone, Copy, Debug, PartialEq, Eq, Structural)]
pub struct TimeOfDay {
    hour: u8,
    minute: u8,
    second: u8,
}

impl TimeOfDay {
    /// Hour of the day.
    pub closed spec fn hour_spec(&self) -> u8 {
        self.hour
    }

    /// Minute of the hour.
    pub closed spec fn minute_spec(&self) -> u8 {
        self.minute
    }

    /// Second of the minute.
    pub closed spec fn second_spec(&self) -> u8 {
        self.second
    }

    /// Every reading has an hour below 24 and minute and second below 60.
    #[verifier::type_invariant]
    pub open spec fn is_valid(&self) -> bool {
        &&& 0 <= self.hour_spec() < 24
        &&& 0 <= self.minute_spec() < 60
        &&& 0 <= self.second_spec() < 60
    }

    /// The reading `hour:minute:second`, if its fields are in range.
    pub fn new(hour: u8, minute: u8, second: u8) -> (r: Option<TimeOfDay>)
        ensures
            r is Some <==> hour < 24 && minute < 60 && second < 60,
            r matches Some(t) ==> {
                &&& t.hour_spec() == hour
                &&& t.minute_spec() == minute
                &&& t.second_spec() == second
                &&& t.is_valid()
            },
    {
        if hour < 24 && minute < 60 && second < 60 {
            Some(TimeOfDay { hour, minute, second })
        } else {
            None
        }
    }

    /// Hour of the day, `0..24`.
    #[verifier::when_used_as_spec(hour_spec)]
    pub fn hour(&self) -> (r: u8)
        ensures
            r == self.hour_spec(),
            r < 24,
    {
        proof {
            use_type_invariant(self);
        }
        self.hour
    }

    /// Minute of the hour, `0..60`.
    #[verifier::when_used_as_spec(minute_spec)]
    pub fn minute(&self) -> (r: u8)
        ensures
            r == self.minute_spec(),
            r < 60,
    {
        proof {
            use_type_invariant(self);
        }
        self.minute
    }

    /// Second of the minute, `0..60`.
    #[verifier::when_used_as_spec(second_spec)]
    pub fn second(&self) -> (r: u8)
        ensures
            r == self.second_spec(),
            r < 60,
    {
        proof {
            use_type_invariant(self);
        }
        self.second
    }
}

/// An instant together with the offset under which it is read.
#[derive(Clone, Copy, Debug, PartialEq, Eq, Structural)]
pub struct LocalTimestamp {
    utc: Timestamp,
    zone: UtcOffset,
}

impl LocalTimestamp {
    /// The instant, on the UTC time line.
    pub closed spec fn utc(&self) -> Timestamp {
        self.utc
    }

    /// The offset under which the instant is read.
    pub closed spec fn zone(&self) -> UtcOffset {
        self.zone
    }

    /// The instant, on the UTC time line.
    pub fn to_utc(&self) -> (r: Timestamp)
        ensures
            r == self.utc(),
            r.is_valid(),
    {
        let utc = self.utc;
        proof {
            use_type_invariant(utc);
        }
        utc
    }

    /// The offset under which the instant is read.
    pub fn offset(&self) -> (r: UtcOffset)
        ensures
            r == self.zone(),
            r.is_valid(),
    {
        let zone = self.zone;
        proof {
            use_type_invariant(zone);
        }
        zone
    }

    /// What a wall clock set to this offset shows at this instant.
    pub fn time(&self) -> (r: TimeOfDay)
        ensures
            r.is_valid(),
            r.hour_spec() == hour_at(self.utc()@, self.zone()@),
            r.minute_spec() == minute_at(self.utc()@, self.zone()@),
            r.second_spec() == second_at(self.utc()@, self.zone()@),
    {
        let utc = self.utc;
        let zone = self.zone;
        proof {
            use_type_invariant(utc);
            use_type_invariant(zone);
        }
        let fields = chrono_local_clock(utc.secs, zone.secs);
        let (hour, minute, second) = fields.unwrap();
        TimeOfDay { hour: hour as u8, minute: minute as u8, second: second as u8 }
    }
}

} // verus!
