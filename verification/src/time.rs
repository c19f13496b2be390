//! Instants of universal time.
//!
//! A request carries a [`Timestamp`], which may be malformed; the library
//! works on [`UtcTime`], whose well-formed values are the instants of the
//! years 1 to 9999 at nanosecond resolution.

use vstd::prelude::*;

verus! {

/// The first second of the year 1, counted from the start of 1970.
pub const MIN_SECONDS: i64 = -62_135_596_800;

/// The last second of the year 9999, counted from the start of 1970.
pub const MAX_SECONDS: i64 = 253_402_300_799;

/// The nanoseconds in a second.
pub const NANOS_PER_SECOND: u32 = 1_000_000_000;

/// The seconds in a day.
pub const SECONDS_PER_DAY: i64 = 86_400;

/// The nanoseconds from the first to the last well-formed instant.
pub const MAX_OFFSET_NANOS: u128 = 315_537_897_599_999_999_999;

/// An instant as requests carry it.
#[derive(Debug, Copy, Clone, PartialEq, Eq)]
pub struct Timestamp {
    /// Whole seconds since the start of 1970.
    pub seconds: i64,
    /// Nanoseconds into that second.
    pub nanos: i32,
}

/// An instant of universal time.
#[derive(Debug, Copy, Clone, PartialEq, Eq)]
pub struct UtcTime {
    /// Whole seconds since the start of 1970.
    pub seconds: i64,
    /// Nanoseconds into that second.
    pub nanos: u32,
}

/// The text that `chrono` shows for the instant `nanos` nanoseconds into the
/// second `seconds`: the date, the time of day, a fraction of the second in
/// three, six or nine digits where there is one, and the letters `UTC`.
pub uninterp spec fn utc_text(seconds: i64, nanos: u32) -> Seq<char>;

impl Timestamp {
    /// Whether this timestamp names an instant of the years 1 to 9999.
    pub open spec fn well_formed(self) -> bool {
        &&& MIN_SECONDS <= self.seconds <= MAX_SECONDS
        &&& 0 <= self.nanos < NANOS_PER_SECOND
    }

    /// The instant that a well-formed timestamp names.
    pub open spec fn instant(self) -> UtcTime {
        UtcTime { seconds: self.seconds, nanos: self.nanos as u32 }
    }
}

impl UtcTime {
    /// Whether this is an instant of the years 1 to 9999.
    pub open spec fn wf(self) -> bool {
        &&& MIN_SECONDS <= self.seconds <= MAX_SECONDS
        &&& self.nanos < NANOS_PER_SECOND
    }

    /// The nanoseconds from the first well-formed instant to this one.
    pub open spec fn offset_nanos(self) -> int {
        (self.seconds - MIN_SECONDS) * NANOS_PER_SECOND + self.nanos
    }

    /// The instant `offset` nanoseconds after the first well-formed one.
    pub open spec fn at_offset(offset: int) -> UtcTime {
        UtcTime {
            seconds: (MIN_SECONDS + offset / (NANOS_PER_SECOND as int)) as i64,
            nanos: (offset % (NANOS_PER_SECOND as int)) as u32,
        }
    }

    /// The timestamp that a response carries for this instant.
    pub open spec fn stamp(self) -> Timestamp {
        Timestamp { seconds: self.seconds, nanos: self.nanos as i32 }
    }

    /// Whether this instant is earlier than `other`.
    pub open spec fn before(self, other: UtcTime) -> bool {
        self.seconds < other.seconds || (self.seconds == other.seconds && self.nanos
            < other.nanos)
    }

    /// This instant moved by `seconds`, where that is well-formed.
    pub open spec fn plus_seconds(self, seconds: int) -> Option<UtcTime> {
        if MIN_SECONDS <= self.seconds + seconds <= MAX_SECONDS {
            Some(UtcTime { seconds: (self.seconds + seconds) as i64, nanos: self.nanos })
        } else {
            None
        }
    }

    /// Converts a timestamp of a request. A malformed one gives `None`.
    pub fn from_timestamp(timestamp: &Timestamp) -> (r: Option<UtcTime>)
        ensures
            timestamp.well_formed() ==> r == Some(timestamp.instant()),
            !timestamp.well_formed() ==> r is None,
            r matches Some(t) ==> t.wf() && t.stamp() == *timestamp,
    {
        if timestamp.seconds < MIN_SECONDS || timestamp.seconds > MAX_SECONDS {
            return None;
        }
        if timestamp.nanos < 0 || timestamp.nanos >= 1_000_000_000 {
            return None;
        }
        Some(UtcTime { seconds: timestamp.seconds, nanos: timestamp.nanos as u32 })
    }

    /// Converts this instant for a response.
    pub fn to_timestamp(&self) -> (timestamp: Timestamp)
        requires
            self.wf(),
        ensures
            timestamp == self.stamp(),
            timestamp.well_formed(),
            timestamp.instant() == *self,
    {
        Timestamp { seconds: self.seconds, nanos: self.nanos as i32 }
    }

    /// Whether this instant is earlier than `other`.
    pub fn is_before(&self, other: &UtcTime) -> (r: bool)
        ensures
            r == self.before(*other),
    {
        self.seconds < other.seconds || (self.seconds == other.seconds && self.nanos
            < other.nanos)
    }

    /// Moves this instant by `seconds`. `None` where the result would leave
    /// the years 1 to 9999.
    pub fn checked_add_seconds(&self, seconds: i64) -> (r: Option<UtcTime>)
        ensures
            r == self.plus_seconds(seconds as int),
    {
        match self.seconds.checked_add(seconds) {
            Some(moved) => {
                if moved < MIN_SECONDS || moved > MAX_SECONDS {
                    None
                } else {
                    Some(UtcTime { seconds: moved, nanos: self.nanos })
                }
            },
            None => None,
        }
    }

    /// The nanoseconds from the first well-formed instant to this one.
    pub fn to_offset_nanos(&self) -> (offset: u128)
        requires
            self.wf(),
        ensures
            offset == self.offset_nanos(),
            offset <= MAX_OFFSET_NANOS,
    {
        let whole: i128 = self.seconds as i128 - MIN_SECONDS as i128;
        (whole as u128) * 1_000_000_000u128 + self.nanos as u128
    }

    /// The instant `offset` nanoseconds after the first well-formed one.
    pub fn from_offset_nanos(offset: u128) -> (t: UtcTime)
        requires
            offset <= MAX_OFFSET_NANOS,
        ensures
            t == UtcTime::at_offset(offset as int),
            t.wf(),
            t.offset_nanos() == offset,
    {
        let whole: u128 = offset / 1_000_000_000u128;
        let part: u128 = offset % 1_000_000_000u128;
        let seconds: i128 = MIN_SECONDS as i128 + whole as i128;
        UtcTime { seconds: seconds as i64, nanos: part as u32 }
    }

    /// Reads the clock.
    ///
    /// Nothing is known of the instant but that its nanoseconds are fewer
    /// than a second's: it may lie outside the years 1 to 9999.
    pub fn now() -> (now: UtcTime)
        ensures
            now.nanos < NANOS_PER_SECOND,
    {
        clock_now()
    }

    /// Renders this instant as `chrono` shows it.
    pub fn to_string(&self) -> (text: String)
        requires
            self.wf(),
        ensures
            text@ == utc_text(self.seconds, self.nanos),
    {
        utc_to_string(self.seconds, self.nanos)
    }
}

/// Whether a timestamp of a request is there and well-formed.
pub open spec fn usable_timestamp(timestamp: Option<Timestamp>) -> bool {
    timestamp matches Some(t) && t.well_formed()
}

/// Converts the timestamp of a request, if it is there and well-formed.
pub fn convert_timestamp(timestamp: Option<Timestamp>) -> (r: Option<UtcTime>)
    ensures
        r is Some <==> usable_timestamp(timestamp),
        r matches Some(instant) ==> instant.wf() && timestamp == Some(instant.stamp())
            && instant == timestamp->0.instant(),
{
    match timestamp {
        Some(stamp) => UtcTime::from_timestamp(&stamp),
        None => None,
    }
}

/// Calls `chrono::Utc::now` and takes the instant apart with
/// `DateTime::timestamp` and `DateTime::timestamp_subsec_nanos`.
///
/// `now` builds the instant from the system clock's whole seconds and its
/// nanoseconds below one second, so the nanoseconds read back are below one
/// second. The call panics where the system clock stands before 1970.
#[verifier::external_body]
fn clock_now() -> (now: UtcTime)
    ensures
        now.nanos < NANOS_PER_SECOND,
{
    let now = chrono::Utc::now();
    UtcTime { seconds: now.timestamp(), nanos: now.timestamp_subsec_nanos() }
}

/// Calls `chrono::DateTime::from_timestamp` and shows the result through its
/// `Display`.
///
/// Within the years 1 to 9999 `from_timestamp` has a result, and the text is
/// a function of the two numbers alone: no time zone or locale enters.
#[verifier::external_body]
fn utc_to_string(seconds: i64, nanos: u32) -> (text: String)
    requires
        MIN_SECONDS <= seconds <= MAX_SECONDS,
        nanos < NANOS_PER_SECOND,
    ensures
        text@ == utc_text(seconds, nanos),
{
    match chrono::DateTime::from_timestamp(seconds, nanos) {
        Some(instant) => instant.to_string(),
        None => String::new(),
    }
}

/// Of two well-formed instants, the earlier is the one with the smaller
/// offset.
pub proof fn lemma_before_is_offset_order(a: UtcTime, b: UtcTime)
    requires
        a.wf(),
        b.wf(),
    ensures
        a.before(b) <==> a.offset_nanos() < b.offset_nanos(),
        a == b <==> a.offset_nanos() == b.offset_nanos(),
{
}

/// An instant is found again from its offset.
pub proof fn lemma_at_offset_inverts(a: UtcTime)
    requires
        a.wf(),
    ensures
        0 <= a.offset_nanos() <= MAX_OFFSET_NANOS,
        UtcTime::at_offset(a.offset_nanos()) == a,
{
}

/// Every offset up to the largest names a well-formed instant.
pub proof fn lemma_at_offset_wf(offset: int)
    requires
        0 <= offset <= MAX_OFFSET_NANOS,
    ensures
        UtcTime::at_offset(offset).wf(),
        UtcTime::at_offset(offset).offset_nanos() == offset,
{
}

} // verus!
