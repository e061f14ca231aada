use vstd::prelude::*;

verus! {

/// First second of the calendar: the start of the year -262143.
pub const MIN_SECONDS: i64 = -8_334_601_228_800;

/// Last second of the calendar: the end of the year 262142.
pub const MAX_SECONDS: i64 = 8_210_266_876_799;

/// A point in time, in UTC.
#[derive(Clone, Copy, Debug, PartialEq, Eq, Structural)]
pub struct UtcTime {
    seconds: i64,
    nanos: u32,
}

impl View for UtcTime {
    type V = int;

    /// Nanoseconds since the start of 1970.
    closed spec fn view(&self) -> int {
        self.seconds * 1_000_000_000 + self.nanos
    }
}

/// The earliest and the latest time, in nanoseconds since the start of 1970.
pub open spec fn in_calendar(nanos: int) -> bool {
    MIN_SECONDS * 1_000_000_000 <= nanos < (MAX_SECONDS + 1) * 1_000_000_000
}

/// Whether a number of milliseconds since the start of 1970 is within the calendar.
pub open spec fn millis_in_calendar(ms: int) -> bool {
    in_calendar(ms * 1_000_000)
}

/// Two times are the same when they are the same number of nanoseconds.
pub proof fn time_ext(a: UtcTime, b: UtcTime)
    requires
        a.inv(),
        b.inv(),
        a@ == b@,
    ensures
        a == b,
{
}

/// Calls `chrono::Utc::now`. Of the clock nothing is known but that it reads a time of the
/// calendar not before 1970.
#[verifier::external_body]
fn outside_now() -> (r: (i64, u32))
    ensures
        0 <= r.0 <= MAX_SECONDS,
        r.1 < 1_000_000_000,
{
    let now = chrono::Utc::now();
    (now.timestamp(), now.timestamp_subsec_nanos())
}

/// Calls `timestamp_millis_opt` on `chrono::Utc`: a number of milliseconds within the calendar
/// becomes the whole seconds, rounded down, and the nanoseconds that are left; any other gives
/// nothing.
#[verifier::external_body]
fn outside_from_millis(ms: i64) -> (r: Option<(i64, u32)>)
    ensures
        r is Some <==> millis_in_calendar(ms as int),
        r matches Some(t) ==> t.0 == ms as int / 1000 && t.1 == ms as int % 1000 * 1_000_000,
{
    match chrono::TimeZone::timestamp_millis_opt(&chrono::Utc, ms).single() {
        Some(t) => Some((t.timestamp(), t.timestamp_subsec_nanos())),
        None => None,
    }
}

/// Calls `timestamp_opt` on `chrono::Utc` with no nanoseconds: a number of seconds within the
/// calendar is taken as it is; any other gives nothing.
#[verifier::external_body]
fn outside_from_seconds(seconds: i64) -> (r: Option<i64>)
    ensures
        r == (if MIN_SECONDS <= seconds <= MAX_SECONDS { Some(seconds) } else { None }),
{
    match chrono::TimeZone::timestamp_opt(&chrono::Utc, seconds, 0).single() {
        Some(t) => Some(t.timestamp()),
        None => None,
    }
}

/// What `chrono` writes for the time so many nanoseconds after the start of 1970.
pub uninterp spec fn time_text(nanos: int) -> Seq<char>;

/// Calls `Display` of `chrono::DateTime<chrono::Utc>`. How the time is written is left to the
/// name.
#[verifier::external_body]
fn outside_display(t: UtcTime) -> (r: String)
    requires
        in_calendar(t@),
    ensures
        r@ == time_text(t@),
{
    chrono::DateTime::from_timestamp(t.seconds, t.nanos).unwrap_or_default().to_string()
}

impl UtcTime {
    #[verifier::type_invariant]
    pub closed spec fn inv(self) -> bool {
        &&& MIN_SECONDS <= self.seconds <= MAX_SECONDS
        &&& self.nanos < 1_000_000_000
    }

    /// The time that the clock shows.
    pub fn now() -> (r: UtcTime)
        ensures
            in_calendar(r@),
            r@ >= 0,
    {
        let (seconds, nanos) = outside_now();
        UtcTime { seconds, nanos }
    }

    /// The time so many milliseconds after the start of 1970, if the calendar reaches that far.
    pub fn from_millis(ms: i64) -> (r: Option<UtcTime>)
        ensures
            r is Some <==> millis_in_calendar(ms as int),
            r matches Some(t) ==> t@ == ms * 1_000_000,
    {
        match outside_from_millis(ms) {
            Some((seconds, nanos)) => Some(UtcTime { seconds, nanos }),
            None => None,
        }
    }

    /// The time so many seconds after the start of 1970, if the calendar reaches that far.
    pub fn from_seconds(seconds: i64) -> (r: Option<UtcTime>)
        ensures
            r is Some <==> in_calendar(seconds * 1_000_000_000),
            r matches Some(t) ==> t@ == seconds * 1_000_000_000,
    {
        match outside_from_seconds(seconds) {
            Some(seconds) => Some(UtcTime { seconds, nanos: 0 }),
            None => None,
        }
    }

    /// The time so many seconds and nanoseconds after the start of 1970, if there is such a time.
    pub fn from_parts(seconds: i64, nanos: u32) -> (r: Option<UtcTime>)
        ensures
            r is Some <==> in_calendar(seconds * 1_000_000_000) && nanos < 1_000_000_000,
            r matches Some(t) ==> t@ == seconds * 1_000_000_000 + nanos,
    {
        if MIN_SECONDS <= seconds && seconds <= MAX_SECONDS && nanos < 1_000_000_000 {
            Some(UtcTime { seconds, nanos })
        } else {
            None
        }
    }

    /// Whole seconds since the start of 1970, rounded down, and the nanoseconds that are left.
    pub fn parts(&self) -> (r: (i64, u32))
        ensures
            r.0 == self@ / 1_000_000_000,
            r.1 == self@ % 1_000_000_000,
    {
        proof {
            use_type_invariant(self);
        }
        (self.seconds, self.nanos)
    }

    /// Whole milliseconds since the start of 1970, rounded down.
    pub fn timestamp_millis(&self) -> (r: i64)
        ensures
            r == self@ / 1_000_000,
    {
        proof {
            use_type_invariant(self);
        }
        self.seconds * 1000 + (self.nanos / 1_000_000) as i64
    }

    /// The time in writing.
    pub fn to_string(&self) -> (r: String)
        ensures
            r@ == time_text(self@),
    {
        proof {
            use_type_invariant(self);
        }
        outside_display(*self)
    }

    /// Nanoseconds from an earlier time to this one; negative where the other is the later one.
    pub fn nanos_since(&self, earlier: &UtcTime) -> (r: i128)
        ensures
            r == self@ - earlier@,
    {
        proof {
            use_type_invariant(self);
            use_type_invariant(earlier);
        }
        (self.seconds as i128 - earlier.seconds as i128) * 1_000_000_000 + (self.nanos as i128 - earlier.nanos as i128)
    }
}

} // verus!
