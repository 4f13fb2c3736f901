//! Points in time, as the daemon reports them.

use vstd::prelude::*;

verus! {

/// The first second that `chrono` can represent: the start of the year -262143.
pub const FIRST_SECOND: i64 = -8_334_601_228_800;

/// The last second that `chrono` can represent: the end of the year 262142.
pub const LAST_SECOND: i64 = 8_210_266_876_799;

/// `secs` seconds and `nanos` nanoseconds after the Unix epoch are a point in time that `chrono`
/// can represent. A thousand million nanoseconds or more stand for a leap second, which only the
/// last second of a minute can have.
pub open spec fn representable(secs: int, nanos: int) -> bool {
    &&& FIRST_SECOND <= secs <= LAST_SECOND
    &&& 0 <= nanos < 2_000_000_000
    &&& nanos >= 1_000_000_000 ==> secs % 60 == 59
}

/// A point in time without a time zone, within the range of `chrono`.
#[derive(Clone, Copy, Debug)]
pub struct Timestamp {
    secs: i64,
    nanos: u32,
}

impl Timestamp {
    /// Seconds since the Unix epoch, leap seconds not counted.
    pub closed spec fn secs(self) -> int {
        self.secs as int
    }

    /// Nanoseconds since that second started.
    pub closed spec fn nanos(self) -> int {
        self.nanos as int
    }

    #[verifier::type_invariant]
    closed spec fn in_range(self) -> bool {
        representable(self.secs as int, self.nanos as int)
    }

    /// The point `secs` seconds and `nanos` nanoseconds after the Unix epoch, if `chrono` can
    /// represent it.
    pub fn new(secs: i64, nanos: u32) -> (timestamp: Option<Timestamp>)
        ensures
            timestamp is Some <==> representable(secs as int, nanos as int),
            timestamp matches Some(t) ==> t.secs() == secs && t.nanos() == nanos,
    {
        if secs < FIRST_SECOND || secs > LAST_SECOND || nanos >= 2_000_000_000 {
            return None;
        }
        let second_of_minute: u64 = (secs - FIRST_SECOND) as u64 % 60;
        if nanos >= 1_000_000_000 && second_of_minute != 59 {
            return None;
        }
        Some(Timestamp { secs, nanos })
    }
}

/// The second of the day to which a number of seconds since the Unix epoch belongs.
pub open spec fn second_of_day(secs: int) -> int {
    secs % 86_400
}

/// How many leap seconds count between two points in time, which `chrono` tells by their times of
/// day alone: one if `then` is in a leap second at an earlier time of day than `now`, minus one if
/// `now` is in a leap second at an earlier time of day than `then`.
pub open spec fn leap_seconds_between(now: Timestamp, then: Timestamp) -> int {
    if second_of_day(now.secs()) > second_of_day(then.secs()) && then.nanos() >= 1_000_000_000 {
        1
    } else if second_of_day(now.secs()) < second_of_day(then.secs()) && now.nanos()
        >= 1_000_000_000 {
        -1
    } else {
        0
    }
}

/// The nanoseconds from `then` until `now`.
pub open spec fn nanoseconds_between(now: Timestamp, then: Timestamp) -> int {
    (now.secs() - then.secs() + leap_seconds_between(now, then)) * 1_000_000_000 + now.nanos()
        - then.nanos()
}

/// The whole seconds from `then` until `now`: a fraction of a second is dropped, whether the time
/// runs forwards or backwards.
pub open spec fn whole_seconds_between(now: Timestamp, then: Timestamp) -> int {
    let nanoseconds = nanoseconds_between(now, then);
    if nanoseconds >= 0 {
        nanoseconds / 1_000_000_000
    } else {
        -((-nanoseconds) / 1_000_000_000)
    }
}

/// Subtracts two `chrono::NaiveDateTime`s, made by `chrono::DateTime::from_timestamp`, and takes
/// the `num_seconds` of the difference. The contract says which number that is.
#[verifier::external_body]
fn chrono_seconds_between(now: Timestamp, then: Timestamp) -> (seconds: i64)
    requires
        representable(now.secs(), now.nanos()),
        representable(then.secs(), then.nanos()),
    ensures
        seconds == whole_seconds_between(now, then),
{
    let now = chrono::DateTime::from_timestamp(now.secs, now.nanos).unwrap().naive_utc();
    let then = chrono::DateTime::from_timestamp(then.secs, then.nanos).unwrap().naive_utc();
    (now - then).num_seconds()
}

/// The text that `chrono` prints of a point in time in a `strftime` format.
pub uninterp spec fn chrono_format(secs: int, nanos: int, format: Seq<char>) -> Seq<char>;

/// Prints a `chrono::NaiveDateTime`, made by `chrono::DateTime::from_timestamp`, with its
/// `format`. The contract only claims that the text depends on nothing but the point in time and
/// the format: which text it is takes the whole calendar to say. `chrono` panics on a format that
/// it does not know, so only the one format that the tables use is admitted.
#[verifier::external_body]
fn chrono_text(timestamp: Timestamp, format: &str) -> (text: String)
    requires
        representable(timestamp.secs(), timestamp.nanos()),
        format@ == "%Y-%m-%d %H:%M:%S"@,
    ensures
        text@ == chrono_format(timestamp.secs(), timestamp.nanos(), format@),
{
    let time = chrono::DateTime::from_timestamp(timestamp.secs, timestamp.nanos).unwrap();
    time.naive_utc().format(format).to_string()
}

impl Timestamp {
    /// The text that tables show for a point in time, such as `2020-06-09 14:03:59`.
    pub open spec fn spec_text(self) -> Seq<char> {
        chrono_format(self.secs(), self.nanos(), "%Y-%m-%d %H:%M:%S"@)
    }

    /// The text that tables show for this point in time, such as `2020-06-09 14:03:59`.
    pub fn text(&self) -> (text: String)
        ensures
            text@ == self.spec_text(),
    {
        proof {
            use_type_invariant(self);
        }
        chrono_text(*self, "%Y-%m-%d %H:%M:%S")
    }

    /// The whole seconds from `then` until this point in time.
    pub fn seconds_since(&self, then: &Timestamp) -> (seconds: i64)
        ensures
            seconds == whole_seconds_between(*self, *then),
    {
        proof {
            use_type_invariant(self);
            use_type_invariant(then);
        }
        chrono_seconds_between(*self, *then)
    }
}

} // verus!
