//! Points in time as the reports read them: the calendar day, the day of
//! the week and the distance between two of them.

use vstd::prelude::*;

verus! {

/// The first second that a `Timestamp` can hold, counted from the start of
/// 1 January 1970: the start of 1 January of the year -262143.
pub const MIN_SECONDS: i64 = -8_334_601_228_800;

/// The last second that a `Timestamp` can hold: the end of 31 December of
/// the year 262142.
pub const MAX_SECONDS: i64 = 8_210_266_876_799;

/// The calendar day of `MIN_SECONDS`, counted from 1 January 1970.
pub const MIN_DAY: i32 = -96_465_292;

/// The calendar day of `MAX_SECONDS`, counted from 1 January 1970.
pub const MAX_DAY: i32 = 95_026_236;

pub const SECONDS_PER_DAY: i64 = 86_400;

pub const SECONDS_PER_WEEK: i64 = 604_800;

pub const NANOS_PER_SECOND: u32 = 1_000_000_000;

/// The text of a calendar day, counted from 1 January 1970, as chrono
/// writes it for the pattern `%Y-%m-%d`.
pub uninterp spec fn day_text(day: int) -> Seq<char>;

/// chrono's `NaiveDate::from_epoch_days` followed by `NaiveDate::format`
/// with the pattern `%Y-%m-%d`. chrono knows the days from 1 January of
/// the year -262143 to 31 December of the year 262142, which are
/// `MIN_DAY` and `MAX_DAY`; the text is a function of the day alone.
#[verifier::external_body]
fn format_day(day: i32) -> (text: String)
    requires
        MIN_DAY <= day <= MAX_DAY,
    ensures
        text@ == day_text(day as int),
{
    match chrono::NaiveDate::from_epoch_days(day) {
        Some(date) => date.format("%Y-%m-%d").to_string(),
        None => String::new(),
    }
}

/// A date and time of day without a time zone.
#[derive(Debug, Clone, Copy, PartialEq, Eq, Structural)]
pub struct Timestamp {
    seconds: i64,
    nanos: u32,
}

/// A day of the week.
#[derive(Debug, Clone, Copy, PartialEq, Eq, Structural)]
pub enum Weekday {
    Monday,
    Tuesday,
    Wednesday,
    Thursday,
    Friday,
    Saturday,
    Sunday,
}

/// The day of the week of a calendar day counted from 1 January 1970,
/// which was a Thursday.
pub open spec fn weekday_of(day: int) -> Weekday {
    let r = (day + 3) % 7;
    if r == 0 {
        Weekday::Monday
    } else if r == 1 {
        Weekday::Tuesday
    } else if r == 2 {
        Weekday::Wednesday
    } else if r == 3 {
        Weekday::Thursday
    } else if r == 4 {
        Weekday::Friday
    } else if r == 5 {
        Weekday::Saturday
    } else {
        Weekday::Sunday
    }
}

impl Weekday {
    /// The English name of the day.
    pub open spec fn name_text(self) -> Seq<char> {
        match self {
            Weekday::Monday => "Monday"@,
            Weekday::Tuesday => "Tuesday"@,
            Weekday::Wednesday => "Wednesday"@,
            Weekday::Thursday => "Thursday"@,
            Weekday::Friday => "Friday"@,
            Weekday::Saturday => "Saturday"@,
            Weekday::Sunday => "Sunday"@,
        }
    }

    /// The English name of the day.
    pub fn name(&self) -> (text: String)
        ensures
            text@ == self.name_text(),
    {
        match self {
            Weekday::Monday => "Monday".to_string(),
            Weekday::Tuesday => "Tuesday".to_string(),
            Weekday::Wednesday => "Wednesday".to_string(),
            Weekday::Thursday => "Thursday".to_string(),
            Weekday::Friday => "Friday".to_string(),
            Weekday::Saturday => "Saturday".to_string(),
            Weekday::Sunday => "Sunday".to_string(),
        }
    }
}

/// A time that lies exactly seven days before another is in the week
/// before it, and one that lies eight days before it is not.
pub proof fn lemma_week_has_seven_days(now: Timestamp, other: Timestamp)
    ensures
        other.instant() == now.instant() - 7 * 86_400 * 1_000_000_000
            ==> now.covers_week_before(other),
        other.instant() == now.instant() - 8 * 86_400 * 1_000_000_000
            ==> !now.covers_week_before(other),
        now.covers_week_before(now),
{
}

impl Timestamp {
    #[verifier::type_invariant]
    spec fn in_range(self) -> bool {
        MIN_SECONDS <= self.seconds <= MAX_SECONDS && self.nanos < NANOS_PER_SECOND
    }

    /// The whole seconds since the start of 1 January 1970.
    pub closed spec fn seconds_since_epoch(self) -> int {
        self.seconds as int
    }

    /// The part of a second after `seconds_since_epoch`, in nanoseconds.
    pub closed spec fn subsecond_nanos(self) -> int {
        self.nanos as int
    }

    /// The nanoseconds since the start of 1 January 1970.
    pub open spec fn instant(self) -> int {
        self.seconds_since_epoch() * 1_000_000_000 + self.subsecond_nanos()
    }

    /// The calendar day, counted from 1 January 1970.
    pub open spec fn day_number(self) -> int {
        self.seconds_since_epoch() / 86_400
    }

    /// `other` is at most seven days before `self`, and not after it.
    pub open spec fn covers_week_before(self, other: Timestamp) -> bool {
        self.instant() - 604_800 * 1_000_000_000 <= other.instant() <= self.instant()
    }

    /// The point in time `seconds` and `nanos` after the start of
    /// 1 January 1970, where `seconds` lies between `MIN_SECONDS` and
    /// `MAX_SECONDS` and `nanos` is less than a second.
    pub fn new(seconds: i64, nanos: u32) -> (made: Option<Timestamp>)
        ensures
            made is Some <==> MIN_SECONDS <= seconds <= MAX_SECONDS && nanos < NANOS_PER_SECOND,
            made is Some ==> made->0.seconds_since_epoch() == seconds
                && made->0.subsecond_nanos() == nanos,
    {
        if MIN_SECONDS <= seconds && seconds <= MAX_SECONDS && nanos < NANOS_PER_SECOND {
            Some(Timestamp { seconds, nanos })
        } else {
            None
        }
    }

    pub fn seconds(&self) -> (s: i64)
        ensures
            s == self.seconds_since_epoch(),
            MIN_SECONDS <= s <= MAX_SECONDS,
    {
        proof {
            use_type_invariant(self);
        }
        self.seconds
    }

    pub fn nanos(&self) -> (n: u32)
        ensures
            n == self.subsecond_nanos(),
            n < NANOS_PER_SECOND,
    {
        proof {
            use_type_invariant(self);
        }
        self.nanos
    }

    /// The calendar day, counted from 1 January 1970.
    pub fn day(&self) -> (d: i32)
        ensures
            d == self.day_number(),
            MIN_DAY <= d <= MAX_DAY,
    {
        let s = self.seconds();
        if s >= 0 {
            (s / SECONDS_PER_DAY) as i32
        } else {
            let back: i64 = (-(s + 1)) / SECONDS_PER_DAY;
            (-back - 1) as i32
        }
    }

    /// The calendar day as text, year first.
    pub fn date_text(&self) -> (text: String)
        ensures
            text@ == day_text(self.day_number()),
    {
        format_day(self.day())
    }

    /// The day of the week.
    pub fn weekday(&self) -> (w: Weekday)
        ensures
            w == weekday_of(self.day_number()),
    {
        let d: i32 = self.day();
        let r: i32 = (d - MIN_DAY + 3) % 7;
        if r == 0 {
            Weekday::Monday
        } else if r == 1 {
            Weekday::Tuesday
        } else if r == 2 {
            Weekday::Wednesday
        } else if r == 3 {
            Weekday::Thursday
        } else if r == 4 {
            Weekday::Friday
        } else if r == 5 {
            Weekday::Saturday
        } else {
            Weekday::Sunday
        }
    }

    /// Whether `other` is not after `self`.
    pub fn not_before(&self, other: &Timestamp) -> (r: bool)
        ensures
            r == (other.instant() <= self.instant()),
    {
        let a = self.seconds();
        let b = other.seconds();
        let an = self.nanos();
        let bn = other.nanos();
        b < a || (b == a && bn <= an)
    }

    /// Whether `other` lies in the seven days that end at `self`, both
    /// ends included.
    pub fn within_week_before(&self, other: &Timestamp) -> (r: bool)
        ensures
            r == self.covers_week_before(*other),
    {
        let a = self.seconds();
        let b = other.seconds();
        let an = self.nanos();
        let bn = other.nanos();
        let start: i64 = a - SECONDS_PER_WEEK;
        let after_start = start < b || (start == b && an <= bn);
        let before_end = b < a || (b == a && bn <= an);
        after_start && before_end
    }
}

} // verus!
