use canteen::calendar::{
    Timestamp, Weekday, MAX_DAY, MAX_SECONDS, MIN_DAY, MIN_SECONDS, NANOS_PER_SECOND,
    SECONDS_PER_DAY, SECONDS_PER_WEEK,
};
use canteen::text::{bytes_not_after, decimal, natural, text_not_after};

fn at(seconds: i64) -> Timestamp {
    Timestamp::new(seconds, 0).unwrap()
}

#[test]
fn timestamp_keeps_what_it_was_made_of() {
    let t = Timestamp::new(1_704_103_200, 123_456_789).unwrap();
    assert_eq!(t.seconds(), 1_704_103_200);
    assert_eq!(t.nanos(), 123_456_789);
}

#[test]
fn timestamp_has_a_first_and_a_last_second() {
    assert!(Timestamp::new(MIN_SECONDS, 0).is_some());
    assert!(Timestamp::new(MIN_SECONDS - 1, 0).is_none());
    assert!(Timestamp::new(MAX_SECONDS, NANOS_PER_SECOND - 1).is_some());
    assert!(Timestamp::new(MAX_SECONDS + 1, 0).is_none());
    assert!(Timestamp::new(0, NANOS_PER_SECOND).is_none());
    assert!(Timestamp::new(i64::MIN, 0).is_none());
    assert!(Timestamp::new(i64::MAX, 0).is_none());
    assert_eq!(SECONDS_PER_DAY, 86_400);
    assert_eq!(SECONDS_PER_WEEK, 7 * 86_400);
}

#[test]
fn day_counts_from_the_first_of_january_1970() {
    assert_eq!(at(0).day(), 0);
    assert_eq!(at(86_399).day(), 0);
    assert_eq!(at(86_400).day(), 1);
    assert_eq!(at(-1).day(), -1);
    assert_eq!(at(-86_400).day(), -1);
    assert_eq!(at(-86_401).day(), -2);
    assert_eq!(at(1_704_103_200).day(), 19_723);
    assert_eq!(at(MIN_SECONDS).day(), MIN_DAY);
    assert_eq!(at(MAX_SECONDS).day(), MAX_DAY);
}

#[test]
fn date_is_written_year_first() {
    assert_eq!(at(0).date_text(), "1970-01-01");
    assert_eq!(at(-1).date_text(), "1969-12-31");
    assert_eq!(at(1_704_103_200).date_text(), "2024-01-01");
    assert_eq!(at(1_704_121_200).date_text(), "2024-01-01");
    assert_eq!(at(1_709_164_800).date_text(), "2024-02-29");
    assert_eq!(at(951_782_400).date_text(), "2000-02-29");
}

#[test]
fn date_of_the_first_and_the_last_day_is_written() {
    assert_eq!(at(MIN_SECONDS).date_text(), "-262143-01-01");
    assert_eq!(at(MAX_SECONDS).date_text(), "+262142-12-31");
    assert_eq!(
        chrono::NaiveDate::from_epoch_days(MIN_DAY),
        Some(chrono::NaiveDate::MIN)
    );
    assert_eq!(
        chrono::NaiveDate::from_epoch_days(MAX_DAY),
        Some(chrono::NaiveDate::MAX)
    );
    assert_eq!(chrono::NaiveDate::from_epoch_days(MIN_DAY - 1), None);
    assert_eq!(chrono::NaiveDate::from_epoch_days(MAX_DAY + 1), None);
}

#[test]
fn day_and_date_agree_with_chrono() {
    for seconds in [-8_000_000_000_i64, -86_401, -1, 0, 1, 1_704_103_200, 253_402_300_800, 8_000_000_000_000] {
        let theirs = chrono::DateTime::from_timestamp(seconds, 0).unwrap().naive_utc();
        let ours = at(seconds);
        assert_eq!(ours.day(), theirs.date().to_epoch_days());
        assert_eq!(ours.date_text(), theirs.date().format("%Y-%m-%d").to_string());
        assert_eq!(ours.weekday().name(), theirs.format("%A").to_string());
    }
}

#[test]
fn weekday_of_known_days() {
    assert_eq!(at(0).weekday(), Weekday::Thursday);
    assert_eq!(at(-1).weekday(), Weekday::Wednesday);
    assert_eq!(at(1_704_103_200).weekday(), Weekday::Monday);
    assert_eq!(at(1_704_103_200 + 86_400).weekday(), Weekday::Tuesday);
    assert_eq!(at(1_704_103_200 + 4 * 86_400).weekday(), Weekday::Friday);
    assert_eq!(at(1_704_103_200 + 5 * 86_400).weekday(), Weekday::Saturday);
    assert_eq!(at(1_704_103_200 + 6 * 86_400).weekday(), Weekday::Sunday);
    assert_eq!(at(1_704_103_200 + 7 * 86_400).weekday(), Weekday::Monday);
}

#[test]
fn weekday_has_its_english_name() {
    assert_eq!(Weekday::Monday.name(), "Monday");
    assert_eq!(Weekday::Tuesday.name(), "Tuesday");
    assert_eq!(Weekday::Wednesday.name(), "Wednesday");
    assert_eq!(Weekday::Thursday.name(), "Thursday");
    assert_eq!(Weekday::Friday.name(), "Friday");
    assert_eq!(Weekday::Saturday.name(), "Saturday");
    assert_eq!(Weekday::Sunday.name(), "Sunday");
}

#[test]
fn week_before_includes_both_ends() {
    let now = Timestamp::new(1_704_103_200, 500).unwrap();
    let week = 7 * 86_400;
    assert!(now.within_week_before(&now));
    assert!(now.within_week_before(&Timestamp::new(1_704_103_200 - week, 500).unwrap()));
    assert!(!now.within_week_before(&Timestamp::new(1_704_103_200 - week, 499).unwrap()));
    assert!(now.within_week_before(&Timestamp::new(1_704_103_200 - week, 501).unwrap()));
    assert!(!now.within_week_before(&Timestamp::new(1_704_103_200 - 8 * 86_400, 500).unwrap()));
    assert!(!now.within_week_before(&Timestamp::new(1_704_103_200, 501).unwrap()));
    assert!(!now.within_week_before(&at(1_704_103_201)));
    assert!(now.within_week_before(&at(1_704_103_200)));
    let first = at(MIN_SECONDS);
    assert!(first.within_week_before(&first));
    assert!(!first.within_week_before(&at(MIN_SECONDS + 1)));
}

#[test]
fn not_before_orders_by_second_and_then_by_nanosecond() {
    let a = Timestamp::new(10, 5).unwrap();
    let b = Timestamp::new(10, 6).unwrap();
    let c = Timestamp::new(11, 0).unwrap();
    assert!(a.not_before(&a));
    assert!(b.not_before(&a));
    assert!(!a.not_before(&b));
    assert!(c.not_before(&b));
    assert!(!b.not_before(&c));
}

#[test]
fn texts_are_ordered_as_str_orders_them() {
    let samples = ["", "a", "ab", "b", "B", "2024-01-01", "2024-01-02", "+262142-12-31", "-0001-01-01", "é", "zz", "z"];
    for a in samples {
        for b in samples {
            assert_eq!(text_not_after(a, b), a <= b);
            assert_eq!(bytes_not_after(a.as_bytes(), b.as_bytes()), a.as_bytes() <= b.as_bytes());
        }
    }
    assert!(text_not_after("2023-12-31", "2024-01-01"));
    assert!(!text_not_after("2024-01-01", "2023-12-31"));
    assert!(text_not_after("", ""));
    assert!(text_not_after("a", "ab"));
    assert!(!text_not_after("ab", "a"));
}

#[test]
fn numbers_are_written_in_base_ten() {
    assert_eq!(decimal(0), "0");
    assert_eq!(decimal(7), "7");
    assert_eq!(decimal(10), "10");
    assert_eq!(decimal(-5), "-5");
    assert_eq!(decimal(1_000), "1000");
    assert_eq!(decimal(i32::MAX), "2147483647");
    assert_eq!(decimal(i32::MIN), "-2147483648");
    assert_eq!(natural(0), "0");
    assert_eq!(natural(u64::MAX), "18446744073709551615");
    assert_eq!(natural(1_234_567_890), "1234567890");
    for d in 0..10u64 {
        assert_eq!(natural(d), d.to_string());
    }
    for n in [-1001, -100, -99, -10, -9, -1, 0, 1, 9, 10, 11, 99, 100, 101, 65_536] {
        assert_eq!(decimal(n), n.to_string());
    }
}
