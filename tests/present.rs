use chrono::{DateTime, Duration, Local, TimeZone, Utc};
use chrono_humanize::{Accuracy, HumanTime, Tense, Timestamp};

fn instant<Tz: TimeZone>(dt: &DateTime<Tz>) -> Timestamp {
    Timestamp { secs: dt.timestamp(), nanos: dt.timestamp_subsec_nanos() }
}

#[test]
fn present_now() {
    let ht = HumanTime::from_timestamp(instant(&Utc::now()));
    let rough = ht.to_text_en(Accuracy::Rough, Tense::Present);
    assert_eq!("now", rough);
}

#[test]
fn present_local_now() {
    let ht = HumanTime::from_timestamp(instant(&Local::now()));
    let rough = ht.to_text_en(Accuracy::Rough, Tense::Present);
    assert_eq!("now", rough);
}

#[test]
fn present_minus_35d() {
    let past = Local::now() - Duration::days(35);
    let ht = HumanTime::from_timestamp(instant(&past));
    let rough = ht.to_text_en(Accuracy::Rough, Tense::Present);
    assert_eq!("a month", rough);
}

#[test]
fn present_plus_35d() {
    let future = Local::now() + Duration::days(35);
    let ht = HumanTime::from_timestamp(instant(&future));
    let rough = ht.to_text_en(Accuracy::Rough, Tense::Present);
    assert_eq!("a month", rough);
}

#[test]
fn table_now() {
    let ht = HumanTime::from(Duration::zero());
    let rough = ht.to_text_en(Accuracy::Rough, Tense::Present);
    let precise = ht.to_text_en(Accuracy::Precise, Tense::Present);
    assert_eq!("now", rough);
    assert_eq!("0 seconds", precise);
}

#[test]
fn table_plus_1s() {
    let ht = HumanTime::from(Duration::seconds(1));
    let rough = ht.to_text_en(Accuracy::Rough, Tense::Present);
    let precise = ht.to_text_en(Accuracy::Precise, Tense::Present);
    assert_eq!("now", rough);
    assert_eq!("1 second", precise);
}

#[test]
fn table_minus_1s() {
    let ht = HumanTime::from(Duration::seconds(-1));
    let rough = ht.to_text_en(Accuracy::Rough, Tense::Present);
    let precise = ht.to_text_en(Accuracy::Precise, Tense::Present);
    assert_eq!("now", rough);
    assert_eq!("1 second", precise);
}

#[test]
fn table_plus_5s() {
    let ht = HumanTime::from(Duration::seconds(5));
    let rough = ht.to_text_en(Accuracy::Rough, Tense::Present);
    let precise = ht.to_text_en(Accuracy::Precise, Tense::Present);
    assert_eq!("now", rough);
    assert_eq!("5 seconds", precise);
}

#[test]
fn table_minus_5s() {
    let ht = HumanTime::from(Duration::seconds(-5));
    let rough = ht.to_text_en(Accuracy::Rough, Tense::Present);
    let precise = ht.to_text_en(Accuracy::Precise, Tense::Present);
    assert_eq!("now", rough);
    assert_eq!("5 seconds", precise);
}

#[test]
fn table_plus_15s() {
    let ht = HumanTime::from(Duration::seconds(15));
    let rough = ht.to_text_en(Accuracy::Rough, Tense::Present);
    let precise = ht.to_text_en(Accuracy::Precise, Tense::Present);
    assert_eq!("15 seconds", rough);
    assert_eq!("15 seconds", precise);
}

#[test]
fn table_minus_15s() {
    let ht = HumanTime::from(Duration::seconds(-15));
    let rough = ht.to_text_en(Accuracy::Rough, Tense::Present);
    let precise = ht.to_text_en(Accuracy::Precise, Tense::Present);
    assert_eq!("15 seconds", rough);
    assert_eq!("15 seconds", precise);
}

#[test]
fn table_plus_95s() {
    let ht = HumanTime::from(Duration::seconds(95));
    let rough = ht.to_text_en(Accuracy::Rough, Tense::Present);
    let precise = ht.to_text_en(Accuracy::Precise, Tense::Present);
    assert_eq!("2 minutes", rough);
    assert_eq!("1 minute and 35 seconds", precise);
}

#[test]
fn table_minus_95s() {
    let ht = HumanTime::from(Duration::seconds(-95));
    let rough = ht.to_text_en(Accuracy::Rough, Tense::Present);
    let precise = ht.to_text_en(Accuracy::Precise, Tense::Present);
    assert_eq!("2 minutes", rough);
    assert_eq!("1 minute and 35 seconds", precise);
}

#[test]
fn table_plus_125s() {
    let ht = HumanTime::from(Duration::seconds(125));
    let rough = ht.to_text_en(Accuracy::Rough, Tense::Present);
    let precise = ht.to_text_en(Accuracy::Precise, Tense::Present);
    assert_eq!("2 minutes", rough);
    assert_eq!("2 minutes and 5 seconds", precise);
}

#[test]
fn table_minus_125s() {
    let ht = HumanTime::from(Duration::seconds(-125));
    let rough = ht.to_text_en(Accuracy::Rough, Tense::Present);
    let precise = ht.to_text_en(Accuracy::Precise, Tense::Present);
    assert_eq!("2 minutes", rough);
    assert_eq!("2 minutes and 5 seconds", precise);
}

#[test]
fn table_plus_31m() {
    let ht = HumanTime::from(Duration::minutes(31));
    let rough = ht.to_text_en(Accuracy::Rough, Tense::Present);
    let precise = ht.to_text_en(Accuracy::Precise, Tense::Present);
    assert_eq!("31 minutes", rough);
    assert_eq!("31 minutes", precise);
}

#[test]
fn table_minus_31m() {
    let ht = HumanTime::from(Duration::minutes(-31));
    let rough = ht.to_text_en(Accuracy::Rough, Tense::Present);
    let precise = ht.to_text_en(Accuracy::Precise, Tense::Present);
    assert_eq!("31 minutes", rough);
    assert_eq!("31 minutes", precise);
}

#[test]
fn table_plus_45m() {
    let ht = HumanTime::from(Duration::minutes(45));
    let rough = ht.to_text_en(Accuracy::Rough, Tense::Present);
    let precise = ht.to_text_en(Accuracy::Precise, Tense::Present);
    assert_eq!("45 minutes", rough);
    assert_eq!("45 minutes", precise);
}

#[test]
fn table_minus_45m() {
    let ht = HumanTime::from(Duration::minutes(-45));
    let rough = ht.to_text_en(Accuracy::Rough, Tense::Present);
    let precise = ht.to_text_en(Accuracy::Precise, Tense::Present);
    assert_eq!("45 minutes", rough);
    assert_eq!("45 minutes", precise);
}

#[test]
fn table_plus_46m() {
    let ht = HumanTime::from(Duration::minutes(46));
    let rough = ht.to_text_en(Accuracy::Rough, Tense::Present);
    let precise = ht.to_text_en(Accuracy::Precise, Tense::Present);
    assert_eq!("an hour", rough);
    assert_eq!("46 minutes", precise);
}

#[test]
fn table_minus_46m() {
    let ht = HumanTime::from(Duration::minutes(-46));
    let rough = ht.to_text_en(Accuracy::Rough, Tense::Present);
    let precise = ht.to_text_en(Accuracy::Precise, Tense::Present);
    assert_eq!("an hour", rough);
    assert_eq!("46 minutes", precise);
}

#[test]
fn table_plus_1h() {
    let ht = HumanTime::from(Duration::hours(1));
    let rough = ht.to_text_en(Accuracy::Rough, Tense::Present);
    let precise = ht.to_text_en(Accuracy::Precise, Tense::Present);
    assert_eq!("an hour", rough);
    assert_eq!("1 hour", precise);
}

#[test]
fn table_minus_1h() {
    let ht = HumanTime::from(Duration::hours(-1));
    let rough = ht.to_text_en(Accuracy::Rough, Tense::Present);
    let precise = ht.to_text_en(Accuracy::Precise, Tense::Present);
    assert_eq!("an hour", rough);
    assert_eq!("1 hour", precise);
}

#[test]
fn table_plus_12h() {
    let ht = HumanTime::from(Duration::hours(12));
    let rough = ht.to_text_en(Accuracy::Rough, Tense::Present);
    let precise = ht.to_text_en(Accuracy::Precise, Tense::Present);
    assert_eq!("12 hours", rough);
    assert_eq!("12 hours", precise);
}

#[test]
fn table_minus_12h() {
    let ht = HumanTime::from(Duration::hours(-12));
    let rough = ht.to_text_en(Accuracy::Rough, Tense::Present);
    let precise = ht.to_text_en(Accuracy::Precise, Tense::Present);
    assert_eq!("12 hours", rough);
    assert_eq!("12 hours", precise);
}

#[test]
fn table_plus_23h() {
    let ht = HumanTime::from(Duration::hours(23));
    let rough = ht.to_text_en(Accuracy::Rough, Tense::Present);
    let precise = ht.to_text_en(Accuracy::Precise, Tense::Present);
    assert_eq!("a day", rough);
    assert_eq!("23 hours", precise);
}

#[test]
fn table_minus_23h() {
    let ht = HumanTime::from(Duration::hours(-23));
    let rough = ht.to_text_en(Accuracy::Rough, Tense::Present);
    let precise = ht.to_text_en(Accuracy::Precise, Tense::Present);
    assert_eq!("a day", rough);
    assert_eq!("23 hours", precise);
}

#[test]
fn table_plus_26h() {
    let ht = HumanTime::from(Duration::hours(26));
    let rough = ht.to_text_en(Accuracy::Rough, Tense::Present);
    let precise = ht.to_text_en(Accuracy::Precise, Tense::Present);
    assert_eq!("a day", rough);
    assert_eq!("1 day and 2 hours", precise);
}

#[test]
fn table_minus_26h() {
    let ht = HumanTime::from(Duration::hours(-26));
    let rough = ht.to_text_en(Accuracy::Rough, Tense::Present);
    let precise = ht.to_text_en(Accuracy::Precise, Tense::Present);
    assert_eq!("a day", rough);
    assert_eq!("1 day and 2 hours", precise);
}

#[test]
fn table_plus_1d() {
    let ht = HumanTime::from(Duration::days(1));
    let rough = ht.to_text_en(Accuracy::Rough, Tense::Present);
    let precise = ht.to_text_en(Accuracy::Precise, Tense::Present);
    assert_eq!("a day", rough);
    assert_eq!("1 day", precise);
}

#[test]
fn table_minus_1d() {
    let ht = HumanTime::from(Duration::days(-1));
    let rough = ht.to_text_en(Accuracy::Rough, Tense::Present);
    let precise = ht.to_text_en(Accuracy::Precise, Tense::Present);
    assert_eq!("a day", rough);
    assert_eq!("1 day", precise);
}

#[test]
fn table_plus_2d() {
    let ht = HumanTime::from(Duration::days(2));
    let rough = ht.to_text_en(Accuracy::Rough, Tense::Present);
    let precise = ht.to_text_en(Accuracy::Precise, Tense::Present);
    assert_eq!("2 days", rough);
    assert_eq!("2 days", precise);
}

#[test]
fn table_minus_2d() {
    let ht = HumanTime::from(Duration::days(-2));
    let rough = ht.to_text_en(Accuracy::Rough, Tense::Present);
    let precise = ht.to_text_en(Accuracy::Precise, Tense::Present);
    assert_eq!("2 days", rough);
    assert_eq!("2 days", precise);
}

#[test]
fn table_plus_6d_13h() {
    let ht = HumanTime::from(Duration::days(6) + Duration::hours(13));
    let rough = ht.to_text_en(Accuracy::Rough, Tense::Present);
    let precise = ht.to_text_en(Accuracy::Precise, Tense::Present);
    assert_eq!("a week", rough);
    assert_eq!("6 days and 13 hours", precise);
}

#[test]
fn table_minus_6d_13h() {
    let ht = HumanTime::from(Duration::days(-6) + Duration::hours(-13));
    let rough = ht.to_text_en(Accuracy::Rough, Tense::Present);
    let precise = ht.to_text_en(Accuracy::Precise, Tense::Present);
    assert_eq!("a week", rough);
    assert_eq!("6 days and 13 hours", precise);
}

#[test]
fn table_plus_7d() {
    let ht = HumanTime::from(Duration::days(7));
    let rough = ht.to_text_en(Accuracy::Rough, Tense::Present);
    let precise = ht.to_text_en(Accuracy::Precise, Tense::Present);
    assert_eq!("a week", rough);
    assert_eq!("1 week", precise);
}

#[test]
fn table_minus_7d() {
    let ht = HumanTime::from(Duration::days(-7));
    let rough = ht.to_text_en(Accuracy::Rough, Tense::Present);
    let precise = ht.to_text_en(Accuracy::Precise, Tense::Present);
    assert_eq!("a week", rough);
    assert_eq!("1 week", precise);
}

#[test]
fn table_plus_10d() {
    let ht = HumanTime::from(Duration::days(10));
    let rough = ht.to_text_en(Accuracy::Rough, Tense::Present);
    let precise = ht.to_text_en(Accuracy::Precise, Tense::Present);
    assert_eq!("a week", rough);
    assert_eq!("1 week and 3 days", precise);
}

#[test]
fn table_minus_10d() {
    let ht = HumanTime::from(Duration::days(-10));
    let rough = ht.to_text_en(Accuracy::Rough, Tense::Present);
    let precise = ht.to_text_en(Accuracy::Precise, Tense::Present);
    assert_eq!("a week", rough);
    assert_eq!("1 week and 3 days", precise);
}

#[test]
fn table_plus_11d() {
    let ht = HumanTime::from(Duration::days(11));
    let rough = ht.to_text_en(Accuracy::Rough, Tense::Present);
    let precise = ht.to_text_en(Accuracy::Precise, Tense::Present);
    assert_eq!("2 weeks", rough);
    assert_eq!("1 week and 4 days", precise);
}

#[test]
fn table_minus_11d() {
    let ht = HumanTime::from(Duration::days(-11));
    let rough = ht.to_text_en(Accuracy::Rough, Tense::Present);
    let precise = ht.to_text_en(Accuracy::Precise, Tense::Present);
    assert_eq!("2 weeks", rough);
    assert_eq!("1 week and 4 days", precise);
}

#[test]
fn table_plus_4w() {
    let ht = HumanTime::from(Duration::weeks(4));
    let rough = ht.to_text_en(Accuracy::Rough, Tense::Present);
    let precise = ht.to_text_en(Accuracy::Precise, Tense::Present);
    assert_eq!("4 weeks", rough);
    assert_eq!("4 weeks", precise);
}

#[test]
fn table_minus_4w() {
    let ht = HumanTime::from(Duration::weeks(-4));
    let rough = ht.to_text_en(Accuracy::Rough, Tense::Present);
    let precise = ht.to_text_en(Accuracy::Precise, Tense::Present);
    assert_eq!("4 weeks", rough);
    assert_eq!("4 weeks", precise);
}

#[test]
fn table_plus_30d() {
    let ht = HumanTime::from(Duration::days(30));
    let rough = ht.to_text_en(Accuracy::Rough, Tense::Present);
    let precise = ht.to_text_en(Accuracy::Precise, Tense::Present);
    assert_eq!("a month", rough);
    assert_eq!("1 month", precise);
}

#[test]
fn table_minus_30d() {
    let ht = HumanTime::from(Duration::days(-30));
    let rough = ht.to_text_en(Accuracy::Rough, Tense::Present);
    let precise = ht.to_text_en(Accuracy::Precise, Tense::Present);
    assert_eq!("a month", rough);
    assert_eq!("1 month", precise);
}

#[test]
fn table_plus_45d() {
    let ht = HumanTime::from(Duration::days(45));
    let rough = ht.to_text_en(Accuracy::Rough, Tense::Present);
    let precise = ht.to_text_en(Accuracy::Precise, Tense::Present);
    assert_eq!("a month", rough);
    assert_eq!("1 month, 2 weeks and 1 day", precise);
}

#[test]
fn table_minus_45d() {
    let ht = HumanTime::from(Duration::days(-45));
    let rough = ht.to_text_en(Accuracy::Rough, Tense::Present);
    let precise = ht.to_text_en(Accuracy::Precise, Tense::Present);
    assert_eq!("a month", rough);
    assert_eq!("1 month, 2 weeks and 1 day", precise);
}

#[test]
fn table_plus_46d() {
    let ht = HumanTime::from(Duration::days(46));
    let rough = ht.to_text_en(Accuracy::Rough, Tense::Present);
    let precise = ht.to_text_en(Accuracy::Precise, Tense::Present);
    assert_eq!("2 months", rough);
    assert_eq!("1 month, 2 weeks and 2 days", precise);
}

#[test]
fn table_minus_46d() {
    let ht = HumanTime::from(Duration::days(-46));
    let rough = ht.to_text_en(Accuracy::Rough, Tense::Present);
    let precise = ht.to_text_en(Accuracy::Precise, Tense::Present);
    assert_eq!("2 months", rough);
    assert_eq!("1 month, 2 weeks and 2 days", precise);
}

#[test]
fn table_plus_24w() {
    let ht = HumanTime::from(Duration::weeks(24));
    let rough = ht.to_text_en(Accuracy::Rough, Tense::Present);
    let precise = ht.to_text_en(Accuracy::Precise, Tense::Present);
    assert_eq!("5 months", rough);
    assert_eq!("5 months, 2 weeks and 4 days", precise);
}

#[test]
fn table_minus_24w() {
    let ht = HumanTime::from(Duration::weeks(-24));
    let rough = ht.to_text_en(Accuracy::Rough, Tense::Present);
    let precise = ht.to_text_en(Accuracy::Precise, Tense::Present);
    assert_eq!("5 months", rough);
    assert_eq!("5 months, 2 weeks and 4 days", precise);
}

#[test]
fn table_plus_26w() {
    let ht = HumanTime::from(Duration::weeks(26));
    let rough = ht.to_text_en(Accuracy::Rough, Tense::Present);
    let precise = ht.to_text_en(Accuracy::Precise, Tense::Present);
    assert_eq!("6 months", rough);
    assert_eq!("6 months and 2 days", precise);
}

#[test]
fn table_minus_26w() {
    let ht = HumanTime::from(Duration::weeks(-26));
    let rough = ht.to_text_en(Accuracy::Rough, Tense::Present);
    let precise = ht.to_text_en(Accuracy::Precise, Tense::Present);
    assert_eq!("6 months", rough);
    assert_eq!("6 months and 2 days", precise);
}

#[test]
fn table_plus_50w() {
    let ht = HumanTime::from(Duration::weeks(50));
    let rough = ht.to_text_en(Accuracy::Rough, Tense::Present);
    let precise = ht.to_text_en(Accuracy::Precise, Tense::Present);
    assert_eq!("a year", rough);
    assert_eq!("11 months, 2 weeks and 6 days", precise);
}

#[test]
fn table_minus_50w() {
    let ht = HumanTime::from(Duration::weeks(-50));
    let rough = ht.to_text_en(Accuracy::Rough, Tense::Present);
    let precise = ht.to_text_en(Accuracy::Precise, Tense::Present);
    assert_eq!("a year", rough);
    assert_eq!("11 months, 2 weeks and 6 days", precise);
}

#[test]
fn table_plus_100w() {
    let ht = HumanTime::from(Duration::weeks(100));
    let rough = ht.to_text_en(Accuracy::Rough, Tense::Present);
    let precise = ht.to_text_en(Accuracy::Precise, Tense::Present);
    assert_eq!("2 years", rough);
    assert_eq!("1 year, 11 months and 5 days", precise);
}

#[test]
fn table_minus_100w() {
    let ht = HumanTime::from(Duration::weeks(-100));
    let rough = ht.to_text_en(Accuracy::Rough, Tense::Present);
    let precise = ht.to_text_en(Accuracy::Precise, Tense::Present);
    assert_eq!("2 years", rough);
    assert_eq!("1 year, 11 months and 5 days", precise);
}

#[test]
fn table_plus_101w() {
    let ht = HumanTime::from(Duration::weeks(101));
    let rough = ht.to_text_en(Accuracy::Rough, Tense::Present);
    let precise = ht.to_text_en(Accuracy::Precise, Tense::Present);
    assert_eq!("2 years", rough);
    assert_eq!("1 year, 11 months, 1 week and 5 days", precise);
}

#[test]
fn table_minus_101w() {
    let ht = HumanTime::from(Duration::weeks(-101));
    let rough = ht.to_text_en(Accuracy::Rough, Tense::Present);
    let precise = ht.to_text_en(Accuracy::Precise, Tense::Present);
    assert_eq!("2 years", rough);
    assert_eq!("1 year, 11 months, 1 week and 5 days", precise);
}

#[test]
fn table_plus_120w() {
    let ht = HumanTime::from(Duration::weeks(120));
    let rough = ht.to_text_en(Accuracy::Rough, Tense::Present);
    let precise = ht.to_text_en(Accuracy::Precise, Tense::Present);
    assert_eq!("2 years", rough);
    assert_eq!("2 years, 3 months, 2 weeks and 6 days", precise);
}

#[test]
fn table_minus_120w() {
    let ht = HumanTime::from(Duration::weeks(-120));
    let rough = ht.to_text_en(Accuracy::Rough, Tense::Present);
    let precise = ht.to_text_en(Accuracy::Precise, Tense::Present);
    assert_eq!("2 years", rough);
    assert_eq!("2 years, 3 months, 2 weeks and 6 days", precise);
}

#[test]
fn table_plus_200w() {
    let ht = HumanTime::from(Duration::weeks(200));
    let rough = ht.to_text_en(Accuracy::Rough, Tense::Present);
    let precise = ht.to_text_en(Accuracy::Precise, Tense::Present);
    assert_eq!("3 years", rough);
    assert_eq!("3 years, 10 months and 5 days", precise);
}

#[test]
fn table_minus_200w() {
    let ht = HumanTime::from(Duration::weeks(-200));
    let rough = ht.to_text_en(Accuracy::Rough, Tense::Present);
    let precise = ht.to_text_en(Accuracy::Precise, Tense::Present);
    assert_eq!("3 years", rough);
    assert_eq!("3 years, 10 months and 5 days", precise);
}
