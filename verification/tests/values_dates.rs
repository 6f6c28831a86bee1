use birthday_greetings::date::{Clock, Date, FixedClock, SystemClock};
use birthday_greetings::values::{
    BirthDate, BirthDateValidationError, Email, EmailValidationError, NonEmptyString,
    NonEmptyStringValidationError,
};

#[test]
fn nonempty_round_trips_its_input() {
    let t = NonEmptyString::new("hello".to_string()).unwrap();
    assert_eq!(t.as_str(), "hello");
    let one = NonEmptyString::new("x".to_string()).unwrap();
    assert_eq!(one.as_str(), "x");
}

#[test]
fn nonempty_rejects_the_empty_string() {
    let r = NonEmptyString::new(String::new());
    assert_eq!(r.unwrap_err(), NonEmptyStringValidationError::EmptyValue);
}

#[test]
fn email_round_trips_its_input() {
    let e = Email::new("bob@x.com".to_string()).unwrap();
    assert_eq!(e.as_str(), "bob@x.com");
}

#[test]
fn email_rejects_the_empty_string() {
    let r = Email::new(String::new());
    assert_eq!(r.unwrap_err(), EmailValidationError::InvalidFormat);
}

#[test]
fn birth_date_rejects_only_future_dates() {
    let today = Date { year: 2020, month: 6, day: 15 };

    let tomorrow = Date { year: 2020, month: 6, day: 16 };
    assert_eq!(
        BirthDate::new(tomorrow, today).unwrap_err(),
        BirthDateValidationError::FutureDate
    );
    let next_month = Date { year: 2020, month: 7, day: 1 };
    assert!(BirthDate::new(next_month, today).is_err());
    let next_year = Date { year: 2021, month: 1, day: 1 };
    assert!(BirthDate::new(next_year, today).is_err());

    let same_day = BirthDate::new(today, today).unwrap();
    assert_eq!(same_day.date(), today);
    let earlier = Date { year: 1990, month: 7, day: 8 };
    assert_eq!(BirthDate::new(earlier, today).unwrap().date(), earlier);
}

#[test]
fn birth_date_validates_against_the_injected_clock() {
    let clock = FixedClock { today: Date { year: 2020, month: 6, day: 15 } };
    let past = Date { year: 2014, month: 7, day: 8 };
    assert_eq!(
        BirthDate::new_from_clock(past, &clock).unwrap().date(),
        past
    );
    let future = Date { year: 2021, month: 1, day: 1 };
    assert_eq!(
        BirthDate::new_from_clock(future, &clock).unwrap_err(),
        BirthDateValidationError::FutureDate
    );
    assert!(BirthDate::new_from_clock(past, &SystemClock).is_ok());
}

#[test]
fn date_validity_follows_the_calendar() {
    assert!(Date { year: 2020, month: 2, day: 29 }.is_valid());
    assert!(!Date { year: 2019, month: 2, day: 29 }.is_valid());
    assert!(Date { year: 2000, month: 2, day: 29 }.is_valid());
    assert!(!Date { year: 1900, month: 2, day: 29 }.is_valid());
    assert!(!Date { year: 2020, month: 13, day: 1 }.is_valid());
    assert!(!Date { year: 2020, month: 4, day: 31 }.is_valid());
    assert!(!Date { year: 2020, month: 1, day: 0 }.is_valid());
    assert!(Date { year: 2020, month: 12, day: 31 }.is_valid());
}

#[test]
fn date_order_is_chronological() {
    let a = Date { year: 2019, month: 12, day: 31 };
    let b = Date { year: 2020, month: 1, day: 1 };
    assert!(a.is_on_or_before(&b));
    assert!(!b.is_on_or_before(&a));
    assert!(a.is_on_or_before(&a));
    let c = Date { year: 2020, month: 1, day: 2 };
    assert!(b.is_on_or_before(&c));
}

#[test]
fn fixed_clock_reports_its_pinned_date() {
    let today = Date { year: 2014, month: 7, day: 8 };
    let clock = FixedClock { today };
    assert_eq!(clock.now(), today);
}

#[test]
fn system_clock_reports_a_real_date() {
    let d = SystemClock.now();
    assert!(d.is_valid());
    assert!(d.year >= 2020);
}
