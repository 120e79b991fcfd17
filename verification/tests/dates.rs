use ical_items::datetime::DateTime;
use ical_items::normalize::normalize_datetime;

fn dt(year: u16, month: u8, day: u8, hour: u8, minute: u8, second: u8) -> DateTime {
    DateTime::new(year, month, day, hour, minute, second).unwrap()
}

#[test]
fn test_bare_value_read_as_utc() {
    assert_eq!(
        normalize_datetime("20210402T081557", None),
        Some(dt(2021, 4, 2, 8, 15, 57))
    );
}

#[test]
fn test_utc_suffixed_value_reads_the_same() {
    assert_eq!(
        normalize_datetime("20210402T081557Z", None),
        Some(dt(2021, 4, 2, 8, 15, 57))
    );
}

#[test]
fn test_utc_suffix_wins_over_zone() {
    // With a trailing Z the zone name is never consulted.
    let zone = String::from("Europe/Paris");
    assert_eq!(
        normalize_datetime("20210402T081557Z", Some(&zone)),
        Some(dt(2021, 4, 2, 8, 15, 57))
    );
}

#[test]
fn test_zone_applied_to_bare_value() {
    // 08:15 in Paris on 2021-04-02 is 06:15 UTC (summer time).
    let zone = String::from("Europe/Paris");
    assert_eq!(
        normalize_datetime("20210402T081557", Some(&zone)),
        Some(dt(2021, 4, 2, 6, 15, 57))
    );
}

#[test]
fn test_unknown_zone_reads_bare_value_as_utc() {
    let zone = String::from("Not/AZone");
    assert_eq!(
        normalize_datetime("20210402T081557", Some(&zone)),
        Some(dt(2021, 4, 2, 8, 15, 57))
    );
}

#[test]
fn test_malformed_values_are_rejected() {
    assert_eq!(normalize_datetime("", None), None);
    assert_eq!(normalize_datetime("2021-04-02T08:15:57", None), None);
    assert_eq!(normalize_datetime("20210402 081557", None), None);
    assert_eq!(normalize_datetime("20210402T0815", None), None);
    assert_eq!(normalize_datetime("20210402T081557ZZ", None), None);
    assert_eq!(normalize_datetime("2021o402T081557", None), None);
}

#[test]
fn test_calendar_validity_is_enforced() {
    assert_eq!(normalize_datetime("20211302T081557", None), None);
    assert_eq!(normalize_datetime("20210432T081557", None), None);
    assert_eq!(normalize_datetime("20210402T241557", None), None);
    assert_eq!(normalize_datetime("20210402T086057", None), None);
    assert_eq!(normalize_datetime("20210229T000000", None), None);
    assert_eq!(
        normalize_datetime("20160630T235960", None),
        Some(dt(2016, 6, 30, 23, 59, 60))
    );
    assert_eq!(normalize_datetime("20210402T081561", None), None);
    assert_eq!(
        normalize_datetime("20200229T000000", None),
        Some(dt(2020, 2, 29, 0, 0, 0))
    );
    assert_eq!(normalize_datetime("21000229T000000", None), None);
    assert_eq!(
        normalize_datetime("20000229T000000", None),
        Some(dt(2000, 2, 29, 0, 0, 0))
    );
}

#[test]
fn test_datetime_new_checks_fields() {
    assert!(DateTime::new(2021, 4, 2, 8, 15, 57).is_some());
    assert!(DateTime::new(2021, 0, 2, 8, 15, 57).is_none());
    assert!(DateTime::new(2021, 13, 2, 8, 15, 57).is_none());
    assert!(DateTime::new(2021, 4, 31, 8, 15, 57).is_none());
    assert!(DateTime::new(2021, 4, 2, 24, 15, 57).is_none());
    assert!(DateTime::new(2021, 4, 2, 8, 60, 57).is_none());
    assert!(DateTime::new(2021, 4, 2, 8, 15, 60).is_some());
    assert!(DateTime::new(2021, 4, 2, 8, 15, 61).is_none());
}
