use melody::utils::{format_time, Condition};

#[test]
fn format_time_below_one_hour() {
    assert_eq!(format_time(0), "00:00");
    assert_eq!(format_time(59), "00:59");
    assert_eq!(format_time(61), "01:01");
    assert_eq!(format_time(3599), "59:59");
}

#[test]
fn format_time_from_one_hour() {
    assert_eq!(format_time(3600), "01:00:00");
    assert_eq!(format_time(3661), "01:01:01");
    assert_eq!(format_time(36000), "10:00:00");
    assert_eq!(format_time(360000), "100:00:00");
}

#[test]
fn format_time_of_the_largest_value() {
    assert_eq!(format_time(u64::MAX), "5124095576030431:00:15");
}

#[test]
fn condition_from_bool_and_option() {
    assert_eq!(Condition::from(true), Condition::True);
    assert_eq!(Condition::from(false), Condition::False);
    assert_eq!(Condition::from(Some(3)), Condition::True);
    assert_eq!(Condition::from(None::<u8>), Condition::False);
    assert_eq!(Condition::from_option(&Some("x")), Condition::True);
}

#[test]
fn condition_selects_a_branch() {
    assert_eq!(Condition::from_bool(true).select(1, 2), 1);
    assert_eq!(Condition::from_bool(false).select(1, 2), 2);
}
