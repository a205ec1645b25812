use seven_clock::timefmt::{format_time, Hms, TimeFormat};

fn hms(hour: u8, minute: u8, second: u8) -> Hms {
    Hms { hour, minute, second }
}

#[test]
fn four_layouts_for_one_afternoon_time() {
    let t = hms(15, 5, 0);
    assert_eq!(format_time(&t, TimeFormat::TwelveHm), "3:05 PM");
    assert_eq!(format_time(&t, TimeFormat::TwelveHms), "3:05:00 PM");
    assert_eq!(format_time(&t, TimeFormat::TwentyFourHm), "15:05");
    assert_eq!(format_time(&t, TimeFormat::TwentyFourHms), "15:05:00");
}

#[test]
fn midnight_shows_as_twelve_am() {
    let t = hms(0, 0, 0);
    assert_eq!(format_time(&t, TimeFormat::TwelveHm), "12:00 AM");
    assert_eq!(format_time(&t, TimeFormat::TwelveHms), "12:00:00 AM");
    assert_eq!(format_time(&t, TimeFormat::TwentyFourHm), "00:00");
    assert_eq!(format_time(&t, TimeFormat::TwentyFourHms), "00:00:00");
}

#[test]
fn noon_shows_as_twelve_pm() {
    let t = hms(12, 0, 1);
    assert_eq!(format_time(&t, TimeFormat::TwelveHm), "12:00 PM");
    assert_eq!(format_time(&t, TimeFormat::TwelveHms), "12:00:01 PM");
}

#[test]
fn twelve_hour_keeps_two_digit_hours() {
    let t = hms(22, 4, 9);
    assert_eq!(format_time(&t, TimeFormat::TwelveHm), "10:04 PM");
    assert_eq!(format_time(&t, TimeFormat::TwelveHms), "10:04:09 PM");
}

#[test]
fn twenty_four_hour_pads_the_morning() {
    let t = hms(9, 59, 59);
    assert_eq!(format_time(&t, TimeFormat::TwentyFourHm), "09:59");
    assert_eq!(format_time(&t, TimeFormat::TwentyFourHms), "09:59:59");
}

#[test]
fn one_in_the_morning_has_no_leading_zero() {
    let t = hms(1, 2, 3);
    assert_eq!(format_time(&t, TimeFormat::TwelveHm), "1:02 AM");
    assert_eq!(format_time(&t, TimeFormat::TwentyFourHm), "01:02");
}
