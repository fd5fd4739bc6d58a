use onvif_cam_rs::client::calendar::{
    chrono_countdown, civil_from_unix, days_before_month, format_unix_timestamp, is_leap,
    month_from_day_of_year, CivilTime,
};

#[test]
fn leap_years_follow_the_gregorian_rule() {
    assert!(is_leap(2000));
    assert!(is_leap(2024));
    assert!(!is_leap(1900));
    assert!(!is_leap(2023));
    assert!(is_leap(1600));
    assert!(!is_leap(2100));
    assert!(is_leap(-4));
    assert!(!is_leap(-100));
}

#[test]
fn month_offsets_in_common_and_leap_years() {
    assert_eq!(days_before_month(1, false), 0);
    assert_eq!(days_before_month(2, true), 31);
    assert_eq!(days_before_month(3, false), 59);
    assert_eq!(days_before_month(3, true), 60);
    assert_eq!(days_before_month(12, false), 334);
    assert_eq!(days_before_month(12, true), 335);
}

#[test]
fn month_offsets_outside_the_year_are_zero() {
    assert_eq!(days_before_month(0, false), 0);
    assert_eq!(days_before_month(13, true), 0);
    assert_eq!(days_before_month(-5, true), 0);
}

#[test]
fn month_of_day_of_year() {
    assert_eq!(month_from_day_of_year(0, false), 1);
    assert_eq!(month_from_day_of_year(30, false), 1);
    assert_eq!(month_from_day_of_year(31, false), 2);
    assert_eq!(month_from_day_of_year(58, false), 2);
    assert_eq!(month_from_day_of_year(59, false), 3);
    assert_eq!(month_from_day_of_year(59, true), 2);
    assert_eq!(month_from_day_of_year(60, true), 3);
    assert_eq!(month_from_day_of_year(333, false), 11);
    assert_eq!(month_from_day_of_year(334, false), 12);
    assert_eq!(month_from_day_of_year(364, false), 12);
    assert_eq!(month_from_day_of_year(365, true), 12);
}

#[test]
fn month_of_day_outside_the_year() {
    assert_eq!(month_from_day_of_year(-1, false), 1);
    assert_eq!(month_from_day_of_year(400, false), 12);
}

#[test]
fn reading_of_the_epoch() {
    let t = civil_from_unix(0);
    assert_eq!(
        t,
        CivilTime { year: 1970, month: 1, day: 1, hour: 0, minute: 0, second: 0 }
    );
}

#[test]
fn reading_of_a_leap_day() {
    let t = civil_from_unix(951_782_400);
    assert_eq!(
        t,
        CivilTime { year: 2000, month: 2, day: 29, hour: 0, minute: 0, second: 0 }
    );
}

#[test]
fn timestamps_render_as_iso8601() {
    assert_eq!(format_unix_timestamp(0), "1970-01-01T00:00:00Z");
    assert_eq!(format_unix_timestamp(951_782_400), "2000-02-29T00:00:00Z");
    assert_eq!(format_unix_timestamp(1_725_029_869), "2024-08-30T14:57:49Z");
    assert_eq!(format_unix_timestamp(253_402_300_799), "9999-12-31T23:59:59Z");
}

#[test]
fn years_past_four_digits_are_not_cut() {
    assert_eq!(format_unix_timestamp(253_402_300_800), "10000-01-01T00:00:00Z");
}

#[test]
fn small_fields_are_zero_padded() {
    let t = CivilTime { year: 5, month: 1, day: 2, hour: 3, minute: 4, second: 5 };
    assert_eq!(t.to_iso8601(), "0005-01-02T03:04:05Z");
}

#[test]
fn reading_denotes_its_instant() {
    for secs in [0u64, 59, 86_399, 86_400, 951_782_400, 1_725_029_869, 4_102_444_800] {
        let t = civil_from_unix(secs);
        let mut days: u64 = 0;
        for y in 1970..t.year {
            days += if is_leap(y as i64) { 366 } else { 365 };
        }
        days += days_before_month(t.month as i64, is_leap(t.year as i64)) as u64 + t.day - 1;
        assert_eq!(days * 86_400 + t.hour * 3600 + t.minute * 60 + t.second, secs);
    }
}

#[test]
fn current_time_has_the_timestamp_shape() {
    let text = chrono_countdown();
    let bytes = text.as_bytes();
    assert_eq!(bytes.len(), 20);
    assert_eq!(bytes[4], b'-');
    assert_eq!(bytes[7], b'-');
    assert_eq!(bytes[10], b'T');
    assert_eq!(bytes[13], b':');
    assert_eq!(bytes[16], b':');
    assert_eq!(bytes[19], b'Z');
    assert!(text.as_str() >= "2024-01-01T00:00:00Z");
}

#[test]
fn months_tile_the_year() {
    let common = [31, 28, 31, 30, 31, 30, 31, 31, 30, 31, 30, 31];
    let leap = [31, 29, 31, 30, 31, 30, 31, 31, 30, 31, 30, 31];
    for m in 1..12 {
        assert_eq!(days_before_month(m + 1, false) - days_before_month(m, false), common[m as usize - 1]);
        assert_eq!(days_before_month(m + 1, true) - days_before_month(m, true), leap[m as usize - 1]);
    }
    assert_eq!(days_before_month(12, false) + 31, 365);
    assert_eq!(days_before_month(12, true) + 31, 366);
}

#[test]
fn every_day_of_the_year_falls_in_its_month() {
    for leap in [false, true] {
        let len = if leap { 366 } else { 365 };
        for doy in 0..len {
            let m = month_from_day_of_year(doy, leap);
            let start = days_before_month(m, leap);
            assert!(start <= doy);
            let next = if m < 12 { days_before_month(m + 1, leap) } else { len };
            assert!(doy < next);
        }
    }
}

#[test]
fn timestamps_sort_as_instants() {
    let instants = [
        0u64, 1, 59, 60, 3599, 3600, 86_399, 86_400, 951_782_399, 951_782_400, 1_725_029_869,
        253_402_300_799,
    ];
    for &a in &instants {
        for &b in &instants {
            let ta = format_unix_timestamp(a);
            let tb = format_unix_timestamp(b);
            assert_eq!(ta.cmp(&tb), a.cmp(&b));
        }
    }
}
