use gitcomet_view::datetime::{format_datetime, format_datetime_utc, DateTimeFormat, Timezone};
use std::time::{Duration, SystemTime, UNIX_EPOCH};

fn unix_seconds(t: SystemTime) -> i64 {
    match t.duration_since(UNIX_EPOCH) {
        Ok(d) => d.as_secs() as i64,
        Err(e) => -(e.duration().as_secs() as i64),
    }
}

#[test]
fn commit_date_formats_as_yyyy_mm_dd_utc() {
    assert_eq!(
        format_datetime_utc(unix_seconds(UNIX_EPOCH), DateTimeFormat::YmdHm),
        "1970-01-01 00:00 UTC"
    );
    assert_eq!(
        format_datetime_utc(
            unix_seconds(UNIX_EPOCH + Duration::from_secs(86_400)),
            DateTimeFormat::YmdHm
        ),
        "1970-01-02 00:00 UTC"
    );
    assert_eq!(
        format_datetime_utc(
            unix_seconds(UNIX_EPOCH - Duration::from_secs(86_400)),
            DateTimeFormat::YmdHm
        ),
        "1969-12-31 00:00 UTC"
    );

    // 2000-02-29 12:34:56 UTC
    assert_eq!(
        format_datetime_utc(
            unix_seconds(UNIX_EPOCH + Duration::from_secs(951_782_400 + 12 * 3600 + 34 * 60 + 56)),
            DateTimeFormat::YmdHms
        ),
        "2000-02-29 12:34:56 UTC"
    );
}

#[test]
fn format_datetime_with_timezone_offset() {
    // UTC+5:30 (19800 seconds)
    let tz = Timezone::Fixed(19800);
    assert_eq!(
        format_datetime(unix_seconds(UNIX_EPOCH), DateTimeFormat::YmdHm, tz, true),
        "1970-01-01 05:30 UTC+5:30"
    );

    // UTC-5
    let tz_neg = Timezone::Fixed(-18000);
    assert_eq!(
        format_datetime(
            unix_seconds(UNIX_EPOCH + Duration::from_secs(86_400)),
            DateTimeFormat::YmdHm,
            tz_neg,
            true,
        ),
        "1970-01-01 19:00 UTC\u{2212}5"
    );
}

#[test]
fn format_datetime_can_hide_timezone_label() {
    let tz = Timezone::Fixed(7200);
    assert_eq!(
        format_datetime(unix_seconds(UNIX_EPOCH), DateTimeFormat::YmdHm, tz, false),
        "1970-01-01 02:00"
    );
}

#[test]
fn timezone_key_round_trips() {
    for tz in Timezone::all().iter() {
        let key = tz.key();
        let parsed = Timezone::from_key(&key);
        assert_eq!(parsed, Some(*tz), "round-trip failed for {key}");
    }
}

#[test]
fn timezone_round_trip_covers_extreme_offsets() {
    for tz in [
        Timezone::Fixed(0),
        Timezone::Fixed(i32::MIN),
        Timezone::Fixed(i32::MAX),
        Timezone::Fixed(-1),
    ] {
        assert_eq!(Timezone::from_key(&tz.key()), Some(tz));
    }
    assert_eq!(Timezone::Fixed(-18000).key(), "utc-18000");
    assert_eq!(Timezone::Utc.key(), "utc");
}

#[test]
fn timezone_keys_that_are_not_canonical_are_rejected() {
    for key in ["", "ut", "UTC", "utc+", "utc-0", "utc+007", "utc+2147483648", "utc 5", "utc+1x", "utc-2147483649"] {
        assert_eq!(Timezone::from_key(key), None, "{key}");
    }
    assert_eq!(Timezone::from_key("utc-2147483648"), Some(Timezone::Fixed(i32::MIN)));
    assert_eq!(Timezone::from_key("utc+0"), Some(Timezone::Fixed(0)));
}

#[test]
fn timezone_labels_show_hours_minutes_and_seconds() {
    assert_eq!(Timezone::Utc.label(), "UTC");
    assert_eq!(Timezone::Fixed(0).label(), "UTC");
    assert_eq!(Timezone::Fixed(19800).label(), "UTC+5:30");
    assert_eq!(Timezone::Fixed(-3600).label(), "UTC\u{2212}1");
    assert_eq!(Timezone::Fixed(3605).label(), "UTC+1:00:05");
    assert_eq!(Timezone::Fixed(20700).label(), "UTC+5:45");
}

#[test]
fn years_outside_four_digits_carry_a_sign() {
    // 10000-01-01 00:00:00 UTC
    assert_eq!(
        format_datetime_utc(253_402_300_800, DateTimeFormat::YmdHms),
        "+10000-01-01 00:00:00 UTC"
    );
    // 0000-01-01 00:00:00 UTC
    assert_eq!(
        format_datetime_utc(-62_167_219_200, DateTimeFormat::YmdHm),
        "0000-01-01 00:00 UTC"
    );
    // one second before that
    assert_eq!(
        format_datetime_utc(-62_167_219_201, DateTimeFormat::YmdHms),
        "-0001-12-31 23:59:59 UTC"
    );
    // the extremes of the input range do not overflow
    let _ = format_datetime(i64::MIN, DateTimeFormat::YmdHms, Timezone::Fixed(i32::MIN), true);
    let _ = format_datetime(i64::MAX, DateTimeFormat::YmdHms, Timezone::Fixed(i32::MAX), true);
}

#[test]
fn leap_days_follow_the_gregorian_rules() {
    // 1900-03-01: 1900 is not a leap year
    assert_eq!(format_datetime_utc(-2_203_891_200, DateTimeFormat::YmdHm), "1900-03-01 00:00 UTC");
    // 2024-02-29
    assert_eq!(format_datetime_utc(1_709_164_800, DateTimeFormat::YmdHm), "2024-02-29 00:00 UTC");
    // 2100-03-01: 2100 is not a leap year
    assert_eq!(format_datetime_utc(4_107_542_400, DateTimeFormat::YmdHm), "2100-03-01 00:00 UTC");
}

#[test]
fn offsets_shift_the_clock_and_hiding_drops_the_label() {
    for secs in [0i64, 86_399, -1, 951_782_400, 1_700_000_000] {
        for offset in [3600i32, -19800, 0] {
            assert_eq!(
                format_datetime(secs, DateTimeFormat::YmdHms, Timezone::Fixed(offset), false),
                format_datetime(secs + offset as i64, DateTimeFormat::YmdHms, Timezone::Utc, false)
            );
            let tz = Timezone::Fixed(offset);
            assert_eq!(
                format_datetime(secs, DateTimeFormat::YmdHm, tz, true),
                format!("{} {}", format_datetime(secs, DateTimeFormat::YmdHm, tz, false), tz.label())
            );
        }
        assert_eq!(
            format_datetime(secs, DateTimeFormat::YmdHm, Timezone::Utc, true),
            format_datetime(secs, DateTimeFormat::YmdHm, Timezone::Fixed(0), true)
        );
    }
}
