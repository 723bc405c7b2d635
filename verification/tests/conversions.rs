use chrono::TimeZone;
use std::time::Instant;
use time_ms_conversions::{
    dt_str_to_utc_time_ms, time_ms_to_secs_nsecs, time_ms_to_utc, time_ms_to_utc_string,
    time_ms_to_utc_z_string, utc_now_to_time_ms, utc_to_time_ms, TimeError, TzMassaging,
};

#[test]
fn test_time_ms_to_secs_nsecs() {
    assert_eq!(time_ms_to_secs_nsecs(-2001), (-3i64, 999_000_000u32));
    assert_eq!(time_ms_to_secs_nsecs(-2000), (-2i64, 0u32));
    assert_eq!(time_ms_to_secs_nsecs(-1999), (-2i64, 1_000_000u32));
    assert_eq!(time_ms_to_secs_nsecs(-1001), (-2i64, 999_000_000u32));
    assert_eq!(time_ms_to_secs_nsecs(-1000), (-1i64, 0u32));
    assert_eq!(time_ms_to_secs_nsecs(-999), (-1i64, 1_000_000u32));
    assert_eq!(time_ms_to_secs_nsecs(-1), (-1i64, 999_000_000u32));
    assert_eq!(time_ms_to_secs_nsecs(0), (0i64, 0u32));
    assert_eq!(time_ms_to_secs_nsecs(1), (0i64, 1_000_000u32));
    assert_eq!(time_ms_to_secs_nsecs(999), (0i64, 999_000_000u32));
    assert_eq!(time_ms_to_secs_nsecs(1000), (1i64, 0u32));
}

#[test]
fn test_utc_now_to_time_ms() {
    let start = Instant::now();

    // Because we use integer arithmetic we must see 2 milli-second time
    // ticks to see a minimum duration of > 1ms.
    let tms1 = utc_now_to_time_ms();
    let mut tms2 = tms1;
    while tms2 < (tms1 + 2) {
        tms2 = utc_now_to_time_ms();
    }
    let done = Instant::now();
    let duration = done.duration_since(start);

    println!(
        "tms1: {} tms2: {} done: {:?} - start {:?} = {}ns or {}ms",
        tms1,
        tms2,
        done,
        start,
        duration.as_nanos(),
        duration.as_millis()
    );

    assert!(tms2 >= (tms1 + 2));
    assert!(duration.as_millis() >= 1);
}

#[test]
fn test_dt_str_with_tee_to_utc_time_ms() {
    let str_time_no_ms = "1970-01-01T00:00:00";
    let ts = dt_str_to_utc_time_ms(str_time_no_ms, TzMassaging::CondAddTzUtc)
        .expect("Bad time format");
    assert_eq!(ts, 0);

    let str_time_with_ms = "1970-01-01T00:00:00.123";
    let tms = dt_str_to_utc_time_ms(str_time_with_ms, TzMassaging::CondAddTzUtc)
        .expect("Bad time format with milliseconds");
    assert_eq!(tms, 123);
}

#[test]
fn test_dt_str_with_space_to_utc_time_ms() {
    let str_time_no_ms = "1970-01-01 00:00:00";
    let ts = dt_str_to_utc_time_ms(str_time_no_ms, TzMassaging::CondAddTzUtc)
        .expect("Bad time format");
    assert_eq!(ts, 0);

    let str_time_with_ms = "1970-01-01 00:00:00.123";
    let tms = dt_str_to_utc_time_ms(str_time_with_ms, TzMassaging::CondAddTzUtc)
        .expect("Bad time format with milliseconds");
    assert_eq!(tms, 123);
}

#[test]
fn test_dt_str_with_leading_trailing_spaces_to_utc_time_ms() {
    let str_time_no_ms = " 1970-01-01 00:00:00";
    let ts = dt_str_to_utc_time_ms(str_time_no_ms, TzMassaging::CondAddTzUtc)
        .expect("Bad time format");
    assert_eq!(ts, 0);

    let str_time_with_ms = "1970-01-01 00:00:00.123 ";
    let tms = dt_str_to_utc_time_ms(str_time_with_ms, TzMassaging::CondAddTzUtc)
        .expect("Bad time format with milliseconds");
    assert_eq!(tms, 123);

    let str_time_no_ms = " 1970-01-01T00:00:00  ";
    let ts = dt_str_to_utc_time_ms(str_time_no_ms, TzMassaging::CondAddTzUtc)
        .expect("Bad time format");
    assert_eq!(ts, 0);

    let str_time_with_ms = "  1970-01-01T00:00:00.123  ";
    let tms = dt_str_to_utc_time_ms(str_time_with_ms, TzMassaging::CondAddTzUtc)
        .expect("Bad time format with milliseconds");
    assert_eq!(tms, 123);
}

#[test]
fn test_dt_str_addtzutc_with_utc() {
    let str_time_tz = "1970-01-01 00:00:00+00";
    let ts =
        dt_str_to_utc_time_ms(str_time_tz, TzMassaging::CondAddTzUtc).expect("Bad time format");
    assert_eq!(ts, 0);

    let str_time_tz = "1970-01-01T00:00:00.1+00";
    let ts =
        dt_str_to_utc_time_ms(str_time_tz, TzMassaging::CondAddTzUtc).expect("Bad time format");
    assert_eq!(ts, 100);

    let str_time_tz = "1970-01-01T00:00:00.123+0000";
    let ts =
        dt_str_to_utc_time_ms(str_time_tz, TzMassaging::CondAddTzUtc).expect("Bad time format");
    assert_eq!(ts, 123);

    let str_time_tz = "1970-01-01 00:00:00+00:00";
    let ts =
        dt_str_to_utc_time_ms(str_time_tz, TzMassaging::CondAddTzUtc).expect("Bad time format");
    assert_eq!(ts, 0);

    let str_time_tz = "1970-01-01 00:00:00.456+00:00";
    let ts =
        dt_str_to_utc_time_ms(str_time_tz, TzMassaging::CondAddTzUtc).expect("Bad time format");
    assert_eq!(ts, 456);
}

#[test]
fn test_dt_str_with_tz_to_utc_time_ms() {
    let str_time_no_ms = "1970-01-01T00:00:00+0000";
    let ts = dt_str_to_utc_time_ms(str_time_no_ms, TzMassaging::HasTz).expect("Bad time format");
    assert_eq!(ts, 0);

    let str_time_with_ms = "1970-01-01T00:00:00.123+00:00";
    let tms = dt_str_to_utc_time_ms(str_time_with_ms, TzMassaging::HasTz)
        .expect("Bad time format with milliseconds");
    assert_eq!(tms, 123);
}

#[test]
fn test_dt_str_both_hastz() {
    let str_time_tz = "1970-01-01T00:00:00+0000";
    let ts = dt_str_to_utc_time_ms(str_time_tz, TzMassaging::HasTz).expect("Bad time format");
    assert_eq!(ts, 0);

    let str_time_pst = "1969-12-31T16:00:00-0800";
    let ts_pst = dt_str_to_utc_time_ms(str_time_pst, TzMassaging::HasTz)
        .expect("Bad time format with milliseconds");
    assert_eq!(ts, ts_pst);
}

#[test]
fn test_dt_str_addtzutc_hastz() {
    let str_time_tz = "1970-01-01T00:00:00";
    let ts =
        dt_str_to_utc_time_ms(str_time_tz, TzMassaging::CondAddTzUtc).expect("Bad time format");
    assert_eq!(ts, 0);

    let str_time_pst = "1969-12-31T16:00:00-0800";
    let ts_pst = dt_str_to_utc_time_ms(str_time_pst, TzMassaging::HasTz)
        .expect("Bad time format with milliseconds");
    assert_eq!(ts, ts_pst);
}

#[test]
fn test_dt_str_to_utc_time_ms_using_localtz() {
    // UTC time_ms 0 as a Date Time string without time zone
    let utc_time_ms_0_str = "1970-01-01T00:00:00";

    // Get a NaiveDateTime
    let ndt: chrono::NaiveDateTime = utc_time_ms_0_str.parse().unwrap();

    // Convert to the local time of where ever this is running
    let ldt = chrono::Local.from_local_datetime(&ndt).unwrap();

    // Get the offset from local time to utc, a negative value for west of UTC
    let ldt_offset = ldt.offset();

    // Get the value to add to UTC to convert to local time
    let milli_seconds_to_add_to_convert_to_utc =
        chrono::Offset::fix(ldt_offset).local_minus_utc() as i64 * 1000;

    // Adding milli_seconds_to_add_to_convert_to_utc to tms will equal 0
    // for all timezones
    let tms = dt_str_to_utc_time_ms(utc_time_ms_0_str, TzMassaging::LocalTz)
        .expect("Bad time format");
    assert_eq!(tms + milli_seconds_to_add_to_convert_to_utc, 0);
}

#[test]
fn test_time_ms_to_utc() {
    let dt = time_ms_to_utc(0i64);
    assert_eq!(dt.to_rfc3339_millis(true), "1970-01-01T00:00:00.000Z");
    assert_eq!(dt.to_rfc3339_millis(false), "1970-01-01T00:00:00.000+00:00");
}

#[test]
fn test_time_ms_to_utc_string() {
    let dt = time_ms_to_utc_string(0i64);
    assert_eq!(dt, "1970-01-01T00:00:00.000+00:00");
}

#[test]
fn test_time_ms_to_utc_z_string() {
    let dt = time_ms_to_utc_z_string(0i64);
    assert_eq!(dt, "1970-01-01T00:00:00.000Z");
}

#[test]
fn test_date_time_parse_from_rfc3339() {
    let s = format!("1970-01-01T00:00:00.000{}", "Z");
    let dt = match chrono::DateTime::parse_from_rfc3339(&s) {
        Ok(v) => v,
        Err(e) => panic!("unexpected parse failure {e}"),
    };
    println!("test_date_time_parse_from_rfc3339: {dt}");
}

#[test]
fn test_round_trip_representative_values() {
    let values: Vec<i64> = vec![
        -1_696_000_000_000,
        -123_456_789,
        -2001,
        -2000,
        -1999,
        -1001,
        -1000,
        -999,
        -1,
        0,
        1,
        999,
        1000,
        123_456_789,
        1_696_000_000_000,
    ];
    for t in values {
        let dt = time_ms_to_utc(t);
        assert_eq!(utc_to_time_ms(&dt), t);
    }
}

#[test]
fn test_negative_time_ms_strings() {
    assert_eq!(time_ms_to_utc_z_string(-1), "1969-12-31T23:59:59.999Z");
    assert_eq!(time_ms_to_utc_string(-1), "1969-12-31T23:59:59.999+00:00");
    assert_eq!(time_ms_to_utc_z_string(-1000), "1969-12-31T23:59:59.000Z");
}

#[test]
fn test_parse_malformed_inputs() {
    assert_eq!(
        dt_str_to_utc_time_ms("not a time", TzMassaging::CondAddTzUtc),
        Err(TimeError::Malformed)
    );
    // HasTz demands an explicit numeric offset
    assert_eq!(
        dt_str_to_utc_time_ms("1970-01-01T00:00:00", TzMassaging::HasTz),
        Err(TimeError::Malformed)
    );
    assert_eq!(
        dt_str_to_utc_time_ms("1970-13-01T00:00:00+0000", TzMassaging::HasTz),
        Err(TimeError::Malformed)
    );
    assert_eq!(
        dt_str_to_utc_time_ms("junk", TzMassaging::LocalTz),
        Err(TimeError::Malformed)
    );
}

#[test]
fn test_parse_fractional_rounding() {
    // Digits beyond the third are accepted and rounded half-up.
    assert_eq!(
        dt_str_to_utc_time_ms("1970-01-01T00:00:00.1234+0000", TzMassaging::HasTz).unwrap(),
        123
    );
    assert_eq!(
        dt_str_to_utc_time_ms("1970-01-01T00:00:00.9995+0000", TzMassaging::HasTz).unwrap(),
        1000
    );
    // Before the epoch, -0.6 ms rounds to the nearest millisecond, -1.
    assert_eq!(
        dt_str_to_utc_time_ms("1969-12-31T23:59:59.9994+0000", TzMassaging::HasTz).unwrap(),
        -1
    );
}

#[test]
fn test_zulu_and_offset_strings_agree() {
    let values: Vec<i64> = vec![-1_696_000_000_000, -1, 0, 123, 1_696_000_000_000];
    for t in values {
        let with_offset = time_ms_to_utc_string(t);
        let with_z = time_ms_to_utc_z_string(t);
        assert!(with_z.ends_with('Z'));
        assert!(with_offset.ends_with("+00:00"));
        assert_eq!(with_z, with_offset.replace("+00:00", "Z"));
    }
}
