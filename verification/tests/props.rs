//! Constructors, accessors, conversions, formatting and the codec pair.

use utcnow::UtcTime;
use utcnow::U30;

#[test]
fn round_trip_parts_survive() {
    let t = UtcTime::new_unchecked(123, 456);
    assert_eq!(t.as_secs(), 123);
    assert_eq!(t.subsec_nanos(), 456);

    let t = UtcTime::new_unchecked(-1_659_539_413, 885_457_394);
    assert_eq!(t.as_secs(), -1_659_539_413);
    assert_eq!(t.subsec_nanos(), 885_457_394);

    let t = UtcTime::new_unchecked(i64::MIN, 999_999_999);
    assert_eq!(t.as_secs(), i64::MIN);
    assert_eq!(t.subsec_nanos(), 999_999_999);
}

#[test]
fn normalization_folds_surplus_nanos() {
    assert_eq!(
        UtcTime::new(0, 1_000_000_000).unwrap(),
        UtcTime::new_unchecked(1, 0)
    );
    assert_eq!(
        UtcTime::new(0, 1_234_567_890).unwrap(),
        UtcTime::new_unchecked(1, 234_567_890)
    );
    assert_eq!(
        UtcTime::new(7, 999_999_999).unwrap(),
        UtcTime::new_unchecked(7, 999_999_999)
    );
}

#[test]
fn normalization_overflow_fails() {
    assert!(UtcTime::new(i64::MAX, 1_000_000_000).is_none());
    assert!(UtcTime::new(i64::MAX, 999_999_999).is_some());
    assert!(UtcTime::new(i64::MAX - 4, 4_294_967_295).is_some());
}

#[test]
fn formatting_pads_nine_digits() {
    assert_eq!(
        UtcTime::new_unchecked(1_659_539_413, 885_457_394).to_display_string(),
        "1659539413.885457394"
    );
    assert_eq!(
        UtcTime::new_unchecked(-1_659_539_413, 885_457_394).to_display_string(),
        "-1659539413.885457394"
    );
    assert_eq!(UtcTime::new_unchecked(0, 0).to_display_string(), "0.000000000");
    assert_eq!(UtcTime::new_unchecked(-1, 5).to_display_string(), "-1.000000005");
    assert_eq!(
        UtcTime::new_unchecked(i64::MIN, 0).to_display_string(),
        "-9223372036854775808.000000000"
    );
    assert_eq!(
        UtcTime::new_unchecked(i64::MAX, 999_999_999).to_display_string(),
        "9223372036854775807.999999999"
    );
}

#[test]
fn parse_signs_and_bounds() {
    assert_eq!(
        "+5.1".parse::<UtcTime>().unwrap(),
        UtcTime::new_unchecked(5, 100_000_000)
    );
    assert_eq!(
        "-1.5".parse::<UtcTime>().unwrap(),
        UtcTime::new_unchecked(-1, 500_000_000)
    );
    assert_eq!(
        "-9223372036854775808".parse::<UtcTime>().unwrap(),
        UtcTime::new_unchecked(i64::MIN, 0)
    );
    assert_eq!(
        "9223372036854775807".parse::<UtcTime>().unwrap(),
        UtcTime::new_unchecked(i64::MAX, 0)
    );
    assert!("-9223372036854775809".parse::<UtcTime>().is_err());
    assert!("9223372036854775808".parse::<UtcTime>().is_err());
    assert!("99999999999999999999999999999.5".parse::<UtcTime>().is_err());
}

#[test]
fn parse_rejects_malformed() {
    assert!("-".parse::<UtcTime>().is_err());
    assert!("+".parse::<UtcTime>().is_err());
    assert!("+.5".parse::<UtcTime>().is_err());
    assert!("1.+1".parse::<UtcTime>().is_err());
    assert!("1.-1".parse::<UtcTime>().is_err());
    assert!("1.2.3".parse::<UtcTime>().is_err());
    assert!("1661201091.326474702x".parse::<UtcTime>().is_err());
    assert!("1661201091.123456789 ".parse::<UtcTime>().is_err());
    assert!("\t5".parse::<UtcTime>().is_err());
    assert!("5\n".parse::<UtcTime>().is_err());
}

#[test]
fn format_then_parse_is_identity() {
    for t in [
        UtcTime::new_unchecked(0, 0),
        UtcTime::new_unchecked(1_661_201_091, 326_474_702),
        UtcTime::new_unchecked(-1, 999_999_999),
        UtcTime::new_unchecked(i64::MIN, 1),
        UtcTime::new_unchecked(i64::MAX, 999_999_999),
    ] {
        assert_eq!(t.to_display_string().parse::<UtcTime>().unwrap(), t);
    }
}

#[test]
fn duration_conversion() {
    assert!(UtcTime::new_unchecked(-1, 0).into_duration().is_err());
    assert_eq!(
        UtcTime::new_unchecked(42, 0).into_duration().unwrap(),
        core::time::Duration::new(42, 0)
    );
    assert_eq!(
        UtcTime::new_unchecked(42, 7).into_duration_parts().unwrap(),
        (42, 7)
    );
    assert!(UtcTime::new_unchecked(i64::MIN, 0).into_duration_parts().is_err());

    let t = UtcTime::from_duration(core::time::Duration::new(42, 9)).unwrap();
    assert_eq!(t.as_secs(), 42);
    assert_eq!(t.subsec_nanos(), 9);
    assert!(UtcTime::from_duration(core::time::Duration::new(u64::MAX, 0)).is_none());
    assert!(UtcTime::from_duration_parts(u64::MAX, 0).is_none());
    assert_eq!(
        UtcTime::from_duration_parts(9_223_372_036_854_775_807, 1).unwrap(),
        UtcTime::new_unchecked(i64::MAX, 1)
    );
}

#[test]
fn system_time_conversion() {
    let st = std::time::SystemTime::UNIX_EPOCH
        .checked_add(core::time::Duration::new(5, 250))
        .unwrap();
    let t = UtcTime::from_system_time(st).unwrap();
    assert_eq!(t.as_secs(), 5);
    assert_eq!(t.subsec_nanos(), 250);

    let back = UtcTime::new_unchecked(5, 250).into_system_time().unwrap();
    assert_eq!(back, st);

    assert!(UtcTime::new_unchecked(-1, 0).into_system_time().is_err());

    let before = std::time::SystemTime::UNIX_EPOCH
        .checked_sub(core::time::Duration::new(1, 0))
        .unwrap();
    assert!(UtcTime::from_system_time(before).is_none());
}

#[test]
fn parts_codec_round_trip() {
    for t in [
        UtcTime::new_unchecked(0, 0),
        UtcTime::new_unchecked(1_659_539_413, 885_457_394),
        UtcTime::new_unchecked(-1_659_539_413, 885_457_394),
        UtcTime::new_unchecked(i64::MIN, 999_999_999),
    ] {
        let (secs, nanos) = t.to_parts();
        assert_eq!(UtcTime::from_parts(secs, nanos).unwrap(), t);
    }
    assert!(UtcTime::from_parts(0, 1_000_000_000).is_err());
    assert!(UtcTime::from_parts(1_659_539_413, u32::MAX).is_err());
    assert_eq!(
        UtcTime::from_parts(3, 999_999_999).unwrap(),
        UtcTime::new_unchecked(3, 999_999_999)
    );
}

#[test]
fn total_unit_accessors() {
    let t = UtcTime::new_unchecked(1, 500_000_000);
    assert_eq!(t.as_secs(), 1);
    assert_eq!(t.as_millis(), 1_500);
    assert_eq!(t.as_micros(), 1_500_000);
    assert_eq!(t.as_nanos(), 1_500_000_000);

    let t = UtcTime::new_unchecked(-1, 500_000_000);
    assert_eq!(t.as_millis(), -500);
    assert_eq!(t.as_micros(), -500_000);
    assert_eq!(t.as_nanos(), -500_000_000);

    let t = UtcTime::new_unchecked(i64::MAX, 999_999_999);
    assert_eq!(t.as_nanos(), 9_223_372_036_854_775_807i128 * 1_000_000_000 + 999_999_999);
}

#[test]
fn subsec_accessors() {
    let t = UtcTime::new_unchecked(7, 987_654_321);
    assert_eq!(t.subsec_millis(), 987);
    assert_eq!(t.subsec_micros(), 987_654);
    assert_eq!(t.subsec_nanos(), 987_654_321);
}

#[test]
fn epoch_and_default() {
    assert_eq!(UtcTime::epoch(), UtcTime::default());
    assert_eq!(UtcTime::epoch(), UtcTime::new_unchecked(0, 0));
    assert_eq!(UtcTime::epoch().as_secs(), 0);
    assert_eq!(UtcTime::epoch().subsec_nanos(), 0);
}

#[test]
fn subsec_field_packing() {
    assert_eq!(U30::new_unchecked(999_999_999).get(), 999_999_999);
    assert_eq!(U30::new_unchecked(0).get(), 0);
    assert_eq!(U30::new_unchecked(885_457_394).get(), 885_457_394);
    assert_eq!(U30::zero().get(), 0);
    assert_eq!(U30::default().get(), 0);
}

#[test]
fn raw_parts_reduce_modulo() {
    assert_eq!(
        UtcTime::from_raw_parts(123, 4_000_000_016),
        UtcTime::new_unchecked(123, 16)
    );
    assert_eq!(
        UtcTime::from_raw_parts(-7, 999_999_999),
        UtcTime::new_unchecked(-7, 999_999_999)
    );
    assert!(UtcTime::from_raw_parts(i64::MAX, u32::MAX).subsec_nanos() < 1_000_000_000);
}

#[test]
fn error_messages() {
    let e = "not a number".parse::<UtcTime>().unwrap_err();
    assert_eq!(e.message(), "cannot convert from or to a UtcTime");
    assert_eq!(
        utcnow::Error.message(),
        "could not query the system clock"
    );
}

#[test]
fn clock_reports_sane_values() {
    assert!(utcnow::IMPLEMENTED);
    assert!(utcnow::INFALLIBLE);
    let now = utcnow::utcnow().unwrap();
    assert!(now.subsec_nanos() < 1_000_000_000);
    assert!(now.as_secs() > 0);
    let again = UtcTime::now().unwrap();
    assert!(again.as_secs() >= now.as_secs());
}
