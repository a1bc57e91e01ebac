use displayrecorder::audio::convert_qpc_to_mf_timespan;
use displayrecorder::clock::{ClockAnchor, ClockError};

#[test]
fn relative_of_the_anchor_is_zero() {
    let clock = ClockAnchor::new(123_456, 3_000_000).unwrap();
    assert_eq!(clock.relative(123_456), 0);
}

#[test]
fn relative_clamps_readings_before_the_anchor() {
    let clock = ClockAnchor::new(1_000_000, 10_000_000).unwrap();
    assert_eq!(clock.relative(999_999), 0);
    assert_eq!(clock.relative(0), 0);
}

#[test]
fn media_time_scales_ticks_by_the_frequency() {
    // 3 MHz counter: 3_000_000 ticks are one second = 10_000_000 units
    let clock = ClockAnchor::new(0, 3_000_000).unwrap();
    assert_eq!(clock.to_media_time(3_000_000), 10_000_000);
    assert_eq!(clock.to_media_time(1_500_000), 5_000_000);
    assert_eq!(clock.to_media_time(3), 10);
}

#[test]
fn relative_is_monotone_on_a_monotone_counter() {
    let clock = ClockAnchor::new(5_000, 7_919).unwrap();
    let readings = [0i64, 4_999, 5_000, 5_001, 6_000, 1_000_000, 50_000_000];
    let mut previous = -1i64;
    for &t in readings.iter() {
        let r = clock.relative(t);
        assert!(r >= previous);
        previous = r;
    }
}

#[test]
fn zero_or_negative_frequency_is_a_fatal_configuration_error() {
    assert_eq!(ClockAnchor::new(0, 0).unwrap_err(), ClockError::InvalidFrequency);
    assert_eq!(ClockAnchor::new(0, -5).unwrap_err(), ClockError::InvalidFrequency);
}

#[test]
fn qpc_conversion_matches_the_media_time_formula() {
    assert_eq!(convert_qpc_to_mf_timespan(3_000_000, 3_000_000), Ok(10_000_000));
    assert_eq!(convert_qpc_to_mf_timespan(1, 10_000_000), Ok(1));
    // a zero reading maps to zero without consulting the frequency
    assert_eq!(convert_qpc_to_mf_timespan(0, 0), Ok(0));
    assert_eq!(
        convert_qpc_to_mf_timespan(5, 0),
        Err(ClockError::InvalidFrequency)
    );
    assert_eq!(
        convert_qpc_to_mf_timespan(5, -1),
        Err(ClockError::InvalidFrequency)
    );
}
