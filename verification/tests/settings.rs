use atmospheric_sensor::i2c::{
    Address, AtmosphericSensorI2cError, Filter, Mode, Oversampling, StandyTime,
};

#[test]
fn mode_is_written_as_two_bits() {
    assert_eq!(u8::from(Mode::Sleep), 0);
    assert_eq!(u8::from(Mode::Forced), 1);
    assert_eq!(u8::from(Mode::Normal), 3);
}

#[test]
fn mode_is_read_from_two_bits() {
    assert_eq!(Mode::try_from(0), Ok(Mode::Sleep));
    assert_eq!(Mode::try_from(1), Ok(Mode::Forced));
    assert_eq!(Mode::try_from(2), Ok(Mode::Forced));
    assert_eq!(Mode::try_from(3), Ok(Mode::Normal));
}

#[test]
fn mode_above_three_is_refused() {
    for number in 4..=255u8 {
        assert_eq!(Mode::try_from(number), Err(AtmosphericSensorI2cError::InvalidConfiguration));
    }
}

#[test]
fn oversampling_goes_both_ways() {
    let all = [
        (Oversampling::Skipped, 0u8),
        (Oversampling::Ox1, 1),
        (Oversampling::Ox2, 2),
        (Oversampling::Ox4, 3),
        (Oversampling::Ox8, 4),
        (Oversampling::Ox16, 5),
    ];
    for (rate, bits) in all {
        assert_eq!(u8::from(rate), bits);
        assert_eq!(Oversampling::try_from(bits), Ok(rate));
    }
}

#[test]
fn oversampling_above_five_is_refused() {
    for number in 6..=255u8 {
        assert_eq!(
            Oversampling::try_from(number),
            Err(AtmosphericSensorI2cError::InvalidConfiguration)
        );
    }
}

#[test]
fn standby_time_goes_both_ways() {
    let all = [
        (StandyTime::Ms0_5, 0u8),
        (StandyTime::Ms62_5, 1),
        (StandyTime::Ms125, 2),
        (StandyTime::Ms250, 3),
        (StandyTime::Ms500, 4),
        (StandyTime::Ms1000, 5),
        (StandyTime::Ms10, 6),
        (StandyTime::Ms20, 7),
    ];
    for (standby, bits) in all {
        assert_eq!(u8::from(standby), bits);
        assert_eq!(StandyTime::try_from(bits), Ok(standby));
    }
}

#[test]
fn standby_time_above_seven_is_refused() {
    for number in 8..=255u8 {
        assert_eq!(
            StandyTime::try_from(number),
            Err(AtmosphericSensorI2cError::InvalidConfiguration)
        );
    }
}

#[test]
fn filter_goes_both_ways() {
    let all =
        [(Filter::Off, 0u8), (Filter::C2, 1), (Filter::C4, 2), (Filter::C8, 3), (Filter::C16, 4)];
    for (filter, bits) in all {
        assert_eq!(u8::from(filter), bits);
        assert_eq!(Filter::try_from(bits), Ok(filter));
    }
}

#[test]
fn filter_above_four_is_refused() {
    for number in 5..=255u8 {
        assert_eq!(Filter::try_from(number), Err(AtmosphericSensorI2cError::InvalidConfiguration));
    }
}

#[test]
fn addresses_differ_in_their_last_bit() {
    assert_eq!(u8::from(Address::Default), 0x76);
    assert_eq!(u8::from(Address::Alternative), 0x77);
}
