use plant::reading::{percent_from_adc_reading, temp_from_raw, Celsius, Percent};
use plant::render::{render_block, rounded_div, ClockReading};
use plant::sensors::{conversion_delay_ms, decode_sample, BusFault, Resolution, SensorError};

fn celsius(c: Celsius) -> f32 {
    c.integer as f32 + c.fraction as f32 / 10000_f32
}

fn percent(p: Percent) -> f32 {
    p.reading as f32 / p.divisor as f32 * 100.0
}

fn text(chars: &[char]) -> String {
    chars.iter().collect()
}

#[test]
fn test_percent_from_adc_reading() {
    assert_eq!(percent(percent_from_adc_reading(10, 1023)), 100.0);
    assert_eq!(percent(percent_from_adc_reading(10, 0)), 0.0);
    assert_eq!(percent(percent_from_adc_reading(10, 512)), 50.048874);
    assert_eq!(percent(percent_from_adc_reading(12, 2048)), 50.012215);
}

#[test]
fn test_temp_from_raw() {
    assert_eq!(celsius(temp_from_raw(0x00a2)), 10.125);
    assert_eq!(celsius(temp_from_raw(0x0000)), 0.0);
    assert_eq!(celsius(temp_from_raw(0xff00)), -16.0);
}

#[test]
fn temp_from_raw_splits_integer_and_fraction() {
    assert_eq!(temp_from_raw(0x00a2), Celsius { integer: 10, fraction: 1250 });
    assert_eq!(temp_from_raw(0x0191), Celsius { integer: 25, fraction: 625 });
    assert_eq!(temp_from_raw(0xfff8), Celsius { integer: 0, fraction: -5000 });
    assert_eq!(temp_from_raw(0xff5e), Celsius { integer: -10, fraction: -1250 });
    assert_eq!(temp_from_raw(0xfc90), Celsius { integer: -55, fraction: 0 });
    assert_eq!(temp_from_raw(0x07d0), Celsius { integer: 125, fraction: 0 });
}

#[test]
fn temp_from_raw_is_sixteenths_of_a_degree() {
    for raw in [0x0001u16, 0x0008, 0x00a2, 0x7fff, 0x8001, 0xfe6f, 0xffff] {
        let c = temp_from_raw(raw);
        let value = c.integer as i64 * 10000 + c.fraction as i64;
        assert_eq!(value, raw as i16 as i64 * 625);
    }
}

#[test]
fn percent_divisor_is_full_scale_code() {
    assert_eq!(percent_from_adc_reading(10, 1023), Percent { reading: 1023, divisor: 1023 });
    assert_eq!(percent_from_adc_reading(12, 2048), Percent { reading: 2048, divisor: 4095 });
    assert_eq!(percent_from_adc_reading(1, 1), Percent { reading: 1, divisor: 1 });
    assert_eq!(percent_from_adc_reading(16, 65535), Percent { reading: 65535, divisor: 65535 });
}

#[test]
fn percent_is_zero_at_zero_for_each_resolution() {
    for bits in 1u32..31 {
        assert_eq!(percent(percent_from_adc_reading(bits, 0)), 0.0);
    }
}

#[test]
fn percent_does_not_decrease_with_reading() {
    for bits in [8u32, 10, 12] {
        let mut last = percent(percent_from_adc_reading(bits, 0));
        for reading in 1u16..=1023 {
            let p = percent(percent_from_adc_reading(bits, reading));
            assert!(p >= last);
            last = p;
        }
    }
}

#[test]
fn rounding_takes_halves_away_from_zero() {
    assert_eq!(rounded_div(101250, 100), 1013);
    assert_eq!(rounded_div(-101250, 100), -1013);
    assert_eq!(rounded_div(101249, 100), 1012);
    assert_eq!(rounded_div(0, 7), 0);
    assert_eq!(rounded_div(511000, 1023), 500);
}

#[test]
fn block_renders_each_field() {
    let block = render_block(
        Some(temp_from_raw(0x00a2)),
        Some(percent_from_adc_reading(10, 512)),
        Some(percent_from_adc_reading(10, 900)),
        ClockReading { hours: 13, minutes: 5, seconds: 42 },
    );
    assert_eq!(text(&block), "10.13\u{b0}C\nMoist: 50.0%\nLight: 88.0%\n13:05:42");
}

#[test]
fn block_renders_negative_and_missing_fields() {
    let block = render_block(
        Some(temp_from_raw(0xff5e)),
        None,
        Some(percent_from_adc_reading(10, 0)),
        ClockReading { hours: 0, minutes: 0, seconds: 9 },
    );
    assert_eq!(text(&block), "-10.13\u{b0}C\nMoist: --.-%\nLight: 0.0%\n00:00:09");
    let block = render_block(
        None,
        Some(percent_from_adc_reading(10, 0)),
        Some(percent_from_adc_reading(10, 1023)),
        ClockReading { hours: 23, minutes: 59, seconds: 59 },
    );
    assert_eq!(text(&block), "--.--\u{b0}C\nMoist: 100.0%\nLight: 100.0%\n23:59:59");
}

#[test]
fn sample_decoding_reports_each_error() {
    assert_eq!(decode_sample(Ok(0x00a2)), Ok(Celsius { integer: 10, fraction: 1250 }));
    assert_eq!(decode_sample(Ok(0x8000)), Err(SensorError::ReadFailure));
    assert_eq!(
        decode_sample(Err(BusFault::CrcMismatch(1, 2))),
        Err(SensorError::BusFault(BusFault::CrcMismatch(1, 2)))
    );
}

#[test]
fn conversion_delay_follows_resolution() {
    assert_eq!(conversion_delay_ms(Resolution::Bits9), 94);
    assert_eq!(conversion_delay_ms(Resolution::Bits10), 188);
    assert_eq!(conversion_delay_ms(Resolution::Bits11), 375);
    assert_eq!(conversion_delay_ms(Resolution::Bits12), 750);
}
