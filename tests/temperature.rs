use mausam::decimal::{round_half_even, DecimalValue};
use mausam::temperature::{unit_symbol, TempUnit, Temperature};

const SAMPLE_VALUES: [i64; 8] = [-273150, -100000, -50000, 0, 20000, 50000, 100000, 273150];
const SAMPLE_UNITS: [TempUnit; 3] = [TempUnit::Fahrenheit, TempUnit::Celsius, TempUnit::Kelvin];

fn degrees(millis: i64) -> f64 {
    millis as f64 / 1000.0
}

fn close_to(millis: i64, expected_degrees: f64) -> bool {
    (degrees(millis) - expected_degrees).abs() <= 0.0005 + 1e-9
}

#[test]
fn test_to_fahrenheit() {
    let celsius = Temperature::new(0, TempUnit::Celsius);
    let kelvin = Temperature::new(273150, TempUnit::Kelvin);
    let fahrenheit = Temperature::new(32000, TempUnit::Fahrenheit);

    let celsius_to_fahrenheit = celsius.to_fahrenheit();
    let kelvin_to_fahrenheit = kelvin.to_fahrenheit();
    let fahrenheit_to_fahrenheit = fahrenheit.to_fahrenheit();

    assert_eq!(celsius_to_fahrenheit.value, 32000);
    assert_eq!(celsius_to_fahrenheit.unit, TempUnit::Fahrenheit);
    assert_eq!(kelvin_to_fahrenheit.value, 32000);
    assert_eq!(kelvin_to_fahrenheit.unit, TempUnit::Fahrenheit);
    assert_eq!(fahrenheit_to_fahrenheit.value, 32000);
    assert_eq!(fahrenheit_to_fahrenheit.unit, TempUnit::Fahrenheit);
}

#[test]
fn test_to_celsius() {
    let fahrenheit = Temperature::new(32000, TempUnit::Fahrenheit);
    let kelvin = Temperature::new(273150, TempUnit::Kelvin);
    let celsius = Temperature::new(0, TempUnit::Celsius);

    let fahrenheit_to_celsius = fahrenheit.to_celsius();
    let kelvin_to_celsius = kelvin.to_celsius();
    let celsius_to_celsius = celsius.to_celsius();

    assert_eq!(fahrenheit_to_celsius.value, 0);
    assert_eq!(fahrenheit_to_celsius.unit, TempUnit::Celsius);
    assert_eq!(kelvin_to_celsius.value, 0);
    assert_eq!(kelvin_to_celsius.unit, TempUnit::Celsius);
    assert_eq!(celsius_to_celsius.value, 0);
    assert_eq!(celsius_to_celsius.unit, TempUnit::Celsius);
}

#[test]
fn test_to_kelvin() {
    let celsius = Temperature::new(0, TempUnit::Celsius);
    let kelvin = celsius.to_kelvin();
    assert_eq!(kelvin.value, 273150);
    assert_eq!(kelvin.unit, TempUnit::Kelvin);

    let fahrenheit = Temperature::new(32000, TempUnit::Fahrenheit);
    let kelvin = fahrenheit.to_kelvin();
    assert_eq!(kelvin.value, 273150 + (32000 - 32000) * 5 / 9);
    assert_eq!(kelvin.unit, TempUnit::Kelvin);

    let kelvin = Temperature::new(0, TempUnit::Kelvin);
    let kelvin_ = kelvin.to_kelvin();
    assert_eq!(kelvin_.value, 0);
    assert_eq!(kelvin_.unit, TempUnit::Kelvin);
}

#[test]
fn test_to_celsius_conversion() {
    for &value in SAMPLE_VALUES.iter() {
        for &unit in SAMPLE_UNITS.iter() {
            let temp = Temperature::new(value, unit);
            let v = degrees(value);
            let expected = match unit {
                TempUnit::Fahrenheit => (v - 32.0) * (5.0 / 9.0),
                TempUnit::Celsius => v,
                TempUnit::Kelvin => v - 273.15,
            };
            let got = temp.to_celsius();
            assert_eq!(got.unit, TempUnit::Celsius);
            assert!(close_to(got.value, expected), "{value} {unit:?} -> {}", got.value);
        }
    }
}

#[test]
fn test_to_fahrenheit_conversion() {
    for &value in SAMPLE_VALUES.iter() {
        for &unit in SAMPLE_UNITS.iter() {
            let temp = Temperature::new(value, unit);
            let v = degrees(value);
            let expected = match unit {
                TempUnit::Fahrenheit => v,
                TempUnit::Celsius => (v * (9.0 / 5.0)) + 32.0,
                TempUnit::Kelvin => (v - 273.15) * (9.0 / 5.0) + 32.0,
            };
            let got = temp.to_fahrenheit();
            assert_eq!(got.unit, TempUnit::Fahrenheit);
            assert!(close_to(got.value, expected), "{value} {unit:?} -> {}", got.value);
        }
    }
}

#[test]
fn test_to_kelvin_conversion() {
    for &value in SAMPLE_VALUES.iter() {
        for &unit in SAMPLE_UNITS.iter() {
            let temp = Temperature::new(value, unit);
            let v = degrees(value);
            let expected = match unit {
                TempUnit::Fahrenheit => (v - 32.0) * (5.0 / 9.0) + 273.15,
                TempUnit::Celsius => v + 273.15,
                TempUnit::Kelvin => v,
            };
            let got = temp.to_kelvin();
            assert_eq!(got.unit, TempUnit::Kelvin);
            assert!(close_to(got.value, expected), "{value} {unit:?} -> {}", got.value);
        }
    }
}

#[test]
fn fixed_point_fixtures() {
    assert_eq!(
        Temperature::new(273150, TempUnit::Kelvin).to_celsius(),
        Temperature::new(0, TempUnit::Celsius)
    );
    assert_eq!(
        Temperature::new(0, TempUnit::Celsius).to_fahrenheit(),
        Temperature::new(32000, TempUnit::Fahrenheit)
    );
    assert_eq!(
        Temperature::new(32000, TempUnit::Fahrenheit).to_kelvin(),
        Temperature::new(273150, TempUnit::Kelvin)
    );
}

#[test]
fn exact_formula_values() {
    // 100 °C is 212 °F; -40 is the same in both scales.
    assert_eq!(Temperature::new(100000, TempUnit::Celsius).to_fahrenheit().value, 212000);
    assert_eq!(Temperature::new(-40000, TempUnit::Fahrenheit).to_celsius().value, -40000);
    // 283.18 K is 10.03 °C and 50.054 °F.
    assert_eq!(Temperature::new(283180, TempUnit::Kelvin).to_celsius().value, 10030);
    assert_eq!(Temperature::new(283180, TempUnit::Kelvin).to_fahrenheit().value, 50054);
    // 1 °F is -17.2222... °C, kept to the nearest thousandth.
    assert_eq!(Temperature::new(1000, TempUnit::Fahrenheit).to_celsius().value, -17222);
    assert_eq!(Temperature::new(0, TempUnit::Fahrenheit).to_kelvin().value, 255372);
}

#[test]
fn kelvin_celsius_fahrenheit_round_trip() {
    for k in [0i64, 1, 255372, 273150, 283180, 300001, 1_000_000_000] {
        let c = Temperature::new(k, TempUnit::Kelvin).to_celsius();
        let back = c.to_fahrenheit().to_celsius();
        assert_eq!(back, c);
    }
}

#[test]
fn converting_twice_to_the_same_unit_changes_nothing() {
    for &value in SAMPLE_VALUES.iter() {
        for &from in SAMPLE_UNITS.iter() {
            for &to in SAMPLE_UNITS.iter() {
                let once = Temperature::new(value, from).convert(to);
                assert_eq!(once.unit, to);
                assert_eq!(once.convert(to), once);
            }
        }
    }
}

#[test]
fn bankers_rounding_fixture() {
    assert_eq!(round_half_even(65, 1, 0), DecimalValue { mantissa: 6, scale: 0 });
    assert_eq!(round_half_even(75, 1, 0), DecimalValue { mantissa: 8, scale: 0 });
    assert_eq!(round_half_even(-65, 1, 0), DecimalValue { mantissa: -6, scale: 0 });
    assert_eq!(round_half_even(123456, 3, 2), DecimalValue { mantissa: 12346, scale: 2 });
    assert_eq!(round_half_even(10025, 3, 2), DecimalValue { mantissa: 1002, scale: 2 });
    assert_eq!(round_half_even(10035, 3, 2), DecimalValue { mantissa: 1004, scale: 2 });
    // Fewer places than asked for: unchanged.
    assert_eq!(round_half_even(1003, 2, 2), DecimalValue { mantissa: 1003, scale: 2 });
}

#[test]
fn rounded_floor_and_ceil_degrees() {
    let t = Temperature::new(10030, TempUnit::Celsius);
    assert_eq!(t.rounded(2), DecimalValue { mantissa: 1003, scale: 2 });
    assert_eq!(t.rounded(0), DecimalValue { mantissa: 10, scale: 0 });
    assert_eq!(Temperature::new(9430, TempUnit::Celsius).floor_degrees(), 9);
    assert_eq!(Temperature::new(10770, TempUnit::Celsius).ceil_degrees(), 11);
    assert_eq!(Temperature::new(-9430, TempUnit::Celsius).floor_degrees(), -10);
    assert_eq!(Temperature::new(-9430, TempUnit::Celsius).ceil_degrees(), -9);
    assert_eq!(Temperature::new(12000, TempUnit::Celsius).floor_degrees(), 12);
    assert_eq!(Temperature::new(12000, TempUnit::Celsius).ceil_degrees(), 12);
}

#[test]
fn decimal_text() {
    assert_eq!(DecimalValue { mantissa: 1003, scale: 2 }.to_text(), "10.03");
    assert_eq!(DecimalValue { mantissa: 10030, scale: 3 }.to_text(), "10.03");
    assert_eq!(DecimalValue { mantissa: 12000, scale: 3 }.to_text(), "12");
    assert_eq!(DecimalValue { mantissa: -4, scale: 0 }.to_text(), "-4");
    assert_eq!(DecimalValue { mantissa: 5, scale: 1 }.to_text(), "0.5");
    assert_eq!(DecimalValue { mantissa: -105, scale: 2 }.to_text(), "-1.05");
    assert_eq!(DecimalValue { mantissa: 0, scale: 2 }.to_text(), "0");
}

#[test]
fn unit_symbols() {
    assert_eq!(unit_symbol(TempUnit::Celsius), "°C");
    assert_eq!(unit_symbol(TempUnit::Fahrenheit), "°F");
    assert_eq!(unit_symbol(TempUnit::Kelvin), "K");
}
