use vstd::prelude::*;
use crate::decimal::{round_dp_spec, round_half_even, DecimalValue};
use vstd::arithmetic::div_mod::{
    lemma_fundamental_div_mod, lemma_fundamental_div_mod_converse, lemma_mod_bound, lemma_mod_pos_bound,
};

verus! {

/// The unit a temperature magnitude is expressed in.
#[derive(Debug, Clone, Copy, PartialEq, Eq, Structural)]
pub enum TempUnit {
    Celsius,
    Fahrenheit,
    Kelvin,
}

/// 273.15 degrees, in thousandths.
pub const KELVIN_OFFSET: i64 = 273150;

/// 32 degrees, in thousandths.
pub const FAHRENHEIT_OFFSET: i64 = 32000;

/// Largest magnitude (in thousandths) that the unit conversions accept.
pub const CONVERTIBLE_LIMIT: i64 = 4_000_000_000_000_000;

/// Largest magnitude (in thousandths) accepted as a reading.
pub const READING_LIMIT: i64 = 1_000_000_000_000_000;

/// `n / d` rounded to the nearest integer (halves upward).
pub open spec fn nearest(n: int, d: int) -> int {
    (2 * n + d) / (2 * d)
}

/// The magnitude of `t` in `unit`, in thousandths, rounded to the nearest thousandth.
///
/// `C = K - 273.15`, `K = C + 273.15`, `F = C * 9/5 + 32`, `C = (F - 32) * 5/9`,
/// `F = (K - 273.15) * 9/5 + 32`, `K = (F - 32) * 5/9 + 273.15`.
pub open spec fn value_in(t: Temperature, unit: TempUnit) -> int {
    let v = t.value as int;
    match (t.unit, unit) {
        (TempUnit::Celsius, TempUnit::Celsius) => v,
        (TempUnit::Celsius, TempUnit::Fahrenheit) => nearest(v * 9, 5) + FAHRENHEIT_OFFSET,
        (TempUnit::Celsius, TempUnit::Kelvin) => v + KELVIN_OFFSET,
        (TempUnit::Fahrenheit, TempUnit::Celsius) => nearest((v - FAHRENHEIT_OFFSET) * 5, 9),
        (TempUnit::Fahrenheit, TempUnit::Fahrenheit) => v,
        (TempUnit::Fahrenheit, TempUnit::Kelvin) => nearest((v - FAHRENHEIT_OFFSET) * 5, 9)
            + KELVIN_OFFSET,
        (TempUnit::Kelvin, TempUnit::Celsius) => v - KELVIN_OFFSET,
        (TempUnit::Kelvin, TempUnit::Fahrenheit) => nearest((v - KELVIN_OFFSET) * 9, 5)
            + FAHRENHEIT_OFFSET,
        (TempUnit::Kelvin, TempUnit::Kelvin) => v,
    }
}

/// A magnitude paired with its unit. The magnitude is in thousandths of a degree.
#[derive(Debug, Clone, Copy, PartialEq, Eq, Structural)]
pub struct Temperature {
    pub value: i64,
    pub unit: TempUnit,
}

/// The display symbol of a unit.
pub fn unit_symbol(unit: TempUnit) -> (r: &'static str)
    ensures
        r@ == unit_symbol_spec(unit),
{
    proof {
        reveal_strlit("°C");
        reveal_strlit("°F");
        reveal_strlit("K");
    }
    match unit {
        TempUnit::Celsius => "°C",
        TempUnit::Fahrenheit => "°F",
        TempUnit::Kelvin => "K",
    }
}

pub open spec fn unit_symbol_spec(unit: TempUnit) -> Seq<char> {
    match unit {
        TempUnit::Celsius => seq!['°', 'C'],
        TempUnit::Fahrenheit => seq!['°', 'F'],
        TempUnit::Kelvin => seq!['K'],
    }
}

/// Rounds `n / d` to the nearest integer (halves upward), for a small positive `d`.
fn nearest_div(n: i128, d: i128) -> (q: i128)
    requires
        0 < d <= 9,
        -0x1000_0000_0000_0000_0000 <= n <= 0x1000_0000_0000_0000_0000,
    ensures
        q == nearest(n as int, d as int),
        2 * d * q <= 2 * n + d < 2 * d * q + 2 * d,
{
    let num: i128 = 2 * n + d;
    let den: i128 = 2 * d;
    if num >= 0 {
        let q = ((num as u128) / (den as u128)) as i128;
        proof {
            lemma_fundamental_div_mod(num as int, den as int);
            lemma_mod_pos_bound(num as int, den as int);
            assert(2 * d * q == den * q) by (nonlinear_arith)
                requires
                    den == 2 * d,
            {
            }
        }
        q
    } else {
        let m: u128 = (-num) as u128;
        let c: u128 = (m + (den as u128) - 1) / (den as u128);
        let q: i128 = -(c as i128);
        proof {
            let mi = m as int;
            let di = den as int;
            let ci = c as int;
            lemma_fundamental_div_mod(mi + di - 1, di);
            lemma_mod_pos_bound(mi + di - 1, di);
            assert(0 <= di * ci - mi < di);
            assert(di * (q as int) == -(di * ci)) by (nonlinear_arith)
                requires
                    q as int == -ci,
            {
            }
            lemma_fundamental_div_mod_converse(num as int, di, q as int, di * ci - mi);
            assert(2 * d * q == den * q) by (nonlinear_arith)
                requires
                    den == 2 * d,
            {
            }
        }
        q
    }
}

/// `nearest(n, d)` is within half of `d` of `n / d`.
pub proof fn lemma_nearest(n: int, d: int)
    requires
        d > 0,
    ensures
        2 * d * nearest(n, d) <= 2 * n + d < 2 * d * nearest(n, d) + 2 * d,
{
    lemma_fundamental_div_mod(2 * n + d, 2 * d);
    lemma_mod_bound(2 * n + d, 2 * d);
    assert(2 * d * nearest(n, d) == (2 * d) * ((2 * n + d) / (2 * d)));
}

/// Rounds `v / 1000` down, for `v` of either sign.
fn floor_thousandths(v: i64) -> (r: i64)
    ensures
        r == (v as int) / 1000,
{
    if v >= 0 {
        v / 1000
    } else {
        let m: u64 = (-(v as i128)) as u64;
        let c: u64 = (m + 999) / 1000;
        let r: i64 = -(c as i64);
        proof {
            lemma_fundamental_div_mod(m + 999, 1000);
            lemma_mod_pos_bound(m + 999, 1000);
            lemma_fundamental_div_mod_converse(v as int, 1000, r as int, 1000 * c - m);
        }
        r
    }
}

impl Temperature {
    /// The conversions accept a magnitude of at most `CONVERTIBLE_LIMIT` thousandths.
    pub open spec fn convertible(&self) -> bool {
        -CONVERTIBLE_LIMIT <= self.value <= CONVERTIBLE_LIMIT
    }

    /// A reading of at most `READING_LIMIT` thousandths in magnitude.
    pub open spec fn is_reading(&self) -> bool {
        -READING_LIMIT <= self.value <= READING_LIMIT
    }

    pub fn new(value: i64, unit: TempUnit) -> (r: Self)
        ensures
            r.value == value,
            r.unit == unit,
    {
        Temperature { value, unit }
    }

    /// Converts to `unit`; converting to the current unit is the identity.
    pub fn convert(&self, unit: TempUnit) -> (r: Temperature)
        requires
            self.convertible(),
        ensures
            r.unit == unit,
            r.value == value_in(*self, unit),
    {
        let v = self.value as i128;
        let k = KELVIN_OFFSET as i128;
        let f = FAHRENHEIT_OFFSET as i128;
        let out: i128 = match (self.unit, unit) {
            (TempUnit::Celsius, TempUnit::Fahrenheit) => nearest_div(v * 9, 5) + f,
            (TempUnit::Celsius, TempUnit::Kelvin) => v + k,
            (TempUnit::Fahrenheit, TempUnit::Celsius) => nearest_div((v - f) * 5, 9),
            (TempUnit::Fahrenheit, TempUnit::Kelvin) => nearest_div((v - f) * 5, 9) + k,
            (TempUnit::Kelvin, TempUnit::Celsius) => v - k,
            (TempUnit::Kelvin, TempUnit::Fahrenheit) => nearest_div((v - k) * 9, 5) + f,
            _ => v,
        };
        assert(-8_000_000_000_000_000 <= out <= 8_000_000_000_000_000);
        Temperature { value: out as i64, unit }
    }

    /// The magnitude in degrees, rounded to `dp` decimal places with ties to even.
    pub fn rounded(&self, dp: u32) -> (r: DecimalValue)
        ensures
            (r.mantissa as int, r.scale as nat) == round_dp_spec(self.value as int, 3, dp as nat),
    {
        round_half_even(self.value, 3, dp)
    }

    /// The magnitude in whole degrees, rounded down.
    pub fn floor_degrees(&self) -> (r: i64)
        ensures
            r == (self.value as int) / 1000,
    {
        floor_thousandths(self.value)
    }

    /// The magnitude in whole degrees, rounded up.
    pub fn ceil_degrees(&self) -> (r: i64)
        ensures
            r == -((-(self.value as int)) / 1000),
    {
        if self.value == i64::MIN {
            // Negating i64::MIN overflows, so negate in a wider type.
            let m: i128 = -(self.value as i128);
            let q: i128 = m / 1000;
            -(q as i64)
        } else {
            -floor_thousandths(-self.value)
        }
    }

    pub fn to_fahrenheit(&self) -> (r: Temperature)
        requires
            self.convertible(),
        ensures
            r.unit == TempUnit::Fahrenheit,
            r.value == value_in(*self, TempUnit::Fahrenheit),
    {
        self.convert(TempUnit::Fahrenheit)
    }

    pub fn to_celsius(&self) -> (r: Temperature)
        requires
            self.convertible(),
        ensures
            r.unit == TempUnit::Celsius,
            r.value == value_in(*self, TempUnit::Celsius),
    {
        self.convert(TempUnit::Celsius)
    }

    pub fn to_kelvin(&self) -> (r: Temperature)
        requires
            self.convertible(),
        ensures
            r.unit == TempUnit::Kelvin,
            r.value == value_in(*self, TempUnit::Kelvin),
    {
        self.convert(TempUnit::Kelvin)
    }
}

/// Celsius to Fahrenheit and back gives the Celsius magnitude unchanged: for a Kelvin
/// reading `k`, `toCelsius(toFahrenheit(toCelsius(k)))` equals `toCelsius(k)`.
pub proof fn law_celsius_round_trip(k: Temperature)
    requires
        k.unit == TempUnit::Kelvin,
        k.is_reading(),
    ensures
        ({
            let c = Temperature { value: value_in(k, TempUnit::Celsius) as i64, unit: TempUnit::Celsius };
            let f = Temperature { value: value_in(c, TempUnit::Fahrenheit) as i64, unit: TempUnit::Fahrenheit };
            &&& c.convertible()
            &&& f.convertible()
            &&& value_in(f, TempUnit::Celsius) == value_in(k, TempUnit::Celsius)
        }),
{
    let cv = k.value - KELVIN_OFFSET;
    let c = Temperature { value: cv as i64, unit: TempUnit::Celsius };
    lemma_nearest(cv * 9, 5);
    let q = nearest(cv * 9, 5);
    let f = Temperature { value: (q + FAHRENHEIT_OFFSET) as i64, unit: TempUnit::Fahrenheit };
    assert(value_in(c, TempUnit::Fahrenheit) == q + FAHRENHEIT_OFFSET);
    assert(value_in(f, TempUnit::Celsius) == nearest(q * 5, 9));
    lemma_fundamental_div_mod_converse(2 * (q * 5) + 9, 18, cv, 10 * q + 9 - 18 * cv);
}

/// Converting yields the requested unit, and converting that result to the same unit
/// again is the identity.
pub proof fn law_convert_same_unit(t: Temperature, u: TempUnit)
    requires
        t.convertible(),
    ensures
        value_in(t, t.unit) == t.value,
        ({
            let once = Temperature { value: value_in(t, u) as i64, unit: u };
            &&& once.value == value_in(t, u)
            &&& value_in(once, u) == once.value
        }),
{
    lemma_nearest(t.value * 9, 5);
    lemma_nearest((t.value - FAHRENHEIT_OFFSET) * 5, 9);
    lemma_nearest((t.value - KELVIN_OFFSET) * 9, 5);
}

} // verus!
