use vstd::prelude::*;

use vstd::arithmetic::div_mod::{lemma_fundamental_div_mod, lemma_mod_pos_bound};
use vstd::arithmetic::div_mod::lemma_div_pos_is_pos;

use crate::text::{digits_of, fixed_digits, push_char, push_digits, push_fixed_digits};

verus! {

/// The decimal number `mantissa / 10^scale`.
#[derive(Debug, Clone, Copy, PartialEq, Eq, Structural)]
pub struct DecimalValue {
    pub mantissa: i128,
    pub scale: u32,
}

/// Largest scale a decimal may carry.
pub const MAX_SCALE: u32 = 28;

pub open spec fn pow10(n: nat) -> int
    decreases n,
{
    if n == 0 {
        1
    } else {
        10 * pow10((n - 1) as nat)
    }
}

pub open spec fn abs(n: int) -> int {
    if n < 0 {
        -n
    } else {
        n
    }
}

/// `n / d` rounded to the nearest integer, ties to the even neighbour (for `d > 0`).
pub open spec fn half_even_div(n: int, d: int) -> int {
    let q = abs(n) / d;
    let r = abs(n) % d;
    let m = if 2 * r > d || (2 * r == d && q % 2 == 1) {
        q + 1
    } else {
        q
    };
    if n < 0 {
        -m
    } else {
        m
    }
}

/// `mantissa / 10^scale` rounded to `dp` decimal places with ties to even; a value
/// with at most `dp` places is kept as it is.
pub open spec fn round_dp_spec(mantissa: int, scale: nat, dp: nat) -> (int, nat) {
    if scale <= dp {
        (mantissa, scale)
    } else {
        (half_even_div(mantissa, pow10((scale - dp) as nat)), dp)
    }
}

/// Relies on rust_decimal: `Decimal::new(mantissa, scale)` is `mantissa / 10^scale`
/// (it panics above scale 28), `Decimal::round_dp` rounds to `dp` places with ties
/// to even and returns a value with at most `dp` places unchanged, and
/// `Decimal::mantissa` / `Decimal::scale` read the result back.
#[verifier::external_body]
fn decimal_round_dp(mantissa: i64, scale: u32, dp: u32) -> (r: DecimalValue)
    requires
        scale <= MAX_SCALE,
    ensures
        (r.mantissa as int, r.scale as nat) == round_dp_spec(
            mantissa as int,
            scale as nat,
            dp as nat,
        ),
{
    let d = rust_decimal::Decimal::new(mantissa, scale).round_dp(dp);
    DecimalValue { mantissa: d.mantissa(), scale: d.scale() }
}

/// Rounds `mantissa / 10^scale` to `dp` decimal places, ties to even
/// (6.5 becomes 6, 7.5 becomes 8).
pub fn round_half_even(mantissa: i64, scale: u32, dp: u32) -> (r: DecimalValue)
    requires
        scale <= MAX_SCALE,
    ensures
        (r.mantissa as int, r.scale as nat) == round_dp_spec(
            mantissa as int,
            scale as nat,
            dp as nat,
        ),
{
    decimal_round_dp(mantissa, scale, dp)
}

/// Rounding to fewer places never grows the magnitude by more than one.
pub proof fn lemma_half_even_bound(n: int, d: int)
    requires
        d >= 1,
    ensures
        abs(half_even_div(n, d)) <= abs(n) + 1,
{
    let a = abs(n);
    lemma_fundamental_div_mod(a, d);
    lemma_mod_pos_bound(a, d);
    lemma_div_pos_is_pos(a, d);
    let q = a / d;
    assert(q <= d * q) by (nonlinear_arith)
        requires
            d >= 1,
            q >= 0,
    {
    }
}

/// Drops trailing fractional zeros from the magnitude `a` at `scale` places.
pub open spec fn trimmed(a: nat, scale: nat) -> (nat, nat)
    decreases scale,
{
    if scale > 0 && a % 10 == 0 {
        trimmed(a / 10, (scale - 1) as nat)
    } else {
        (a, scale)
    }
}

/// The shortest plain text of `mantissa / 10^scale`: an optional `-`, the integer
/// digits, and the fractional digits after a `.` only where some are non-zero.
pub open spec fn decimal_text_spec(mantissa: int, scale: nat) -> Seq<char> {
    let (a, s) = trimmed(abs(mantissa) as nat, scale);
    let sign = if mantissa < 0 {
        seq!['-']
    } else {
        Seq::empty()
    };
    let whole = digits_of(((a as int) / pow10(s)) as nat);
    let frac = if s == 0 {
        Seq::empty()
    } else {
        seq!['.'] + fixed_digits(((a as int) % pow10(s)) as nat, s)
    };
    sign + whole + frac
}

fn pow10_exec(n: u32) -> (r: u128)
    requires
        n <= MAX_SCALE,
    ensures
        r == pow10(n as nat),
{
    proof {
        lemma_pow10_28();
        lemma_pow10_mono(0, 28);
    }
    let mut r: u128 = 1;
    let mut i: u32 = 0;
    while i < n
        invariant
            i <= n <= MAX_SCALE,
            r == pow10(i as nat),
            r <= pow10(28),
        decreases n - i,
    {
        proof {
            lemma_pow10_28();
            lemma_pow10_mono(i as nat + 1, 28);
            assert(pow10(i as nat + 1) == 10 * pow10(i as nat));
        }
        r = r * 10;
        i = i + 1;
    }
    r
}

proof fn lemma_pow10_28()
    ensures
        pow10(28) == 10_000_000_000_000_000_000_000_000_000,
{
    reveal_with_fuel(pow10, 29);
}

pub proof fn lemma_pow10_mono(a: nat, b: nat)
    requires
        a <= b,
    ensures
        1 <= pow10(a) <= pow10(b),
    decreases b,
{
    if a < b {
        lemma_pow10_mono(a, (b - 1) as nat);
    } else if a > 0 {
        lemma_pow10_mono((a - 1) as nat, (a - 1) as nat);
    }
}

impl DecimalValue {
    /// The number as text: `10.03`, `-4`, `0.5`.
    pub fn to_text(&self) -> (r: String)
        requires
            self.scale <= MAX_SCALE,
            self.mantissa > i128::MIN,
        ensures
            r@ == decimal_text_spec(self.mantissa as int, self.scale as nat),
    {
        let negative = self.mantissa < 0;
        let mut a: u128 = if negative {
            (-self.mantissa) as u128
        } else {
            self.mantissa as u128
        };
        let mut s: u32 = self.scale;
        while s > 0 && a % 10 == 0
            invariant
                s <= self.scale,
                trimmed(a as nat, s as nat) == trimmed(abs(self.mantissa as int) as nat, self.scale as nat),
            decreases s,
        {
            a = a / 10;
            s = s - 1;
        }
        assert(trimmed(a as nat, s as nat) == (a as nat, s as nat));
        let p = pow10_exec(s);
        proof {
            lemma_pow10_mono(s as nat, s as nat);
        }
        let mut out = String::new();
        if negative {
            push_char(&mut out, '-');
        }
        push_digits(&mut out, a / p);
        if s > 0 {
            push_char(&mut out, '.');
            push_fixed_digits(&mut out, a % p, s);
        }
        assert(out@ =~= decimal_text_spec(self.mantissa as int, self.scale as nat));
        out
    }
}

} // verus!
