use rust_decimal::Decimal;
use std::str::FromStr;
use vstd::prelude::*;
use vstd::string::*;

verus! {

/// Largest mantissa magnitude a `rust_decimal::Decimal` holds (96 bits).
pub const MAX_MANTISSA: u128 = 0xFFFF_FFFF_FFFF_FFFF_FFFF_FFFF;

/// Largest number of fractional digits a `rust_decimal::Decimal` holds.
pub const MAX_SCALE: u32 = 28;

pub open spec fn pow10(n: nat) -> nat
    decreases n,
{
    if n == 0 {
        1
    } else {
        10 * pow10((n - 1) as nat)
    }
}

pub open spec fn digit_char(d: nat) -> char {
    (('0' as u8) + (d as u8)) as char
}

/// Decimal digits of `n`, most significant first, without leading zeros ("0" for zero).
pub open spec fn nat_text(n: nat) -> Seq<char>
    decreases n,
{
    if n < 10 {
        seq![digit_char(n)]
    } else {
        nat_text(n / 10).push(digit_char(n % 10))
    }
}

/// The lowest `width` decimal digits of `n`, zero-padded on the left.
pub open spec fn padded_digits(n: nat, width: nat) -> Seq<char>
    decreases width,
{
    if width == 0 {
        Seq::empty()
    } else {
        padded_digits(n / 10, (width - 1) as nat).push(digit_char(n % 10))
    }
}

/// Text of the non-negative decimal `mantissa / 10^scale` with exactly `scale` fractional digits.
pub open spec fn decimal_text(mantissa: nat, scale: nat) -> Seq<char> {
    nat_text(mantissa / pow10(scale)) + seq!['.'] + padded_digits(mantissa % pow10(scale), scale)
}

/// `m / d` rounded to the nearest integer, ties going to the even neighbour.
pub open spec fn round_half_even(m: nat, d: nat) -> nat {
    let q = m / d;
    let r = m % d;
    if 2 * r > d || (2 * r == d && q % 2 == 1) {
        q + 1
    } else {
        q
    }
}

/// The (mantissa, scale) that `rust_decimal` reads from a text, if it accepts the text.
pub uninterp spec fn decimal_parse(s: Seq<char>) -> Option<(i128, u32)>;

/// Relies on `Decimal::from_i128_with_scale`, `Decimal::round_dp` (midpoint to even) and
/// `Decimal::mantissa`: `mantissa / 10^scale` rounded to `dp` fractional digits, returned as a
/// mantissa over `10^dp`.
#[verifier::external_body]
pub(crate) fn round_dp(mantissa: u128, scale: u32, dp: u32) -> (r: u128)
    requires
        mantissa <= MAX_MANTISSA,
        scale <= MAX_SCALE,
        dp < scale,
    ensures
        r == round_half_even(mantissa as nat, pow10((scale - dp) as nat)),
{
    Decimal::from_i128_with_scale(mantissa as i128, scale).round_dp(dp).mantissa() as u128
}

/// Relies on `Decimal::from_i128_with_scale` and `Decimal`'s `Display`: integer digits, a point,
/// then all `scale` fractional digits.
#[verifier::external_body]
pub(crate) fn decimal_to_string(mantissa: u128, scale: u32) -> (r: String)
    requires
        mantissa <= MAX_MANTISSA,
        1 <= scale <= MAX_SCALE,
    ensures
        r@ == decimal_text(mantissa as nat, scale as nat),
{
    Decimal::from_i128_with_scale(mantissa as i128, scale).to_string()
}

/// Relies on `Decimal::from_str`, `Decimal::mantissa` and `Decimal::scale`.
#[verifier::external_body]
pub(crate) fn parse_decimal(s: &str) -> (r: Option<(i128, u32)>)
    ensures
        r == decimal_parse(s@),
{
    Decimal::from_str(s).ok().map(|d| (d.mantissa(), d.scale()))
}

/// The one-character text of a decimal digit.
fn digit_str(d: u64) -> (r: &'static str)
    requires
        d < 10,
    ensures
        r@ == seq![digit_char(d as nat)],
{
    let r = if d == 0 {
        "0"
    } else if d == 1 {
        "1"
    } else if d == 2 {
        "2"
    } else if d == 3 {
        "3"
    } else if d == 4 {
        "4"
    } else if d == 5 {
        "5"
    } else if d == 6 {
        "6"
    } else if d == 7 {
        "7"
    } else if d == 8 {
        "8"
    } else {
        "9"
    };
    proof {
        reveal_strlit("0");
        reveal_strlit("1");
        reveal_strlit("2");
        reveal_strlit("3");
        reveal_strlit("4");
        reveal_strlit("5");
        reveal_strlit("6");
        reveal_strlit("7");
        reveal_strlit("8");
        reveal_strlit("9");
        assert(r@ =~= seq![digit_char(d as nat)]);
    }
    r
}

/// Decimal digits of `n` without leading zeros.
pub fn u64_to_string(n: u64) -> (r: String)
    ensures
        r@ == nat_text(n as nat),
    decreases n,
{
    if n < 10 {
        <String as StringExecFns>::from_str(digit_str(n))
    } else {
        let mut s = u64_to_string(n / 10);
        s.append(digit_str(n % 10));
        assert(s@ =~= nat_text(n as nat));
        s
    }
}

} // verus!
