//! Satoshi amounts and their decimal text.

use vstd::prelude::*;

verus! {

/// Satoshis in one coin unit.
pub const SAT_PER_BTC: u64 = 100_000_000;

/// The character of a single decimal digit.
pub open spec fn digit_char(d: nat) -> char {
    seq!['0', '1', '2', '3', '4', '5', '6', '7', '8', '9'][d as int]
}

/// Decimal text of a natural number, without leading zeros.
pub open spec fn decimal_text(n: nat) -> Seq<char>
    decreases n,
{
    if n < 10 {
        seq![digit_char(n)]
    } else {
        decimal_text(n / 10).push(digit_char(n % 10))
    }
}

/// The `width` lowest decimal digits of `n`, padded on the left with zeros.
pub open spec fn padded_digits(n: nat, width: nat) -> Seq<char>
    decreases width,
{
    if width == 0 {
        Seq::empty()
    } else {
        padded_digits(n / 10, (width - 1) as nat).push(digit_char(n % 10))
    }
}

/// `s` without its trailing `'0'` characters.
pub open spec fn strip_trailing_zeros(s: Seq<char>) -> Seq<char>
    decreases s.len(),
{
    if s.len() > 0 && s.last() == '0' {
        strip_trailing_zeros(s.drop_last())
    } else {
        s
    }
}

/// A satoshi amount as coin units with no unit name: the whole part, then,
/// only when the amount is not whole, a point and the fraction without its
/// trailing zeros (`20`, `29.99999859`).
pub open spec fn btc_plain_text(sat: u64) -> Seq<char> {
    let whole = decimal_text((sat / SAT_PER_BTC) as nat);
    if sat % SAT_PER_BTC == 0 {
        whole
    } else {
        whole + seq!['.'] + strip_trailing_zeros(padded_digits((sat % SAT_PER_BTC) as nat, 8))
    }
}

/// A satoshi amount as coin units with the unit name: a whole amount has no
/// fraction (`50 BTC`), any other has all eight fraction digits
/// (`0.00000141 BTC`).
pub open spec fn btc_unit_text(sat: u64) -> Seq<char> {
    let whole = decimal_text((sat / SAT_PER_BTC) as nat);
    let number = if sat % SAT_PER_BTC == 0 {
        whole
    } else {
        whole + seq!['.'] + padded_digits((sat % SAT_PER_BTC) as nat, 8)
    };
    number + seq![' ', 'B', 'T', 'C']
}

/// Relies on the standard library's `Display` for `u64`: plain decimal digits.
#[verifier::external_body]
pub(crate) fn u64_text(n: u64) -> (r: String)
    ensures
        r@ == decimal_text(n as nat),
{
    n.to_string()
}

/// Relies on `bitcoin::Amount::display_in` with `Denomination::Bitcoin` and no
/// precision requested: the fraction loses its trailing zeros and no unit is
/// shown.
#[verifier::external_body]
pub(crate) fn btc_plain(sat: u64) -> (r: String)
    ensures
        r@ == btc_plain_text(sat),
{
    bitcoin::Amount::from_sat(sat).display_in(bitcoin::Denomination::Bitcoin).to_string()
}

/// Relies on the `Display` of `bitcoin::Amount`: coin units with the unit
/// name, and eight fraction digits unless the amount is whole.
#[verifier::external_body]
pub(crate) fn btc_with_unit(sat: u64) -> (r: String)
    ensures
        r@ == btc_unit_text(sat),
{
    bitcoin::Amount::from_sat(sat).to_string()
}

} // verus!
