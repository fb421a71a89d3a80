//! Amounts of the vault's unit: 128-bit unsigned integers, with the arithmetic
//! that never panics and never wraps.

use vstd::prelude::*;

verus! {

/// `total` after `amount` has come in: the sum where it fits in 128 bits,
/// and `total` unchanged where it does not.
pub open spec fn credited(total: u128, amount: u128) -> u128 {
    if total + amount <= u128::MAX {
        (total + amount) as u128
    } else {
        total
    }
}

/// `total` after `amount` has been paid out: the difference where `amount` is
/// covered, and `total` unchanged where it is not.
pub open spec fn debited(total: u128, amount: u128) -> u128 {
    if amount <= total {
        (total - amount) as u128
    } else {
        total
    }
}

/// The decimal digit for `d`, which is below ten.
pub open spec fn digit(d: nat) -> char {
    if d == 0 {
        '0'
    } else if d == 1 {
        '1'
    } else if d == 2 {
        '2'
    } else if d == 3 {
        '3'
    } else if d == 4 {
        '4'
    } else if d == 5 {
        '5'
    } else if d == 6 {
        '6'
    } else if d == 7 {
        '7'
    } else if d == 8 {
        '8'
    } else {
        '9'
    }
}

/// `n` in decimal notation: no sign, no separators, no leading zero but for
/// zero itself.
pub open spec fn decimal(n: nat) -> Seq<char>
    decreases n,
{
    if n < 10 {
        seq![digit(n)]
    } else {
        decimal(n / 10).push(digit(n % 10))
    }
}

/// `cosmwasm_std::Uint128::checked_add` on the two numbers: the sum, or nothing
/// where the sum does not fit in 128 bits.
#[verifier::external_body]
fn uint128_checked_add(a: u128, b: u128) -> (sum: Option<u128>)
    ensures
        sum == (if a + b <= u128::MAX {
            Some((a + b) as u128)
        } else {
            None
        }),
{
    match cosmwasm_std::Uint128::new(a).checked_add(cosmwasm_std::Uint128::new(b)) {
        Ok(v) => Some(v.u128()),
        Err(_) => None,
    }
}

/// `cosmwasm_std::Uint128::checked_sub` on the two numbers: the difference, or
/// nothing where `b` is the larger.
#[verifier::external_body]
fn uint128_checked_sub(a: u128, b: u128) -> (difference: Option<u128>)
    ensures
        difference == (if b <= a {
            Some((a - b) as u128)
        } else {
            None
        }),
{
    match cosmwasm_std::Uint128::new(a).checked_sub(cosmwasm_std::Uint128::new(b)) {
        Ok(v) => Some(v.u128()),
        Err(_) => None,
    }
}

/// The text that `cosmwasm_std::Uint128` displays for the number, which is the
/// one its `u128` displays: plain decimal notation.
#[verifier::external_body]
fn uint128_text(a: u128) -> (text: String)
    ensures
        text@ == decimal(a as nat),
{
    cosmwasm_std::Uint128::new(a).to_string()
}

/// Adds `amount` to `total`; where the sum would overflow, the addition is
/// dropped and `total` comes back as it was.
pub fn credit(total: u128, amount: u128) -> (new_total: u128)
    ensures
        new_total == credited(total, amount),
{
    match uint128_checked_add(total, amount) {
        Some(sum) => sum,
        None => total,
    }
}

/// Takes `amount` from `total`; where `amount` is more than `total`, the
/// subtraction is dropped and `total` comes back as it was.
pub fn debit(total: u128, amount: u128) -> (new_total: u128)
    ensures
        new_total == debited(total, amount),
{
    match uint128_checked_sub(total, amount) {
        Some(difference) => difference,
        None => total,
    }
}

/// The amount as it is written in a response: in decimal notation.
pub fn amount_text(amount: u128) -> (text: String)
    ensures
        text@ == decimal(amount as nat),
{
    uint128_text(amount)
}

} // verus!
