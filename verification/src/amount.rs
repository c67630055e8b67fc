//! Amounts of arbitrary size, and the arithmetic on them that `num` performs.

use vstd::prelude::*;

use num::BigUint;
use num::FromPrimitive;
use std::convert::TryInto;
use std::ops::Sub;

verus! {

/// The number that base 2^32 digits stand for, least significant digit first.
pub open spec fn digits_value(digits: Seq<u32>) -> nat
    decreases digits.len(),
{
    if digits.len() == 0 {
        0
    } else {
        digits[0] as nat + 0x1_0000_0000 * digits_value(digits.drop_first())
    }
}

/// A non-negative integer of any size, held as base 2^32 digits, least
/// significant digit first.
///
/// `==` on two amounts compares the digits. Amounts that this module computes
/// carry no leading zero digit, so that equal numbers have equal digits;
/// [`Amount::is_equal`] compares the numbers whatever the digits.
#[derive(Debug, PartialEq, Eq)]
pub struct Amount {
    digits: Vec<u32>,
}

impl View for Amount {
    type V = nat;

    closed spec fn view(&self) -> nat {
        digits_value(self.digits@)
    }
}

impl Clone for Amount {
    fn clone(&self) -> (copy: Amount)
        ensures
            copy@ == self@,
    {
        Amount { digits: self.digits.clone() }
    }
}

impl Amount {
    /// The amount with the given base 2^32 digits, least significant first.
    pub fn new(digits: Vec<u32>) -> (amount: Amount)
        ensures
            amount@ == digits_value(digits@),
    {
        Amount { digits }
    }

    /// The amount `n`.
    pub fn from_u64(n: u64) -> (amount: Amount)
        ensures
            amount@ == n,
    {
        let low: u32 = (n % 0x1_0000_0000) as u32;
        let high: u32 = (n / 0x1_0000_0000) as u32;
        let mut digits: Vec<u32> = Vec::new();
        if high != 0 {
            digits.push(low);
            digits.push(high);
            proof {
                reveal_with_fuel(digits_value, 3);
                assert(digits@.drop_first() =~= seq![high]);
                assert(digits@.drop_first().drop_first() =~= Seq::<u32>::empty());
            }
        } else if low != 0 {
            digits.push(low);
            proof {
                reveal_with_fuel(digits_value, 2);
                assert(digits@.drop_first() =~= Seq::<u32>::empty());
            }
        }
        Amount { digits }
    }

    /// The base 2^32 digits of the amount, least significant first.
    pub fn to_u32_digits(&self) -> (digits: Vec<u32>)
        ensures
            digits_value(digits@) == self@,
    {
        self.digits.clone()
    }

    /// Whether the two amounts are the same number.
    pub fn is_equal(&self, other: &Amount) -> (same: bool)
        ensures
            same == (self@ == other@),
    {
        equal_numbers(&self.digits, &other.digits)
    }

    /// The remainder of the amount on division by `modulus`.
    pub fn rem(&self, modulus: i64) -> (remainder: i64)
        requires
            modulus > 0,
        ensures
            remainder == self@ % (modulus as nat),
    {
        first_power_modulo(&self.digits, modulus)
    }

    /// The amount less `small`.
    pub fn minus(&self, small: i64) -> (rest: Amount)
        requires
            0 <= small <= self@,
        ensures
            rest@ == self@ - small,
    {
        Amount { digits: difference(&self.digits, small) }
    }
}

/// `BigUint::modpow` of `num`, with the exponent one: the number that `digits`
/// stand for, reduced modulo `modulus`. The call panics on a modulus of zero,
/// which `requires` leaves out. The result is below `modulus`, so it is
/// returned as an `i64`.
#[verifier::external_body]
fn first_power_modulo(digits: &Vec<u32>, modulus: i64) -> (remainder: i64)
    requires
        modulus > 0,
    ensures
        remainder == digits_value(digits@) % (modulus as nat),
{
    let modulus = BigUint::from_i64(modulus).unwrap();
    let one = BigUint::from_u8(1u8).unwrap();
    let remainder = BigUint::from_slice(digits).modpow(&one, &modulus);
    remainder.try_into().unwrap()
}

/// `Sub::sub` of `num` on two `BigUint`: the number that `digits` stand for,
/// less `small`, as digits again. The call panics where the result would be
/// negative, which `requires` leaves out.
#[verifier::external_body]
fn difference(digits: &Vec<u32>, small: i64) -> (rest: Vec<u32>)
    requires
        0 <= small <= digits_value(digits@),
    ensures
        digits_value(rest@) == digits_value(digits@) - small,
{
    let small = BigUint::from_i64(small).unwrap();
    BigUint::from_slice(digits).sub(&small).to_u32_digits()
}

/// `PartialEq::eq` of `num` on two `BigUint`: whether the two sequences of
/// digits stand for the same number. `BigUint::from_slice` drops leading zero
/// digits, after which `eq` compares digit by digit.
#[verifier::external_body]
fn equal_numbers(left: &Vec<u32>, right: &Vec<u32>) -> (same: bool)
    ensures
        same == (digits_value(left@) == digits_value(right@)),
{
    BigUint::from_slice(left) == BigUint::from_slice(right)
}

} // verus!
