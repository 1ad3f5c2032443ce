//! Arbitrary-precision unsigned amounts.
//!
//! An [`Amount`] counts atoms of some token. It is stored as big-endian bytes and
//! its mathematical value is a `nat`. All arithmetic is carried out by
//! `num_bigint::BigUint`, so no intermediate result is ever narrowed.

use vstd::prelude::*;
use num_bigint::BigUint;
use num_traits::ToPrimitive;
use crate::strings::decimal_digits;

verus! {

/// The natural number that a big-endian byte string denotes.
pub open spec fn be_value(s: Seq<u8>) -> nat
    decreases s.len(),
{
    if s.len() == 0 {
        0
    } else {
        be_value(s.drop_last()) * 256 + s.last() as nat
    }
}

/// An unsigned integer of arbitrary size, in a token's smallest unit.
#[derive(Debug)]
pub struct Amount {
    bytes: Vec<u8>,
}

impl View for Amount {
    type V = nat;

    closed spec fn view(&self) -> nat {
        be_value(self.bytes@)
    }
}

/// `BigUint::from(u128)` followed by `BigUint::to_bytes_be`: the bytes denote `v`.
#[verifier::external_body]
fn big_from_u128(v: u128) -> (r: Amount)
    ensures
        r@ == v,
{
    Amount { bytes: BigUint::from(v).to_bytes_be() }
}

/// `ToPrimitive::to_u128` on a `BigUint`: the value itself when it fits in 128 bits,
/// `None` when it does not.
#[verifier::external_body]
fn big_to_u128(a: &Amount) -> (r: Option<u128>)
    ensures
        a@ <= u128::MAX ==> r == Some(a@ as u128),
        a@ > u128::MAX ==> r.is_none(),
{
    BigUint::from_bytes_be(&a.bytes).to_u128()
}

/// `BigUint + BigUint`: the exact sum.
#[verifier::external_body]
fn big_add(a: &Amount, b: &Amount) -> (r: Amount)
    ensures
        r@ == a@ + b@,
{
    Amount { bytes: (BigUint::from_bytes_be(&a.bytes) + BigUint::from_bytes_be(&b.bytes)).to_bytes_be() }
}

/// `BigUint - BigUint`, which panics when the result would be negative: the exact
/// difference where the subtrahend is no larger.
#[verifier::external_body]
fn big_sub(a: &Amount, b: &Amount) -> (r: Amount)
    requires
        b@ <= a@,
    ensures
        r@ == a@ - b@,
{
    Amount { bytes: (BigUint::from_bytes_be(&a.bytes) - BigUint::from_bytes_be(&b.bytes)).to_bytes_be() }
}

/// `BigUint * BigUint`: the exact product.
#[verifier::external_body]
fn big_mul(a: &Amount, b: &Amount) -> (r: Amount)
    ensures
        r@ == a@ * b@,
{
    Amount { bytes: (BigUint::from_bytes_be(&a.bytes) * BigUint::from_bytes_be(&b.bytes)).to_bytes_be() }
}

/// `BigUint / BigUint`, which panics on a zero divisor: the quotient rounded down.
#[verifier::external_body]
fn big_div(a: &Amount, b: &Amount) -> (r: Amount)
    requires
        b@ != 0,
    ensures
        r@ == a@ / b@,
{
    Amount { bytes: (BigUint::from_bytes_be(&a.bytes) / BigUint::from_bytes_be(&b.bytes)).to_bytes_be() }
}

/// `BigUint::to_string`: the value in decimal, without leading zeros.
#[verifier::external_body]
fn big_to_decimal(a: &Amount) -> (r: String)
    ensures
        r@ == decimal_digits(a@),
{
    BigUint::from_bytes_be(&a.bytes).to_string()
}

/// `BigUint <= BigUint`: the order of the two values.
#[verifier::external_body]
fn big_le(a: &Amount, b: &Amount) -> (r: bool)
    ensures
        r == (a@ <= b@),
{
    BigUint::from_bytes_be(&a.bytes) <= BigUint::from_bytes_be(&b.bytes)
}

impl Amount {
    /// The amount zero.
    pub fn zero() -> (r: Amount)
        ensures
            r@ == 0,
    {
        big_from_u128(0u128)
    }

    /// The amount `v`.
    pub fn from_u64(v: u64) -> (r: Amount)
        ensures
            r@ == v,
    {
        big_from_u128(v as u128)
    }

    /// The amount `v`.
    pub fn from_u128(v: u128) -> (r: Amount)
        ensures
            r@ == v,
    {
        big_from_u128(v)
    }

    /// The amount that the big-endian bytes `bytes` denote.
    pub fn from_be_bytes(bytes: Vec<u8>) -> (r: Amount)
        ensures
            r@ == be_value(bytes@),
    {
        Amount { bytes }
    }

    /// Big-endian bytes that denote this amount.
    pub fn to_be_bytes(&self) -> (r: Vec<u8>)
        ensures
            be_value(r@) == self@,
    {
        self.bytes.clone()
    }

    /// The value as a `u128`, where it fits.
    pub fn to_u128(&self) -> (r: Option<u128>)
        ensures
            self@ <= u128::MAX ==> r == Some(self@ as u128),
            self@ > u128::MAX ==> r.is_none(),
    {
        big_to_u128(self)
    }

    /// The value as a `u64`, where it fits.
    pub fn to_u64(&self) -> (r: Option<u64>)
        ensures
            self@ <= u64::MAX ==> r == Some(self@ as u64),
            self@ > u64::MAX ==> r.is_none(),
    {
        match big_to_u128(self) {
            Some(v) => {
                if v <= 0xffff_ffff_ffff_ffffu128 {
                    Some(v as u64)
                } else {
                    None
                }
            },
            None => None,
        }
    }

    /// The amount in decimal.
    pub fn to_decimal(&self) -> (r: String)
        ensures
            r@ == decimal_digits(self@),
    {
        big_to_decimal(self)
    }

    /// A copy of this amount.
    pub fn duplicate(&self) -> (r: Amount)
        ensures
            r@ == self@,
    {
        Amount { bytes: self.bytes.clone() }
    }

    pub fn is_zero(&self) -> (r: bool)
        ensures
            r == (self@ == 0),
    {
        let z = Amount::zero();
        big_le(self, &z)
    }

    /// `self <= other`
    pub fn le(&self, other: &Amount) -> (r: bool)
        ensures
            r == (self@ <= other@),
    {
        big_le(self, other)
    }

    /// `self < other`
    pub fn lt(&self, other: &Amount) -> (r: bool)
        ensures
            r == (self@ < other@),
    {
        !big_le(other, self)
    }

    /// `self == other`, as numbers.
    pub fn same(&self, other: &Amount) -> (r: bool)
        ensures
            r == (self@ == other@),
    {
        big_le(self, other) && big_le(other, self)
    }

    pub fn plus(&self, other: &Amount) -> (r: Amount)
        ensures
            r@ == self@ + other@,
    {
        big_add(self, other)
    }

    /// `self - other`, or `None` where `other` is the larger.
    pub fn checked_minus(&self, other: &Amount) -> (r: Option<Amount>)
        ensures
            other@ <= self@ ==> r.is_some() && r.unwrap()@ == self@ - other@,
            other@ > self@ ==> r.is_none(),
    {
        if big_le(other, self) {
            Some(big_sub(self, other))
        } else {
            None
        }
    }

    pub fn times(&self, other: &Amount) -> (r: Amount)
        ensures
            r@ == self@ * other@,
    {
        big_mul(self, other)
    }

    /// `self / other` rounded down, or `None` where `other` is zero.
    pub fn checked_div(&self, other: &Amount) -> (r: Option<Amount>)
        ensures
            other@ != 0 ==> r.is_some() && r.unwrap()@ == self@ / other@,
            other@ == 0 ==> r.is_none(),
    {
        if other.is_zero() {
            None
        } else {
            Some(big_div(self, other))
        }
    }
}

impl PartialEq for Amount {
    fn eq(&self, other: &Amount) -> (r: bool) {
        self.same(other)
    }
}

impl vstd::std_specs::cmp::PartialEqSpecImpl for Amount {
    open spec fn obeys_eq_spec() -> bool {
        true
    }

    open spec fn eq_spec(&self, other: &Amount) -> bool {
        self@ == other@
    }
}

impl Clone for Amount {
    fn clone(&self) -> (r: Amount)
        ensures
            r@ == self@,
    {
        self.duplicate()
    }
}

} // verus!
