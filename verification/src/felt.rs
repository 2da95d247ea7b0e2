//! Elements of the Starknet prime field.
use crate::bytes::be_value;
use crate::uint::{two_to_128, U256};
use vstd::prelude::*;

verus! {

/// The high half of the field's modulus. The low half is one.
const MODULUS_HI: u128 = 0x0800_0000_0000_0011_0000_0000_0000_0000;

/// The field's modulus, 2^251 + 17 * 2^192 + 1.
pub open spec fn modulus() -> nat {
    0x0800_0000_0000_0011_0000_0000_0000_0000_0000_0000_0000_0000_0000_0000_0000_0001nat
}

/// The value of a hexadecimal digit, in either case.
pub open spec fn hex_digit(c: char) -> Option<nat> {
    if '0' <= c <= '9' {
        Some((c as int - '0' as int) as nat)
    } else if 'a' <= c <= 'f' {
        Some((c as int - 'a' as int + 10) as nat)
    } else if 'A' <= c <= 'F' {
        Some((c as int - 'A' as int + 10) as nat)
    } else {
        None
    }
}

/// The number that `digits` writes in base 16, or `None` where one of them is no digit.
pub open spec fn hex_value(digits: Seq<char>) -> Option<nat>
    decreases digits.len(),
{
    if digits.len() == 0 {
        Some(0)
    } else {
        match (hex_value(digits.drop_last()), hex_digit(digits.last())) {
            (Some(high), Some(low)) => Some(high * 16 + low),
            _ => None,
        }
    }
}

/// `text` without the prefixes `0x` that it starts with.
pub open spec fn without_hex_prefix(text: Seq<char>) -> Seq<char>
    decreases text.len(),
{
    if text.len() >= 2 && text[0] == '0' && text[1] == 'x' {
        without_hex_prefix(text.skip(2))
    } else {
        text
    }
}

/// The canonical number of the field element that `text` writes in hexadecimal, or `None` where
/// it writes none: at most 64 digits, and a number below the modulus.
pub open spec fn felt_of_hex(text: Seq<char>) -> Option<nat> {
    let digits = without_hex_prefix(text);
    match hex_value(digits) {
        Some(value) if digits.len() <= 64 && value < modulus() => Some(value),
        _ => None,
    }
}

/// An element of the Starknet prime field. Its view is its canonical number, below the modulus.
#[derive(Clone, Copy, Debug, PartialEq, Eq, Structural)]
pub struct Felt {
    pub(crate) hi: u128,
    pub(crate) lo: u128,
}

impl View for Felt {
    type V = nat;

    closed spec fn view(&self) -> nat {
        (self.hi * two_to_128() + self.lo) as nat
    }
}

impl Felt {
    #[verifier::type_invariant]
    spec fn canonical(self) -> bool {
        self.hi < MODULUS_HI || (self.hi == MODULUS_HI && self.lo == 0)
    }

    /// The element zero.
    pub fn zero() -> (felt: Felt)
        ensures
            felt@ == 0,
    {
        Felt { hi: 0, lo: 0 }
    }

    pub fn from_u8(value: u8) -> (felt: Felt)
        ensures
            felt@ == value,
    {
        Felt { hi: 0, lo: value as u128 }
    }

    pub fn from_u64(value: u64) -> (felt: Felt)
        ensures
            felt@ == value,
    {
        Felt { hi: 0, lo: value as u128 }
    }

    /// The element whose canonical number is `value`, or `None` where `value` reaches the modulus.
    pub fn from_u256(value: U256) -> (felt: Option<Felt>)
        ensures
            felt is Some <==> value@ < modulus(),
            felt matches Some(f) ==> f@ == value@,
    {
        if value.hi < MODULUS_HI || (value.hi == MODULUS_HI && value.lo == 0) {
            Some(Felt { hi: value.hi, lo: value.lo })
        } else {
            None
        }
    }

    /// The element that `text` writes in hexadecimal, with or without the prefix `0x`.
    pub fn from_hex_be(text: &str) -> (felt: Option<Felt>)
        ensures
            match felt {
                Some(f) => felt_of_hex(text@) == Some(f@),
                None => felt_of_hex(text@) is None,
            },
    {
        field_from_hex_be(text)
    }

    /// The canonical number.
    pub fn to_u256(self) -> (value: U256)
        ensures
            value@ == self@,
            value@ < modulus(),
    {
        proof {
            use_type_invariant(&self);
        }
        U256 { hi: self.hi, lo: self.lo }
    }

    /// The canonical number as a `u64`, or `None` where it does not fit.
    pub fn to_u64(self) -> (value: Option<u64>)
        ensures
            value == (if self@ <= u64::MAX {
                Some(self@ as u64)
            } else {
                None
            }),
    {
        if self.hi == 0 && self.lo <= u64::MAX as u128 {
            Some(self.lo as u64)
        } else {
            None
        }
    }

    /// The canonical number, as 32 bytes with the most significant first.
    pub fn to_bytes_be(self) -> (bytes: [u8; 32])
        ensures
            be_value(bytes@) == self@,
    {
        field_to_bytes_be(self)
    }

    /// The product in the field.
    pub fn times(self, other: Felt) -> (product: Felt)
        ensures
            product@ == (self@ * other@) % modulus(),
    {
        field_mul(self, other)
    }
}

/// Two field elements are the same exactly where their canonical numbers are.
pub proof fn felt_is_its_number(a: Felt, b: Felt)
    ensures
        a == b <==> a@ == b@,
{
}

/// The product of two `FieldElement`s by `*`, which is multiplication of their canonical numbers
/// modulo the field's prime.
#[verifier::external_body]
fn field_mul(a: Felt, b: Felt) -> (product: Felt)
    ensures
        product@ == (a@ * b@) % modulus(),
{
    let a_bytes = [a.hi.to_be_bytes(), a.lo.to_be_bytes()].concat();
    let b_bytes = [b.hi.to_be_bytes(), b.lo.to_be_bytes()].concat();
    let a = starknet::core::types::FieldElement::from_byte_slice_be(&a_bytes).unwrap();
    let b = starknet::core::types::FieldElement::from_byte_slice_be(&b_bytes).unwrap();
    let product = (a * b).to_bytes_be();
    Felt {
        hi: u128::from_be_bytes(product[..16].try_into().unwrap()),
        lo: u128::from_be_bytes(product[16..].try_into().unwrap()),
    }
}

/// `FieldElement::to_bytes_be`: the canonical number in big-endian order.
#[verifier::external_body]
fn field_to_bytes_be(felt: Felt) -> (bytes: [u8; 32])
    ensures
        be_value(bytes@) == felt@,
{
    let bytes = [felt.hi.to_be_bytes(), felt.lo.to_be_bytes()].concat();
    starknet::core::types::FieldElement::from_byte_slice_be(&bytes).unwrap().to_bytes_be()
}

/// `FieldElement::from_hex_be`, its error dropped: every leading `0x` is skipped, and what follows
/// must be at most 64 hexadecimal digits, of either case, that write a number below the modulus.
#[verifier::external_body]
fn field_from_hex_be(text: &str) -> (felt: Option<Felt>)
    ensures
        match felt {
            Some(f) => felt_of_hex(text@) == Some(f@),
            None => felt_of_hex(text@) is None,
        },
{
    let bytes = starknet::core::types::FieldElement::from_hex_be(text).ok()?.to_bytes_be();
    Some(
        Felt {
            hi: u128::from_be_bytes(bytes[..16].try_into().unwrap()),
            lo: u128::from_be_bytes(bytes[16..].try_into().unwrap()),
        },
    )
}

} // verus!
