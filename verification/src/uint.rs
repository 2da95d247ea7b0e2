//! Unsigned 256-bit integers.
use crate::error::{ConversionError, UintOverflow};
use vstd::prelude::*;

verus! {

/// 2^128, the weight of the high half of a 256-bit integer.
pub open spec fn two_to_128() -> nat {
    0x1_0000_0000_0000_0000_0000_0000_0000_0000nat
}

/// An unsigned 256-bit integer, as its two 128-bit halves.
#[derive(Clone, Copy, Debug, PartialEq, Eq, Structural)]
pub struct U256 {
    pub hi: u128,
    pub lo: u128,
}

impl View for U256 {
    type V = nat;

    open spec fn view(&self) -> nat {
        (self.hi * two_to_128() + self.lo) as nat
    }
}

/// What a 256-bit `value` becomes as an unsigned integer of at most `max`, where `max + 1` is a
/// power of two: the value itself, or an overflow that reports the value wrapped into the target.
pub open spec fn narrowed(value: nat, max: u128) -> Result<u128, ConversionError> {
    if value <= max {
        Ok(value as u128)
    } else {
        Err(
            ConversionError::UintConversionError(
                UintOverflow { bits: 256, wrapped: (value % (max as nat + 1)) as u128, max },
            ),
        )
    }
}

/// The text with which `ruint` reports that the 256-bit integer `value` does not fit a `usize`. It
/// starts as `usize_overflow_prefix` says.
pub uninterp spec fn usize_overflow_text(value: nat) -> Seq<char>;

/// What the report of a 256-bit integer that does not fit starts with. The name of the target's
/// type follows.
pub open spec fn usize_overflow_prefix() -> Seq<char> {
    "Uint<256> value is too large for "@
}

impl U256 {
    pub fn zero() -> (n: U256)
        ensures
            n@ == 0,
    {
        U256 { hi: 0, lo: 0 }
    }

    pub fn from_u64(value: u64) -> (n: U256)
        ensures
            n@ == value,
    {
        U256 { hi: 0, lo: value as u128 }
    }

    pub fn from_u128(value: u128) -> (n: U256)
        ensures
            n@ == value,
    {
        U256 { hi: 0, lo: value }
    }

    /// The low 128 bits.
    pub fn low_half(self) -> (n: U256)
        ensures
            n@ == self@ % two_to_128(),
            n@ < two_to_128(),
    {
        U256 { hi: 0, lo: self.lo }
    }

    /// The high 128 bits, moved to the low end.
    pub fn high_half(self) -> (n: U256)
        ensures
            n@ == self@ / two_to_128(),
            n@ < two_to_128(),
    {
        U256 { hi: 0, lo: self.hi }
    }

    /// `self - other`, or zero where `other` is the larger.
    pub fn saturating_sub(self, other: U256) -> (n: U256)
        ensures
            n@ == (if self@ >= other@ {
                (self@ - other@) as nat
            } else {
                0
            }),
    {
        if self.hi > other.hi {
            if self.lo >= other.lo {
                U256 { hi: self.hi - other.hi, lo: self.lo - other.lo }
            } else {
                let borrowed: u128 = (u128::MAX - other.lo) + self.lo + 1;
                U256 { hi: self.hi - other.hi - 1, lo: borrowed }
            }
        } else if self.hi == other.hi && self.lo >= other.lo {
            U256 { hi: 0, lo: self.lo - other.lo }
        } else {
            U256 { hi: 0, lo: 0 }
        }
    }

    /// The value as a `u64`, or the overflow where it does not fit.
    pub fn try_to_u64(self) -> (r: Result<u64, ConversionError>)
        ensures
            match r {
                Ok(n) => narrowed(self@, u64::MAX as u128) == Ok::<u128, ConversionError>(n as u128),
                Err(e) => narrowed(self@, u64::MAX as u128) == Err::<u128, ConversionError>(e),
            },
    {
        if self.hi == 0 && self.lo <= u64::MAX as u128 {
            Ok(self.lo as u64)
        } else {
            let wrapped: u128 = self.lo % 0x1_0000_0000_0000_0000u128;
            proof {
                let m: nat = 0x1_0000_0000_0000_0000;
                assert(self@ == m * (self.hi * m) + self.lo);
                vstd::arithmetic::div_mod::lemma_mod_multiples_vanish(
                    self.hi * m,
                    self.lo as int,
                    m as int,
                );
            }
            Err(
                ConversionError::UintConversionError(
                    UintOverflow { bits: 256, wrapped, max: u64::MAX as u128 },
                ),
            )
        }
    }

    /// The value as a `u128`, or the overflow where it does not fit.
    pub fn try_to_u128(self) -> (r: Result<u128, ConversionError>)
        ensures
            r == narrowed(self@, u128::MAX),
    {
        if self.hi == 0 {
            Ok(self.lo)
        } else {
            proof {
                assert(self@ == two_to_128() * self.hi + self.lo);
                vstd::arithmetic::div_mod::lemma_mod_multiples_vanish(
                    self.hi as int,
                    self.lo as int,
                    two_to_128() as int,
                );
                assert(u128::MAX as nat + 1 == two_to_128());
            }
            Err(
                ConversionError::UintConversionError(
                    UintOverflow { bits: 256, wrapped: self.lo, max: u128::MAX },
                ),
            )
        }
    }

    /// The value as a `usize`, or the text of the failure where it does not fit.
    pub fn try_to_usize(self) -> (r: Result<usize, String>)
        ensures
            match r {
                Ok(n) => n == self@,
                Err(text) => {
                    &&& self@ > usize::MAX
                    &&& text@ == usize_overflow_text(self@)
                    &&& usize_overflow_prefix().is_prefix_of(text@)
                },
            },
    {
        usize_from_uint(self)
    }
}

/// Two 256-bit integers are the same exactly where their numbers are.
pub proof fn uint_is_its_number(a: U256, b: U256)
    ensures
        a == b <==> a@ == b@,
{
}

/// `usize::try_from` on `ruint`'s 256-bit integer, the failure taken by its display text: it
/// succeeds exactly on the values that fit, and then keeps the value. The text of the failure is a
/// fixed prefix and the name of the target's type. How that name is written is not stated, since it
/// is left to `core::any::type_name`.
#[verifier::external_body]
fn usize_from_uint(value: U256) -> (r: Result<usize, String>)
    ensures
        match r {
            Ok(n) => n == value@,
            Err(text) => {
                &&& value@ > usize::MAX
                &&& text@ == usize_overflow_text(value@)
                &&& usize_overflow_prefix().is_prefix_of(text@)
            },
        },
{
    let low = [value.lo as u64, (value.lo >> 64) as u64];
    let high = [value.hi as u64, (value.hi >> 64) as u64];
    let uint = ruint::aliases::U256::from_limbs([low[0], low[1], high[0], high[1]]);
    usize::try_from(uint).map_err(|e| e.to_string())
}

} // verus!
