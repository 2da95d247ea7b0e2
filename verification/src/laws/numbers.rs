//! Numbers, and how bytes write them.
use crate::address::{Address, H256};
use crate::bytes::{be_value, lemma_be_value_bound, lemma_be_value_injective};
use crate::error::ConversionError;
use crate::felt::{modulus, Felt};
use crate::helpers::bytes_to_felt_vec;
use crate::uint::{two_to_128, U256};
use vstd::arithmetic::div_mod::{
    lemma_div_denominator, lemma_fundamental_div_mod_converse, lemma_mod_multiples_vanish,
};
use vstd::arithmetic::power::{lemma_pow_positive, pow};
use vstd::arithmetic::power2::{lemma2_to64, lemma2_to64_rest, lemma_pow2_adds, pow2};
use vstd::prelude::*;

verus! {

/// Appending the digit `low` to the number `high` moves every digit of `high` up by one place.
pub(crate) proof fn lemma_digits_move_up(high: nat, low: nat, base: nat, place: nat)
    requires
        low < base,
    ensures
        (high * base + low) % base == low,
        (high * base + low) / base == high,
        pow(base as int, place) > 0,
        pow(base as int, place + 1) == base * pow(base as int, place),
        (high * base + low) as int / pow(base as int, place + 1) == high as int / pow(
            base as int,
            place,
        ),
{
    let n = (high * base + low) as int;
    let b = base as int;
    reveal(pow);
    lemma_pow_positive(b, place);
    assert(high * base == base * high) by (nonlinear_arith);
    lemma_fundamental_div_mod_converse(n, b, high as int, low as int);
    lemma_div_denominator(n, b, pow(b, place));
}

/// A byte string writes a number in base 256, most significant byte first: the byte at `i` is its
/// digit at the place that counts the bytes after it, and it has no other digits.
pub proof fn bytes_are_the_digits(bytes: Seq<u8>, i: int)
    requires
        0 <= i < bytes.len(),
    ensures
        (be_value(bytes) as int / pow(256, (bytes.len() - 1 - i) as nat)) % 256 == bytes[i],
        be_value(bytes) < pow(256, bytes.len()),
    decreases bytes.len(),
{
    lemma_be_value_bound(bytes);
    let init = bytes.drop_last();
    let high = be_value(init);
    let low = bytes.last() as nat;
    if i == bytes.len() - 1 {
        lemma_digits_move_up(high, low, 256, 0);
        assert(pow(256, 0) == 1) by {
            reveal(pow);
        }
        assert((bytes.len() - 1 - i) as nat == 0);
        assert(be_value(bytes) as int / 1 == be_value(bytes));
    } else {
        lemma_digits_move_up(high, low, 256, (init.len() - 1 - i) as nat);
        assert((bytes.len() - 1 - i) as nat == (init.len() - 1 - i) as nat + 1);
        bytes_are_the_digits(init, i);
        assert(init[i] == bytes[i]);
    }
}

/// Appending a byte multiplies the number by 256 and adds the byte. No bytes write zero.
pub proof fn appended_byte_is_the_last_digit(bytes: Seq<u8>, byte: u8)
    ensures
        be_value(Seq::<u8>::empty()) == 0,
        be_value(bytes.push(byte)) == be_value(bytes) * 256 + byte,
{
    assert(bytes.push(byte).drop_last() =~= bytes);
}

/// A 256-bit integer is the number that its halves make.
pub proof fn halves_make_the_number(n: U256)
    ensures
        two_to_128() == pow2(128),
        n@ == n.hi * pow2(128) + n.lo,
        n@ < pow2(256),
{
    lemma2_to64();
    lemma_pow2_adds(64, 64);
    lemma_pow2_adds(128, 128);
    assert(n.hi * two_to_128() + n.lo < two_to_128() * two_to_128());
}

/// Small integers keep their number as 256-bit integers.
pub proof fn small_integers_keep_their_number(a: u64, b: u128, zero: U256, x: U256, y: U256)
    requires
        call_ensures(U256::zero, (), zero),
        call_ensures(U256::from_u64, (a,), x),
        call_ensures(U256::from_u128, (b,), y),
    ensures
        zero.hi == 0 && zero.lo == 0,
        x.hi == 0 && x.lo == a,
        y.hi == 0 && y.lo == b,
{
}

/// The halves of a 256-bit integer are its fields.
pub proof fn halves_are_the_fields(n: U256, low: U256, high: U256)
    requires
        call_ensures(U256::low_half, (n,), low),
        call_ensures(U256::high_half, (n,), high),
    ensures
        low.hi == 0 && low.lo == n.lo,
        high.hi == 0 && high.lo == n.hi,
{
    lemma_fundamental_div_mod_converse(
        n@ as int,
        two_to_128() as int,
        n.hi as int,
        n.lo as int,
    );
}

/// Subtraction is undone by addition, unless it stops at zero.
pub proof fn subtraction_is_undone_by_addition(a: U256, b: U256, d: U256)
    requires
        call_ensures(U256::saturating_sub, (a, b), d),
    ensures
        a@ >= b@ ==> d@ + b@ == a@,
        a@ < b@ ==> d.hi == 0 && d.lo == 0,
{
}

/// A 256-bit integer narrows to 64 bits exactly where its upper bits are zero, and then keeps its
/// number. Otherwise the failure reports the lower 64 bits.
pub proof fn narrowing_to_64_bits_keeps_the_number(n: U256, r: Result<u64, ConversionError>)
    requires
        call_ensures(U256::try_to_u64, (n,), r),
    ensures
        r is Ok <==> n.hi == 0 && n.lo <= u64::MAX,
        r matches Ok(x) ==> x == n.lo,
        r matches Err(e) ==> e matches ConversionError::UintConversionError(o) && o.bits == 256
            && o.wrapped == n.lo % 0x1_0000_0000_0000_0000u128 && o.max == u64::MAX,
{
    let m: nat = 0x1_0000_0000_0000_0000;
    assert(n@ == m * (n.hi * m) + n.lo);
    lemma_mod_multiples_vanish(n.hi * m, n.lo as int, m as int);
}

/// A 256-bit integer narrows to 128 bits exactly where its upper half is zero, and then keeps its
/// number. Otherwise the failure reports the lower half.
pub proof fn narrowing_to_128_bits_keeps_the_number(n: U256, r: Result<u128, ConversionError>)
    requires
        call_ensures(U256::try_to_u128, (n,), r),
    ensures
        r is Ok <==> n.hi == 0,
        r matches Ok(x) ==> x == n.lo,
        r matches Err(e) ==> e matches ConversionError::UintConversionError(o) && o.bits == 256
            && o.wrapped == n.lo && o.max == u128::MAX,
{
    assert(n@ == two_to_128() * n.hi + n.lo);
    lemma_mod_multiples_vanish(n.hi as int, n.lo as int, two_to_128() as int);
    assert(u128::MAX as nat + 1 == two_to_128());
}

/// A 256-bit integer becomes a `usize` exactly where it fits, and then keeps its number.
pub proof fn narrowing_to_usize_keeps_the_number(n: U256, r: Result<usize, String>)
    requires
        call_ensures(U256::try_to_usize, (n,), r),
    ensures
        r is Ok <==> n.hi == 0 && n.lo <= usize::MAX,
        r matches Ok(x) ==> x == n.lo,
        r matches Err(text) ==> "Uint<256> value is too large for "@.is_prefix_of(text@),
{
}

/// The field has 2^251 + 17 * 2^192 + 1 elements.
pub proof fn modulus_is_the_prime()
    ensures
        modulus() == pow2(251) + 17 * pow2(192) + 1,
{
    lemma2_to64();
    lemma2_to64_rest();
    lemma_pow2_adds(64, 64);
    lemma_pow2_adds(128, 64);
    lemma_pow2_adds(192, 59);
}

/// Field elements keep the number that they are made of, and give it back. A number is one
/// exactly where it is below the prime.
pub proof fn felts_keep_their_number(
    byte: u8,
    small: u64,
    n: U256,
    zero: Felt,
    of_byte: Felt,
    of_small: Felt,
    of_n: Option<Felt>,
)
    requires
        call_ensures(Felt::zero, (), zero),
        call_ensures(Felt::from_u8, (byte,), of_byte),
        call_ensures(Felt::from_u64, (small,), of_small),
        call_ensures(Felt::from_u256, (n,), of_n),
    ensures
        zero@ == 0,
        of_byte@ == byte,
        of_small@ == small,
        of_n is Some <==> n.hi * pow2(128) + n.lo < pow2(251) + 17 * pow2(192) + 1,
        of_n matches Some(f) ==> f@ == n.hi * pow2(128) + n.lo,
{
    halves_make_the_number(n);
    modulus_is_the_prime();
}

/// The number of a field element comes out whole, and as 64 bits exactly where it fits.
pub proof fn felts_give_their_number(felt: Felt, n: U256, small: Option<u64>)
    requires
        call_ensures(Felt::to_u256, (felt,), n),
        call_ensures(Felt::to_u64, (felt,), small),
    ensures
        n.hi * pow2(128) + n.lo == felt@,
        small is Some <==> n.hi == 0 && n.lo <= u64::MAX,
        small matches Some(x) ==> x == n.lo,
{
    assert(felt@ <= u64::MAX <==> n.hi == 0 && n.lo <= u64::MAX);
    assert(n.hi == 0 ==> felt@ == n.lo);
    halves_make_the_number(n);
}

/// Field elements multiply as their numbers do, modulo the prime.
pub proof fn felts_multiply_as_numbers(a: Felt, b: Felt, product: Felt)
    requires
        call_ensures(Felt::times, (a, b), product),
    ensures
        product@ == (a@ * b@) % (pow2(251) + 17 * pow2(192) + 1) as nat,
{
    modulus_is_the_prime();
}

/// The byte at `i` of a field element is the digit of its number at the place of that byte.
pub proof fn felt_bytes_are_its_digits(felt: Felt, bytes: [u8; 32], i: int)
    requires
        call_ensures(Felt::to_bytes_be, (felt,), bytes),
        0 <= i < 32,
    ensures
        (felt@ as int / pow(256, (31 - i) as nat)) % 256 == bytes@[i],
        felt@ < pow(256, 32),
{
    bytes_are_the_digits(bytes@, i);
}

/// The hash of a field element is its bytes: the byte at `i` is the digit of its number at the
/// place of that byte.
pub proof fn hash_bytes_are_the_digits(felt: Felt, hash: H256, i: int)
    requires
        call_ensures(H256::from_felt, (felt,), hash),
        0 <= i < 32,
    ensures
        (felt@ as int / pow(256, (31 - i) as nat)) % 256 == hash.bytes@[i],
        felt@ < pow(256, 32),
{
    bytes_are_the_digits(hash.bytes@, i);
}

/// An address becomes the number that all its twenty bytes write: the byte at `i` is the digit of
/// that number at the place of that byte.
pub proof fn address_bytes_are_the_digits(address: &Address, felt: Felt, i: int)
    requires
        call_ensures(Address::to_felt, (address,), felt),
        0 <= i < 20,
    ensures
        (felt@ as int / pow(256, (19 - i) as nat)) % 256 == address.bytes@[i],
        felt@ < pow(256, 20),
{
    bytes_are_the_digits(address.bytes@, i);
}

/// Distinct addresses become distinct numbers.
pub proof fn distinct_addresses_become_distinct_numbers(
    a: &Address,
    b: &Address,
    x: Felt,
    y: Felt,
)
    requires
        call_ensures(Address::to_felt, (a,), x),
        call_ensures(Address::to_felt, (b,), y),
    ensures
        x@ == y@ <==> a.bytes@ == b.bytes@,
{
    if x@ == y@ {
        lemma_be_value_injective(a.bytes@, b.bytes@);
    }
}

/// Each byte becomes a field element of its own, at its own place.
pub proof fn bytes_become_felts_in_place(bytes: &Vec<u8>, felts: Vec<Felt>)
    requires
        call_ensures(bytes_to_felt_vec, (bytes,), felts),
    ensures
        felts@.len() == bytes@.len(),
        forall|i: int| 0 <= i < bytes@.len() ==> (#[trigger] felts@[i])@ == bytes@[i],
{
}

/// Appending a byte appends one field element and leaves the others.
pub proof fn appended_byte_appends_a_felt(
    bytes: &Vec<u8>,
    longer: &Vec<u8>,
    byte: u8,
    felts: Vec<Felt>,
    more: Vec<Felt>,
)
    requires
        longer@ == bytes@.push(byte),
        call_ensures(bytes_to_felt_vec, (bytes,), felts),
        call_ensures(bytes_to_felt_vec, (longer,), more),
    ensures
        more@.len() == felts@.len() + 1,
        more@.last()@ == byte,
        forall|i: int| 0 <= i < felts@.len() ==> (#[trigger] more@[i])@ == felts@[i]@,
{
    assert forall|i: int| 0 <= i < felts@.len() implies (#[trigger] more@[i])@ == felts@[i]@ by {
        assert(more@[i]@ == longer@[i]);
        assert(felts@[i]@ == bytes@[i]);
    }
}

} // verus!
