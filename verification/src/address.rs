//! Ethereum addresses and hashes.
use crate::bytes::{be_value, lemma_be_value_bound, lemma_be_value_concat, lemma_be_value_injective};
use crate::felt::Felt;
use crate::uint::{two_to_128, U256};
use vstd::arithmetic::power::*;
use vstd::prelude::*;

verus! {

/// A 20-byte Ethereum address.
#[derive(Clone, Copy, Debug, PartialEq, Eq)]
pub struct Address {
    pub bytes: [u8; 20],
}

/// A 32-byte hash.
#[derive(Clone, Copy, Debug, PartialEq, Eq)]
pub struct H256 {
    pub bytes: [u8; 32],
}

/// Sixteen bytes stand for a number of 128 bits.
proof fn lemma_sixteen_bytes()
    ensures
        pow(256, 16) == two_to_128(),
{
    reveal(pow);
    reveal_with_fuel(pow, 17);
}

impl Address {
    /// The field element that stands for the address on Starknet: its bytes, read as one
    /// big-endian number.
    pub fn to_felt(&self) -> (felt: Felt)
        ensures
            felt@ == be_value(self.bytes@),
    {
        let mut hi: u128 = 0;
        let mut lo: u128 = 0;
        let mut i: usize = 0;
        let ghost bytes = self.bytes@;
        proof {
            assert(bytes.subrange(0, 0) =~= Seq::<u8>::empty());
        }
        while i < 4
            invariant
                i <= 4,
                bytes == self.bytes@,
                hi == be_value(bytes.subrange(0, i as int)),
            decreases 4 - i,
        {
            proof {
                let next = bytes.subrange(0, i + 1);
                assert(next.drop_last() =~= bytes.subrange(0, i as int));
                lemma_be_value_bound(next);
                lemma_pow_increases(256, (i + 1) as nat, 16);
                lemma_sixteen_bytes();
            }
            hi = hi * 256 + self.bytes[i] as u128;
            i = i + 1;
        }
        proof {
            assert(bytes.subrange(4, 4) =~= Seq::<u8>::empty());
        }
        while i < 20
            invariant
                4 <= i <= 20,
                bytes == self.bytes@,
                lo == be_value(bytes.subrange(4, i as int)),
            decreases 20 - i,
        {
            proof {
                let next = bytes.subrange(4, i + 1);
                assert(next.drop_last() =~= bytes.subrange(4, i as int));
                lemma_be_value_bound(next);
                lemma_pow_increases(256, (i - 3) as nat, 16);
                lemma_sixteen_bytes();
            }
            lo = lo * 256 + self.bytes[i] as u128;
            i = i + 1;
        }
        proof {
            assert(bytes =~= bytes.subrange(0, 4) + bytes.subrange(4, 20));
            lemma_be_value_concat(bytes.subrange(0, 4), bytes.subrange(4, 20));
            lemma_sixteen_bytes();
            lemma_be_value_bound(bytes.subrange(0, 4));
            reveal(pow);
            reveal_with_fuel(pow, 5);
        }
        match Felt::from_u256(U256 { hi, lo }) {
            Some(felt) => felt,
            None => {
                proof {
                    assert(false);
                }
                Felt::zero()
            },
        }
    }
}

/// Distinct addresses stand for distinct field elements.
pub proof fn address_felts_are_distinct(a: Address, b: Address)
    ensures
        a.bytes@ != b.bytes@ ==> be_value(a.bytes@) != be_value(b.bytes@),
{
    if be_value(a.bytes@) == be_value(b.bytes@) {
        lemma_be_value_injective(a.bytes@, b.bytes@);
    }
}

impl H256 {
    /// The hash that the canonical number of `felt` writes in 32 big-endian bytes.
    pub fn from_felt(felt: Felt) -> (hash: H256)
        ensures
            be_value(hash.bytes@) == felt@,
    {
        H256 { bytes: felt.to_bytes_be() }
    }
}

/// A field element has one hash, and no other element has it.
pub proof fn felt_hash_is_unique(a: H256, b: H256, felt: Felt, other: Felt)
    requires
        be_value(a.bytes@) == felt@,
        be_value(b.bytes@) == other@,
    ensures
        a.bytes@ == b.bytes@ <==> felt@ == other@,
{
    if felt@ == other@ {
        lemma_be_value_injective(a.bytes@, b.bytes@);
    }
}

} // verus!
