use kakarot_client::address::{Address, H256};
use kakarot_client::error::{ConversionError, UintOverflow};
use kakarot_client::felt::Felt;
use kakarot_client::helpers::bytes_to_felt_vec;
use kakarot_client::simulation::{fixed_fee_estimate, FeeUnit};
use kakarot_client::text::{decimal, truth};
use kakarot_client::uint::U256;

const MODULUS_HI: u128 = 0x0800_0000_0000_0011_0000_0000_0000_0000;

fn felt(n: u64) -> Felt {
    Felt::from_u64(n)
}

#[test]
fn felts_stop_below_the_modulus() {
    let largest = U256 { hi: MODULUS_HI, lo: 0 };
    assert_eq!(Felt::from_u256(largest).map(|f| f.to_u256()), Some(largest));
    assert_eq!(Felt::from_u256(U256 { hi: MODULUS_HI, lo: 1 }), None);
    assert_eq!(Felt::from_u256(U256 { hi: MODULUS_HI + 1, lo: 0 }), None);
}

#[test]
fn felts_are_read_from_hex() {
    assert_eq!(Felt::from_hex_be("0x2a"), Some(felt(42)));
    assert_eq!(Felt::from_hex_be("2A"), Some(felt(42)));
    assert_eq!(Felt::from_hex_be("0x0x2a"), Some(felt(42)));
    assert_eq!(Felt::from_hex_be(""), Some(felt(0)));
    assert_eq!(Felt::from_hex_be("0xg"), None);
    assert_eq!(Felt::from_hex_be("\u{e9}"), None);
    let zeros = "0".repeat(64);
    assert_eq!(Felt::from_hex_be(&zeros), Some(felt(0)));
    assert_eq!(Felt::from_hex_be(&format!("0{}", zeros)), None);
    let largest = "0x800000000000011000000000000000000000000000000000000000000000000";
    assert_eq!(
        Felt::from_hex_be(largest).map(|f| f.to_u256()),
        Some(U256 { hi: MODULUS_HI, lo: 0 })
    );
    let modulus = "0x800000000000011000000000000000000000000000000000000000000000001";
    assert_eq!(Felt::from_hex_be(modulus), None);
}

#[test]
fn felts_multiply_modulo_the_prime() {
    assert_eq!(felt(6).times(felt(7)), felt(42));
    let minus_one = Felt::from_u256(U256 { hi: MODULUS_HI, lo: 0 }).unwrap();
    assert_eq!(minus_one.times(minus_one), felt(1));
    assert_eq!(minus_one.times(felt(2)).to_u256(), U256 { hi: MODULUS_HI - 1, lo: u128::MAX });
}

#[test]
fn felts_fit_64_bits_or_not() {
    assert_eq!(felt(u64::MAX).to_u64(), Some(u64::MAX));
    let next = Felt::from_u256(U256::from_u128(u64::MAX as u128 + 1)).unwrap();
    assert_eq!(next.to_u64(), None);
    let high = Felt::from_u256(U256 { hi: 1, lo: 0 }).unwrap();
    assert_eq!(high.to_u64(), None);
}

#[test]
fn felts_become_big_endian_hashes() {
    let felt = Felt::from_u256(U256 { hi: 0x0102, lo: 0x0304 }).unwrap();
    let mut bytes = [0u8; 32];
    bytes[14] = 1;
    bytes[15] = 2;
    bytes[30] = 3;
    bytes[31] = 4;
    assert_eq!(felt.to_bytes_be(), bytes);
    assert_eq!(H256::from_felt(felt), H256 { bytes });
}

#[test]
fn addresses_become_numbers() {
    let mut bytes = [0u8; 20];
    bytes[19] = 7;
    assert_eq!(Address { bytes }.to_felt(), felt(7));
    bytes[0] = 0x12;
    bytes[3] = 0x34;
    bytes[4] = 0x56;
    let value = U256 { hi: 0x1200_0034, lo: (0x56u128 << 120) + 7 };
    assert_eq!(Address { bytes }.to_felt().to_u256(), value);
    let all = Address { bytes: [0xff; 20] }.to_felt().to_u256();
    assert_eq!(all, U256 { hi: 0xffff_ffff, lo: u128::MAX });
}

#[test]
fn bytes_become_one_felt_each() {
    assert_eq!(bytes_to_felt_vec(&vec![0, 1, 255]), vec![felt(0), felt(1), felt(255)]);
    assert_eq!(bytes_to_felt_vec(&vec![]), vec![]);
}

#[test]
fn uints_split_in_halves() {
    let n = U256 { hi: 5, lo: 9 };
    assert_eq!(n.low_half(), U256::from_u64(9));
    assert_eq!(n.high_half(), U256::from_u64(5));
}

#[test]
fn uints_subtract_down_to_zero() {
    let one = U256::from_u64(1);
    assert_eq!(U256 { hi: 1, lo: 0 }.saturating_sub(one), U256 { hi: 0, lo: u128::MAX });
    assert_eq!(U256 { hi: 3, lo: 8 }.saturating_sub(U256 { hi: 1, lo: 5 }), U256 { hi: 2, lo: 3 });
    assert_eq!(one.saturating_sub(U256 { hi: 1, lo: 0 }), U256::zero());
    assert_eq!(one.saturating_sub(U256::from_u64(2)), U256::zero());
    assert_eq!(one.saturating_sub(one), U256::zero());
}

fn overflow(result: Result<u64, ConversionError>) -> UintOverflow {
    match result {
        Err(ConversionError::UintConversionError(overflow)) => overflow,
        other => panic!("{:?}", other),
    }
}

#[test]
fn uints_narrow_or_report_the_overflow() {
    assert_eq!(U256::from_u64(u64::MAX).try_to_u64().unwrap(), u64::MAX);
    assert_eq!(
        overflow(U256::from_u128(u64::MAX as u128 + 6).try_to_u64()),
        UintOverflow { bits: 256, wrapped: 5, max: u64::MAX as u128 }
    );
    assert_eq!(
        overflow(U256 { hi: 1, lo: 3 }.try_to_u64()),
        UintOverflow { bits: 256, wrapped: 3, max: u64::MAX as u128 }
    );
    assert_eq!(U256::from_u128(u128::MAX).try_to_u128().unwrap(), u128::MAX);
    match (U256 { hi: 1, lo: 3 }).try_to_u128() {
        Err(ConversionError::UintConversionError(o)) => {
            assert_eq!(o, UintOverflow { bits: 256, wrapped: 3, max: u128::MAX })
        }
        other => panic!("{:?}", other),
    }
}

#[test]
fn uints_become_usize_or_a_text() {
    assert_eq!(U256::from_u64(12).try_to_usize(), Ok(12));
    assert_eq!(U256::from_u64(usize::MAX as u64).try_to_usize(), Ok(usize::MAX));
    let text = U256 { hi: 1, lo: 0 }.try_to_usize().unwrap_err();
    assert_eq!(text, "Uint<256> value is too large for usize");
    assert!(U256::from_u128(usize::MAX as u128 + 1).try_to_usize().is_err());
}

#[test]
fn numbers_are_written_in_decimal() {
    assert_eq!(decimal(0), "0");
    assert_eq!(decimal(9), "9");
    assert_eq!(decimal(10), "10");
    assert_eq!(decimal(1234567890), "1234567890");
    assert_eq!(decimal(u64::MAX), "18446744073709551615");
    assert_eq!(truth(true), "true");
    assert_eq!(truth(false), "false");
}

#[test]
fn fixed_fee_is_gas_times_price() {
    let fee = fixed_fee_estimate(U256::from_u64(21_000), felt(1_000)).unwrap();
    assert_eq!(fee.gas_usage, 21_000);
    assert_eq!(fee.gas_price, 1_000);
    assert_eq!(fee.overall_fee, 21_000_000);
    assert_eq!(fee.unit, FeeUnit::Wei);
}

#[test]
fn fixed_fee_must_fit() {
    assert!(matches!(
        fixed_fee_estimate(U256 { hi: 1, lo: 2 }, felt(1)),
        Err(ConversionError::UintConversionError(UintOverflow { wrapped: 2, .. }))
    ));
    let large = Felt::from_u256(U256 { hi: 1, lo: 0 }).unwrap();
    assert!(matches!(
        fixed_fee_estimate(U256::zero(), large),
        Err(ConversionError::FeltOutOfRange)
    ));
    assert!(matches!(
        fixed_fee_estimate(U256::from_u64(u64::MAX), felt(2)),
        Err(ConversionError::FeltOutOfRange)
    ));
}
