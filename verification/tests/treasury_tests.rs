use rbuilder::primitives::{Address, U256};
use rbuilder::treasury::{ConfigError, TreasuryConfig};

#[test]
fn test_treasury_split_calculation() {
    let config = TreasuryConfig::new(Address { bytes: [0u8; 20] }, 10).unwrap();

    // 100 ETH in wei
    let total = U256::from_u128(100_000_000_000_000_000_000u128);
    let (treasury, remaining) = config.calculate_split(total);

    assert_eq!(treasury, U256::from_u128(10_000_000_000_000_000_000u128)); // 10 ETH
    assert_eq!(remaining, U256::from_u128(90_000_000_000_000_000_000u128)); // 90 ETH
}

#[test]
fn test_invalid_percentage() {
    assert!(TreasuryConfig::new(Address { bytes: [0u8; 20] }, 0).is_err());
    assert!(TreasuryConfig::new(Address { bytes: [0u8; 20] }, 100).is_err());
}

#[test]
fn invalid_percentage_error_carries_value() {
    match TreasuryConfig::new(Address { bytes: [0u8; 20] }, 150) {
        Err(ConfigError::InvalidPercentage(p)) => assert_eq!(p, 150),
        _ => panic!("construction must fail with the offending percentage"),
    }
}

#[test]
fn boundary_percentages_are_accepted() {
    assert!(TreasuryConfig::new(Address { bytes: [0u8; 20] }, 1).is_ok());
    assert!(TreasuryConfig::new(Address { bytes: [0u8; 20] }, 99).is_ok());
}

#[test]
fn split_of_largest_value_loses_nothing() {
    // Half of 2^256 - 1: the intermediate product does not fit 256 bits,
    // so this exercises the widened multiply-then-divide path.
    let max = U256 { limb0: u64::MAX, limb1: u64::MAX, limb2: u64::MAX, limb3: u64::MAX };
    let config = TreasuryConfig::new(Address { bytes: [3u8; 20] }, 50).unwrap();
    let (treasury, remaining) = config.calculate_split(max);
    // floor((2^256 - 1) / 2) == 2^255 - 1
    assert_eq!(
        treasury,
        U256 { limb0: u64::MAX, limb1: u64::MAX, limb2: u64::MAX, limb3: 0x7fff_ffff_ffff_ffff }
    );
    // and the remainder is 2^255
    assert_eq!(remaining, U256 { limb0: 0, limb1: 0, limb2: 0, limb3: 0x8000_0000_0000_0000 });
}

#[test]
fn one_percent_of_a_small_value_rounds_to_zero() {
    let config = TreasuryConfig::new(Address { bytes: [0u8; 20] }, 1).unwrap();
    let (treasury, remaining) = config.calculate_split(U256::from_u64(99));
    assert_eq!(treasury, U256::zero());
    assert_eq!(remaining, U256::from_u64(99));
}
