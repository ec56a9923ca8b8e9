use rbuilder::payment::PaymentProcessor;
use rbuilder::primitives::{Address, U256};
use rbuilder::treasury::TreasuryConfig;

#[test]
fn test_payment_processing_with_treasury() {
    let treasury_addr = Address { bytes: [1u8; 20] };
    let treasury = TreasuryConfig::new(treasury_addr, 10).unwrap();
    let processor = PaymentProcessor::new(Some(treasury));

    let recipient = Address { bytes: [2u8; 20] };
    let total_value = U256::from_u128(100_000_000_000_000_000_000u128); // 100 ETH

    let payments = processor.process_block_payment(total_value, recipient);

    assert_eq!(payments.len(), 2);
    assert_eq!(payments[0].0, treasury_addr);
    assert_eq!(payments[0].1, U256::from_u128(10_000_000_000_000_000_000u128)); // 10 ETH
    assert_eq!(payments[1].0, recipient);
    assert_eq!(payments[1].1, U256::from_u128(90_000_000_000_000_000_000u128)); // 90 ETH
}

#[test]
fn test_payment_processing_without_treasury() {
    let processor = PaymentProcessor::new(None);
    let recipient = Address { bytes: [2u8; 20] };
    let total_value = U256::from_u128(100_000_000_000_000_000_000u128); // 100 ETH

    let payments = processor.process_block_payment(total_value, recipient);

    assert_eq!(payments.len(), 1);
    assert_eq!(payments[0].0, recipient);
    assert_eq!(payments[0].1, total_value);
}

#[test]
fn zero_total_without_treasury_yields_no_payments() {
    let processor = PaymentProcessor::new(None);
    let recipient = Address { bytes: [2u8; 20] };
    let payments = processor.process_block_payment(U256::zero(), recipient);
    assert!(payments.is_empty());
}

#[test]
fn zero_total_with_treasury_yields_no_payments() {
    let recipient = Address { bytes: [2u8; 20] };
    for percentage in [1u8, 10, 50, 99] {
        let treasury = TreasuryConfig::new(Address { bytes: [1u8; 20] }, percentage).unwrap();
        let processor = PaymentProcessor::new(Some(treasury));
        let payments = processor.process_block_payment(U256::zero(), recipient);
        assert!(payments.is_empty());
    }
}

#[test]
fn zero_treasury_share_is_suppressed() {
    // 1% of 99 rounds down to 0, so only the recipient is paid.
    let treasury = TreasuryConfig::new(Address { bytes: [1u8; 20] }, 1).unwrap();
    let processor = PaymentProcessor::new(Some(treasury));
    let recipient = Address { bytes: [2u8; 20] };

    let payments = processor.process_block_payment(U256::from_u64(99), recipient);

    assert_eq!(payments.len(), 1);
    assert_eq!(payments[0].0, recipient);
    assert_eq!(payments[0].1, U256::from_u64(99));
}

#[test]
fn repeated_processing_yields_identical_output() {
    let treasury = TreasuryConfig::new(Address { bytes: [1u8; 20] }, 37).unwrap();
    let processor = PaymentProcessor::new(Some(treasury));
    let recipient = Address { bytes: [2u8; 20] };
    let total_value = U256::from_u128(123_456_789_012_345_678_901u128);

    let first = processor.process_block_payment(total_value, recipient);
    let second = processor.process_block_payment(total_value, recipient);

    assert_eq!(first, second);
}

#[test]
fn recipient_equal_to_treasury_gets_two_instructions() {
    let shared = Address { bytes: [7u8; 20] };
    let treasury = TreasuryConfig::new(shared, 25).unwrap();
    let processor = PaymentProcessor::new(Some(treasury));

    let payments = processor.process_block_payment(U256::from_u64(100), shared);

    assert_eq!(payments.len(), 2);
    assert_eq!(payments[0], (shared, U256::from_u64(25)));
    assert_eq!(payments[1], (shared, U256::from_u64(75)));
}
