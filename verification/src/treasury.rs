//! Treasury configuration: a beneficiary address plus a withholding
//! percentage, validated once at construction, and the exact split of a
//! block's total value.

use vstd::prelude::*;
use vstd::arithmetic::div_mod::{
    lemma_div_is_ordered, lemma_div_multiples_vanish, lemma_fundamental_div_mod_converse,
};
use vstd::arithmetic::mul::{lemma_mul_inequality, lemma_mul_is_commutative};
use crate::primitives::{Address, U256};

verus! {

/// The one configuration error: the offending percentage is carried along.
#[derive(Clone, Copy, Debug, PartialEq, Eq, Structural)]
pub enum ConfigError {
    InvalidPercentage(u8),
}

/// A treasury beneficiary together with the share of each block's value,
/// in whole percent, withheld for it. Valid instances always carry a
/// percentage in `[1, 99]`.
#[derive(Clone, Copy, Debug, PartialEq, Eq)]
pub struct TreasuryConfig {
    pub address: Address,
    pub fee_percentage: u8,
}

impl TreasuryConfig {
    /// The constructor-established invariant.
    pub open spec fn wf(self) -> bool {
        1 <= self.fee_percentage <= 99
    }

    /// Validates the percentage and constructs the configuration, or
    /// reports exactly why it was rejected.
    pub fn new(address: Address, fee_percentage: u8) -> (r: Result<Self, ConfigError>)
        ensures
            1 <= fee_percentage <= 99 ==> r == Ok::<Self, ConfigError>(
                TreasuryConfig { address, fee_percentage },
            ),
            !(1 <= fee_percentage <= 99) ==> r == Err::<Self, ConfigError>(
                ConfigError::InvalidPercentage(fee_percentage),
            ),
            r matches Ok(c) ==> c.wf(),
    {
        if fee_percentage == 0 || fee_percentage >= 100 {
            return Err(ConfigError::InvalidPercentage(fee_percentage));
        }
        Ok(TreasuryConfig { address, fee_percentage })
    }

    /// Splits `total_value` into the withheld treasury share,
    /// `floor(total_value * fee_percentage / 100)`, and the remainder.
    /// The two parts always sum back to the whole: rounding loses nothing.
    pub fn calculate_split(&self, total_value: U256) -> (r: (U256, U256))
        requires
            self.wf(),
        ensures
            r.0.as_nat() == total_value.as_nat() * self.fee_percentage / 100,
            r.1.as_nat() == total_value.as_nat() - r.0.as_nat(),
            r.0.as_nat() + r.1.as_nat() == total_value.as_nat(),
    {
        let (low, carry) = total_value.mul_small(self.fee_percentage as u64);
        let (treasury_amount, rem) = U256::div_rem_small(carry, &low, 100);
        proof {
            let total = total_value.as_nat() as int;
            let fee = self.fee_percentage as int;
            lemma_fundamental_div_mod_converse(
                total * fee,
                100,
                treasury_amount.as_nat() as int,
                rem as int,
            );
            lemma_mul_is_commutative(total, fee);
            lemma_mul_is_commutative(total, 100);
            lemma_mul_inequality(fee, 100, total);
            lemma_div_is_ordered(total * fee, total * 100, 100);
            lemma_div_multiples_vanish(total, 100);
        }
        let remaining = total_value.sub(&treasury_amount);
        (treasury_amount, remaining)
    }
}

} // verus!
