//! Turns one block's total value into an ordered list of payment
//! instructions: the treasury share first (when configured and non-zero),
//! the recipient's remainder second. Zero amounts are never emitted.

use vstd::prelude::*;
use crate::primitives::{lemma_as_nat_injective, Address, U256};
use crate::treasury::TreasuryConfig;

verus! {

/// The exact shape the instruction list must have for a given held
/// configuration, total value and recipient. The list is a function of
/// these three values alone.
pub open spec fn payments_match(
    config: Option<TreasuryConfig>,
    total_value: U256,
    recipient: Address,
    out: Seq<(Address, U256)>,
) -> bool {
    match config {
        None => {
            if total_value.as_nat() == 0 {
                out.len() == 0
            } else {
                out.len() == 1 && out[0].0 == recipient && out[0].1.as_nat()
                    == total_value.as_nat()
            }
        },
        Some(t) => {
            let treasury_amount = total_value.as_nat() * t.fee_percentage / 100;
            let remaining = total_value.as_nat() - treasury_amount;
            if treasury_amount == 0 && remaining == 0 {
                out.len() == 0
            } else if treasury_amount == 0 {
                out.len() == 1 && out[0].0 == recipient && out[0].1.as_nat() == remaining
            } else if remaining == 0 {
                out.len() == 1 && out[0].0 == t.address && out[0].1.as_nat() == treasury_amount
            } else {
                out.len() == 2 && out[0].0 == t.address && out[0].1.as_nat() == treasury_amount
                    && out[1].0 == recipient && out[1].1.as_nat() == remaining
            }
        },
    }
}

/// Applies the treasury split, if one is configured, to each finalized
/// block value. Stateless across calls: it only reads the configuration
/// it was built with.
pub struct PaymentProcessor {
    treasury: Option<TreasuryConfig>,
}

impl PaymentProcessor {
    /// The configuration held since construction.
    pub closed spec fn config(&self) -> Option<TreasuryConfig> {
        self.treasury
    }

    /// A processor is well formed when its configuration, if any, is.
    pub open spec fn wf(&self) -> bool {
        match self.config() {
            Some(t) => t.wf(),
            None => true,
        }
    }

    /// Stores the optional treasury configuration; never fails.
    pub fn new(treasury: Option<TreasuryConfig>) -> (r: PaymentProcessor)
        ensures
            r.config() == treasury,
    {
        PaymentProcessor { treasury }
    }

    /// Produces the payment instructions for one block: with a treasury
    /// configured, the withheld share goes to the treasury address first
    /// and the remainder to the recipient; otherwise the recipient is paid
    /// in full. A zero total yields no instructions at all.
    pub fn process_block_payment(&self, total_value: U256, recipient: Address) -> (payments: Vec<
        (Address, U256),
    >)
        requires
            self.wf(),
        ensures
            payments_match(self.config(), total_value, recipient, payments@),
            total_value.as_nat() == 0 ==> payments@.len() == 0,
            forall|i: int| 0 <= i < payments@.len() ==> payments@[i].1.as_nat() > 0,
    {
        let mut payments: Vec<(Address, U256)> = Vec::new();

        match &self.treasury {
            Some(treasury) => {
                let (treasury_amount, remaining) = treasury.calculate_split(total_value);

                if !treasury_amount.is_zero() {
                    payments.push((treasury.address, treasury_amount));
                }
                if !remaining.is_zero() {
                    payments.push((recipient, remaining));
                }
            },
            None => {
                if !total_value.is_zero() {
                    payments.push((recipient, total_value));
                }
            },
        }

        payments
    }
}

/// Processing a block is deterministic: the contract pins the instruction
/// list down to a function of the configuration, the total value and the
/// recipient, so two calls with identical inputs on the same processor
/// yield identical output.
pub proof fn lemma_process_block_payment_deterministic(
    config: Option<TreasuryConfig>,
    total_value: U256,
    recipient: Address,
    out1: Seq<(Address, U256)>,
    out2: Seq<(Address, U256)>,
)
    requires
        payments_match(config, total_value, recipient, out1),
        payments_match(config, total_value, recipient, out2),
    ensures
        out1 == out2,
{
    if out1.len() >= 1 {
        lemma_as_nat_injective(out1[0].1, out2[0].1);
    }
    if out1.len() >= 2 {
        lemma_as_nat_injective(out1[1].1, out2[1].1);
    }
    assert(out1 =~= out2);
}

} // verus!
