//! Rollup node arguments and their turn into a validated configuration.
//!
//! Parsing the command line itself is left to the host program; this
//! module holds the parsed values and the validation that builds the
//! fee-distribution configuration from them.

use vstd::prelude::*;
use crate::primitives::Address;
use crate::treasury::ConfigError;

verus! {

/// Default number of blocks the engine buffers before persisting.
pub const DEFAULT_PERSISTENCE_THRESHOLD: u64 = 2;

/// Default target number of blocks the engine keeps in memory.
pub const DEFAULT_MEMORY_BLOCK_BUFFER_TARGET: u64 = 2;

/// Default share of fees withheld for the treasury, in whole percent.
pub const DEFAULT_WITHHOLDING_PERCENTAGE: u8 = 10;

/// Parameters for rollup configuration, as parsed by the host program.
#[derive(Clone, Debug, PartialEq, Eq)]
pub struct OpRbuilderArgs {
    /// HTTP endpoint for the sequencer mempool.
    pub sequencer_http: Option<String>,
    /// Disable transaction pool gossip.
    pub disable_txpool_gossip: bool,
    /// Walk back to genesis on startup to re-validate the existing
    /// database before normal syncing begins.
    pub enable_genesis_walkback: bool,
    /// Compute the pending block from the transaction pool instead of
    /// echoing the latest block.
    pub compute_pending_block: bool,
    /// Enable discovery v4.
    pub discovery_v4: bool,
    /// Enable the experimental engine features.
    pub experimental: bool,
    /// Enable the legacy engine.
    pub legacy: bool,
    /// Persistence threshold for the experimental engine.
    pub persistence_threshold: u64,
    /// Target number of blocks to keep in memory.
    pub memory_block_buffer_target: u64,
    /// Path of the builder configuration file; empty when not given.
    pub rbuilder_config_path: String,
    /// Treasury address for fee withholding.
    pub treasury_address: Option<Address>,
    /// Percentage of fees to withhold.
    pub withholding_percentage: u8,
}

impl Default for OpRbuilderArgs {
    /// The values the command line yields when no flag is passed.
    fn default() -> (r: OpRbuilderArgs)
        ensures
            r.sequencer_http is None,
            !r.disable_txpool_gossip,
            !r.enable_genesis_walkback,
            !r.compute_pending_block,
            !r.discovery_v4,
            !r.experimental,
            !r.legacy,
            r.persistence_threshold == DEFAULT_PERSISTENCE_THRESHOLD,
            r.memory_block_buffer_target == DEFAULT_MEMORY_BLOCK_BUFFER_TARGET,
            r.rbuilder_config_path@ == Seq::<char>::empty(),
            r.treasury_address is None,
            r.withholding_percentage == DEFAULT_WITHHOLDING_PERCENTAGE,
    {
        OpRbuilderArgs {
            sequencer_http: None,
            disable_txpool_gossip: false,
            enable_genesis_walkback: false,
            compute_pending_block: false,
            discovery_v4: false,
            experimental: false,
            legacy: false,
            persistence_threshold: DEFAULT_PERSISTENCE_THRESHOLD,
            memory_block_buffer_target: DEFAULT_MEMORY_BLOCK_BUFFER_TARGET,
            rbuilder_config_path: String::new(),
            treasury_address: None,
            withholding_percentage: DEFAULT_WITHHOLDING_PERCENTAGE,
        }
    }
}

/// The fee-distribution part of the node configuration: where withheld
/// fees go and what share is withheld.
#[derive(Clone, Copy, Debug, PartialEq, Eq)]
pub struct FeeDistributionConfig {
    pub treasury_address: Address,
    pub withholding_percentage: u8,
}

impl FeeDistributionConfig {
    /// A valid configuration withholds between 1 and 99 percent.
    pub open spec fn wf(self) -> bool {
        1 <= self.withholding_percentage <= 99
    }

    /// Checks the percentage, reporting the offending value on failure.
    pub fn validate(&self) -> (r: Result<(), ConfigError>)
        ensures
            self.wf() ==> r == Ok::<(), ConfigError>(()),
            !self.wf() ==> r == Err::<(), ConfigError>(
                ConfigError::InvalidPercentage(self.withholding_percentage),
            ),
    {
        if self.withholding_percentage == 0 || self.withholding_percentage >= 100 {
            return Err(ConfigError::InvalidPercentage(self.withholding_percentage));
        }
        Ok(())
    }
}

/// The node configuration assembled from the arguments.
#[derive(Clone, Copy, Debug, PartialEq, Eq)]
pub struct Config {
    pub fee_distribution: FeeDistributionConfig,
}

impl OpRbuilderArgs {
    /// Builds the validated configuration: the treasury address given on
    /// the command line (the zero address when none was), and the
    /// withholding percentage, which must lie in `[1, 99]`.
    pub fn into_config(self) -> (r: Result<Config, ConfigError>)
        ensures
            (1 <= self.withholding_percentage <= 99) <==> r is Ok,
            r matches Ok(c) ==> {
                &&& c.fee_distribution.withholding_percentage == self.withholding_percentage
                &&& c.fee_distribution.wf()
                &&& (self.treasury_address matches Some(a) ==> c.fee_distribution.treasury_address
                    == a)
                &&& (self.treasury_address is None
                    ==> c.fee_distribution.treasury_address.bytes@ == Seq::new(20, |i: int| 0u8))
            },
            r matches Err(e) ==> e == ConfigError::InvalidPercentage(self.withholding_percentage),
    {
        let treasury_address = match self.treasury_address {
            Some(a) => a,
            None => Address::zero(),
        };
        let fee_distribution = FeeDistributionConfig {
            treasury_address,
            withholding_percentage: self.withholding_percentage,
        };

        match fee_distribution.validate() {
            Ok(()) => Ok(Config { fee_distribution }),
            Err(e) => Err(e),
        }
    }
}

} // verus!
