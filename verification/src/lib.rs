//! Splits the value captured by a built block between a fixed treasury
//! beneficiary and a variable recipient, and validates the configuration
//! that governs the split.

pub mod primitives;

pub mod treasury;

pub mod payment;

pub mod args;

