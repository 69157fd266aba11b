//! Accounting core of a collateralized lending and staking program.

pub mod address;
pub mod collateral;
pub mod effect;
pub mod entrypoint;
pub mod error;
pub mod instructions;
pub mod pda;
pub mod processor;
pub mod staking;
pub mod state;
pub mod token;
