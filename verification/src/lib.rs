//! Verified core of the Gnosis execution-layer extensions: the EIP-1559
//! base-fee collector reward, the payload-builder outcome mapping, the
//! engine-API envelope conversions and the block re-typing.

pub mod u256;
pub mod evm_config;
pub mod payload;
pub mod primitives;
