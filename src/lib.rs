//! Reconstruction of a wallet-to-wallet transfer on a regtest node: which
//! output paid the recipient, which returned change, what the fee was, and
//! the fixed ten-line report that records it.

pub mod amount;
pub mod address;
pub mod outputs;
pub mod report;
pub mod setup;
