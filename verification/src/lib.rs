//! An on-chain style eligibility and minting state machine.
//!
//! The crate keeps a global interaction counter, a shared token-view count
//! that unlocks a one-shot researcher-mint eligibility flag once a threshold
//! is crossed, and a monotonically increasing token supply.  Minting goes
//! through a small ownership ledger that records which address owns each
//! token id, with a one-token-per-address cap enforced at mint time.
//!
//! All quantities are held as `u128`; an operation that would push a value
//! past `u128::MAX` fails with an arithmetic-overflow error (or is excluded
//! by precondition) rather than wrapping, so values beyond that range are
//! simply not representable here.

pub mod address;
pub mod contract;
pub mod counter;
pub mod errors;
pub mod ledger;
pub mod metadata;
