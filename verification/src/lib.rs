//! A collateralized lending ledger with privacy-preserving credit
//! verification.
//!
//! Borrowers who prove, through an opaque attestation, that a private
//! credit score meets a pool's threshold may borrow at a reduced
//! collateral ratio. The crate models four coupled subsystems: credit
//! records with replay-protected commitments, revocable viewing grants
//! for selective disclosure, a lending-pool liquidity ledger, and a
//! per-loan state machine with continuous interest accrual and
//! liquidation.

pub mod credit_record;
pub mod errors;
pub mod ids;
pub mod instructions;
pub mod lending_pool;
pub mod loan;
pub mod math;
pub mod registry;
pub mod viewing_key;
