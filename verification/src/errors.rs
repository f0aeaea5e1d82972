//! Error taxonomy for the lending ledger.
//!
//! Every operation rejects bad input, missing authority, or a failed
//! state precondition with a distinguishable code and leaves all state
//! untouched; no error is ever partially applied.

use vstd::prelude::*;

verus! {

#[derive(Clone, Copy, PartialEq, Eq, Structural, Debug)]
pub enum PrivateScoreError {
    // General
    Unauthorized,
    InvalidAmount,
    Overflow,
    InvalidAccountState,
    AlreadyInitialized,
    NotInitialized,
    // Pool
    PoolInactive,
    CreditLoansNotAccepted,
    InsufficientLiquidity,
    InvalidCollateralRatio,
    InvalidInterestRate,
    InvalidTokenMint,
    InvalidVault,
    UtilizationTooHigh,
    // Credit
    InvalidCreditScore,
    CreditRecordInactive,
    CreditExpired,
    InvalidCommitment,
    ScoreBelowThreshold,
    TierDoesNotQualify,
    NonceMismatch,
    CreditRecordExists,
    // Loan
    LoanNotActive,
    InsufficientCollateral,
    InvalidCollateralAccount,
    RepaymentExceedsDebt,
    LoanNotLiquidatable,
    LoanOverdue,
    MaxLoansReached,
    InvalidLoanDuration,
    HealthFactorTooLow,
    // Attestation
    InvalidProof,
    InvalidPublicInputs,
    ProofVerificationFailed,
    ProofExpired,
    ProofCommitmentMismatch,
    VerifierError,
    InvalidVerificationKey,
    CircuitMismatch,
    // Viewing grants
    InvalidViewingKey,
    ViewingKeyNotActive,
    ViewingKeyExpired,
    InvalidAccessLevel,
    InvalidExpiry,
    ExpiryTooLong,
    MaxAccessesReached,
    ViewingKeyRevoked,
    InsufficientAccessLevel,
    // Commitment archival
    CompressionFailed,
    DecompressionFailed,
    InvalidMerkleProof,
    MerkleTreeFull,
    InvalidCompressedAccount,
    // Selective disclosure
    DisclosureNotEnabled,
    InvalidDisclosureRequest,
    DisclosureDenied,
    InvalidEncryption,
    KeyDerivationFailed,
}

} // verus!
