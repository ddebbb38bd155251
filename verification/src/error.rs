//! The closed error taxonomy and the ledger's confirmation levels.
//!
//! Every failure surfaced by this subsystem is one of the
//! [`GatewayError`] kinds; no raw transport error escapes the boundary.

use vstd::prelude::*;

verus! {

/// Normalized failure kinds. All lower-level errors (malformed address,
/// transport failure, deserialization failure) map to exactly one kind.
#[derive(Clone, Copy, Debug, PartialEq, Eq, Structural)]
pub enum GatewayError {
    Unknown,
    WalletDisconnected,
    InvalidAddress,
    InsufficientBalance,
    TransactionTimeout,
    FailedDeserialization,
}

/// The failure channel of every operation in this crate.
pub type GatewayResult<T> = Result<T, GatewayError>;

/// The ledger's reported commitment level for a submitted signature at
/// one polling instant, totally ordered by finality:
/// `Processed` < `Confirmed` < `Finalized`.
#[derive(Clone, Copy, Debug, PartialEq, Eq, Structural)]
pub enum TransactionConfirmationStatus {
    Processed,
    Confirmed,
    Finalized,
}

impl TransactionConfirmationStatus {
    /// Position of this status in the finality order.
    pub open spec fn spec_finality_rank(self) -> int {
        match self {
            TransactionConfirmationStatus::Processed => 0,
            TransactionConfirmationStatus::Confirmed => 1,
            TransactionConfirmationStatus::Finalized => 2,
        }
    }

    /// Position of this status in the finality order:
    /// `Processed` < `Confirmed` < `Finalized`.
    pub fn finality_rank(&self) -> (r: u64)
        ensures
            r == self.spec_finality_rank(),
    {
        match self {
            TransactionConfirmationStatus::Processed => 0,
            TransactionConfirmationStatus::Confirmed => 1,
            TransactionConfirmationStatus::Finalized => 2,
        }
    }
}

} // verus!
