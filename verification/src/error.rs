use crate::bytes::Bytes32;
use vstd::prelude::*;

verus! {

/// Why a coin's lineage could not be established.
#[derive(Clone, Copy, Debug, PartialEq, Eq)]
pub enum LineageFailure {
    /// The ledger holds no spend of the coin's parent.
    ParentNotSpent,
    /// The parent's spend is not that of a governed asset coin.
    ParentUnparsable,
    /// The parent's spend does not create the coin.
    NotAChild,
}

/// Why the vault's current state could not be resolved.
#[derive(Clone, Copy, Debug, PartialEq, Eq)]
pub enum SyncFailure {
    /// The ledger does not know the coin.
    UnknownCoin,
    /// The launcher was never spent: the vault does not exist.
    NeverLaunched,
    /// A spend along the lineage does not decode as a singleton step.
    UndecodableStep,
    /// The walk did not end within the steps allowed.
    LineageTooLong,
}

/// Why a bundle could not be signed.
#[derive(Clone, Copy, Debug, PartialEq, Eq)]
pub enum SigningFailure {
    /// The signature share for the bootstrap coin is absent.
    MissingAnchorShare,
    /// The signature share for the vault spend is absent.
    MissingVaultShare,
    /// A share is not a valid signature.
    MalformedShare,
    /// The wallet's key is not a valid public key.
    InvalidKey,
    /// The wallet's first address is not the address of the key it reports.
    KeyMismatch,
}

/// Every way in which building a transaction fails. Each is fatal to the
/// attempt; none is retried or downgraded.
#[derive(Clone, Debug, PartialEq, Eq)]
pub enum EngineError {
    /// The vault lineage is unresolved at the coin `coin_id`.
    SyncError { coin_id: Bytes32, reason: SyncFailure },
    /// The coin is of another asset or under another revocation authority.
    AssetMismatch {
        coin_id: Bytes32,
        expected_asset_id: Bytes32,
        actual_asset_id: Bytes32,
        expected_authority: Bytes32,
        actual_authority: Option<Bytes32>,
    },
    /// The coin's parent spend is unavailable or does not lead to the coin.
    LineageError { coin_id: Bytes32, reason: LineageFailure },
    /// The coin is spent already.
    AlreadySpent { coin_id: Bytes32 },
    /// There is no target to act on.
    EmptyBatch,
    /// Fewer targets passed validation than the configured minimum.
    InsufficientTargets { actual: usize, required: usize },
    /// The revoked amounts do not add up within a coin's amount range.
    AmountOverflow,
    /// A signature share is missing or malformed.
    SigningError { reason: SigningFailure },
    /// The ledger rejected the bundle, with its reason.
    SubmissionError { reason: String },
}

} // verus!
