//! The transaction engine of a vault that governs a revocable asset.
//!
//! A multisignature vault mints coins of an asset and can later revoke a
//! share of many of them in one transaction. This crate holds what such a
//! transaction is decided by: the walk to the vault's current state, the
//! validation of every target coin, the split of every amount, the
//! conditions that the vault delegates to each coin and the messages that
//! authorize them, the anchor that ties the bundle together, and the
//! assembly of the signed bundle. It talks to no ledger and no wallet:
//! callers hand it what those said, and carry out what it plans.

pub mod address;
pub mod asset;
pub mod attempt;
pub mod authorization;
pub mod batch;
pub mod bundle;
pub mod bytes;
pub mod coin;
pub mod conditions;
pub mod error;
pub mod hashing;
pub mod holders;
pub mod issuance;
pub mod keys;
pub mod launch;
pub mod message;
pub mod parse;
pub mod revoke;
pub mod split;
pub mod sync;
pub mod targets;
pub mod validator;
pub mod vault;

pub use address::get_first_address;
pub use asset::{EverythingWithSingletonTailArgs, EverythingWithSingletonTailSolution};
pub use attempt::{begin_validation, Validated, Validating, ValidationStep};
pub use bundle::{assemble_bundle, report_submission, SpendBundle};
pub use bytes::Bytes32;
pub use coin::{Coin, CoinRecord, CoinSpend};
pub use conditions::{Condition, DelegatedPuzzle};
pub use error::{EngineError, LineageFailure, SigningFailure, SyncFailure};
pub use holders::{load_holders_csv, HolderRow, SpaceScanClient, TokenHolder, TokenHoldersResponse};
pub use issuance::cli_issue;
pub use keys::{PublicKey, Signature};
pub use launch::cli_launch_vault;
pub use message::cli_generate_send_message_bundle;
pub use parse::cli_revoke;
pub use revoke::{revoke_coins, RevocationPlan};
pub use split::split;
pub use targets::{cli_revoke_bulk, HolderCoinRecord};
pub use validator::{CatCoin, TargetInput, ValidatedCoins};
pub use vault::VaultState;
