use crate::bytes::Bytes32;
use crate::coin::{Coin, CoinModel};
use crate::keys::{key_views, PublicKey};
use crate::vault::{governance_puzzle_hash, m_of_n_puzzle_hash_of, VaultState};
use chia_puzzle_types::singleton::SingletonArgs;
use chia_wallet_sdk::clvm_utils::TreeHash;
use vstd::prelude::*;

verus! {

/// The hash of the puzzle that every singleton launcher coin is locked by.
pub const SINGLETON_LAUNCHER_HASH: [u8; 32] = [
    0xef, 0xf0, 0x75, 0x22, 0x49, 0x50, 0x60, 0xc0, 0x66, 0xf6, 0x6f, 0x32, 0xac, 0xc2, 0xa7, 0x7e,
    0x3a, 0x3e, 0x73, 0x7a, 0xca, 0x8b, 0xae, 0xa4, 0xd1, 0xa6, 0x4e, 0xa4, 0xcd, 0xc1, 0x3d, 0xa9,
];

/// The value of a launcher coin and of the vault coin it launches.
pub const VAULT_AMOUNT: u64 = 1;

/// The hash of the singleton top layer for `launcher_id` around
/// `inner_puzzle_hash`.
pub uninterp spec fn singleton_puzzle_hash_of(launcher_id: Seq<u8>, inner_puzzle_hash: Seq<u8>) -> Seq<u8>;

/// Calls `SingletonArgs::curry_tree_hash` of `chia_puzzle_types`. The result
/// is the uninterpreted function `singleton_puzzle_hash_of` of the two hashes.
#[verifier::external_body]
fn hash_singleton(launcher_id: &Bytes32, inner_puzzle_hash: &Bytes32) -> (r: Bytes32)
    ensures
        r@ == singleton_puzzle_hash_of(launcher_id@, inner_puzzle_hash@),
{
    let hash = SingletonArgs::curry_tree_hash(launcher_id.bytes.into(), TreeHash::new(inner_puzzle_hash.bytes));
    Bytes32::new(hash.to_bytes())
}

/// The launch of a vault: the launcher coin to create, and the vault's first
/// state.
#[derive(Clone, Debug, PartialEq, Eq)]
pub struct LaunchPlan {
    /// The launcher coin, a child of the bootstrap coin.
    pub launcher_coin: Coin,
    /// The vault's first state, whose launcher is the launcher coin.
    pub vault: VaultState,
}

/// The launcher coin that the coin `security_coin_id` creates.
pub open spec fn launcher_coin_of(security_coin_id: Seq<u8>) -> CoinModel {
    CoinModel {
        parent_coin_info: security_coin_id,
        puzzle_hash: SINGLETON_LAUNCHER_HASH@,
        amount: VAULT_AMOUNT,
    }
}

impl LaunchPlan {
    /// Whether this is the launch, from the bootstrap coin `security_coin`,
    /// of a vault that `threshold` of `keys` govern and whose inner puzzle
    /// hashes to `inner_puzzle_hash`.
    pub open spec fn launches(
        &self,
        security_coin: CoinModel,
        threshold: usize,
        keys: Seq<Seq<u8>>,
        inner_puzzle_hash: Seq<u8>,
    ) -> bool {
        let launcher = launcher_coin_of(security_coin.id());
        &&& self.launcher_coin@ == launcher
        &&& self.vault.launcher_id@ == launcher.id()
        &&& self.vault.threshold == threshold
        &&& key_views(self.vault.public_keys@) == keys
        &&& self.vault.inner_puzzle_hash@ == inner_puzzle_hash
        &&& self.vault.coin@ == (CoinModel {
            parent_coin_info: launcher.id(),
            puzzle_hash: singleton_puzzle_hash_of(launcher.id(), inner_puzzle_hash),
            amount: VAULT_AMOUNT,
        })
    }
}

/// Plans the launch of a vault that `threshold` of `public_keys` govern: the
/// launcher coin is a child of the bootstrap coin, and the vault's first coin
/// a child of the launcher. There is no plan where a key is not a valid
/// public key.
pub fn plan_launch(security_coin: &Coin, threshold: usize, public_keys: Vec<PublicKey>) -> (r: Option<LaunchPlan>)
    ensures
        match m_of_n_puzzle_hash_of(threshold, key_views(public_keys@)) {
            Some(inner_puzzle_hash) => r matches Some(plan) && plan.launches(
                security_coin@,
                threshold,
                key_views(public_keys@),
                inner_puzzle_hash,
            ),
            None => r is None,
        },
{
    let inner_puzzle_hash = match governance_puzzle_hash(threshold, &public_keys) {
        Some(hash) => hash,
        None => {
            return None;
        },
    };
    let launcher_coin = Coin::new(
        security_coin.coin_id(),
        Bytes32::new(SINGLETON_LAUNCHER_HASH),
        VAULT_AMOUNT,
    );
    let launcher_id = launcher_coin.coin_id();
    let coin = Coin::new(launcher_id, hash_singleton(&launcher_id, &inner_puzzle_hash), VAULT_AMOUNT);
    let vault = VaultState { coin, launcher_id, threshold, public_keys, inner_puzzle_hash };
    Some(LaunchPlan { launcher_coin, vault })
}

/// Plans the launch of a vault that the one key `owner` governs alone.
pub fn cli_launch_vault(security_coin: &Coin, owner: PublicKey) -> (r: Option<LaunchPlan>)
    ensures
        match m_of_n_puzzle_hash_of(1, seq![owner@]) {
            Some(inner_puzzle_hash) => r matches Some(plan) && plan.launches(
                security_coin@,
                1,
                seq![owner@],
                inner_puzzle_hash,
            ),
            None => r is None,
        },
{
    let mut keys: Vec<PublicKey> = Vec::new();
    keys.push(owner);
    assert(key_views(keys@) =~= seq![owner@]);
    plan_launch(security_coin, 1, keys)
}

} // verus!
