use crate::asset::{
    asset_id, asset_id_of, cat_puzzle_hash, cat_puzzle_hash_of, hidden_puzzle_hash,
    hidden_puzzle_hash_of, revocation_puzzle_hash, revocation_puzzle_hash_of,
    EverythingWithSingletonTailSolution,
};
use crate::authorization::{vault_recreation, VAULT_MESSAGE_MODE};
use crate::bytes::Bytes32;
use crate::coin::{Coin, CoinModel};
use crate::conditions::{
    condition_views, delegated_puzzle_hash_of, list_hash, Condition, ConditionModel,
    DelegatedPuzzle,
};
use crate::hashing::atom_hash;
use crate::vault::VaultState;
use vstd::prelude::*;

verus! {

/// All that one issuance consists of before anything is signed.
#[derive(Debug, PartialEq, Eq)]
pub struct IssuancePlan {
    /// The identifier of the asset that is minted.
    pub asset_id: Bytes32,
    /// The revocation authority of the asset.
    pub hidden_puzzle_hash: Bytes32,
    /// The genesis coin of the minted amount.
    pub eve_coin: Coin,
    /// The genesis coin's inner puzzle: it outputs the minted amount to the
    /// recipient and runs the issuance program.
    pub eve: DelegatedPuzzle,
    /// What the bootstrap coin outputs: the genesis coin, and the assertion
    /// that it is spent in the same bundle; sealed with the commitment that
    /// the bootstrap coin's signature has to cover.
    pub anchor: DelegatedPuzzle,
    /// What the vault outputs: the approval message to the genesis coin, and
    /// its own recreation last.
    pub vault_conditions: Vec<Condition>,
}

/// What the genesis coin outputs when `amount` is minted for `recipient`
/// with the approval of the vault whose inner puzzle hashes to
/// `vault_inner_puzzle_hash`.
pub open spec fn eve_conditions_of(
    launcher_id: Seq<u8>,
    amount: u64,
    recipient: Seq<u8>,
    vault_inner_puzzle_hash: Seq<u8>,
) -> Seq<ConditionModel> {
    seq![
        ConditionModel::CreateCoin { puzzle_hash: recipient, amount, hint: Some(recipient) },
        ConditionModel::RunCatTail {
            program_hash: asset_id_of(launcher_id),
            solution_hash: list_hash(seq![atom_hash(vault_inner_puzzle_hash)]),
        },
    ]
}

/// The hash of the genesis coin's inner puzzle.
pub open spec fn eve_inner_puzzle_hash_of(
    launcher_id: Seq<u8>,
    amount: u64,
    recipient: Seq<u8>,
    vault_inner_puzzle_hash: Seq<u8>,
) -> Seq<u8> {
    delegated_puzzle_hash_of(
        eve_conditions_of(launcher_id, amount, recipient, vault_inner_puzzle_hash),
    )
}

/// The genesis coin: a child of the bootstrap coin, locked as a revocable
/// coin of the asset around its inner puzzle.
pub open spec fn eve_coin_of(
    launcher_id: Seq<u8>,
    amount: u64,
    recipient: Seq<u8>,
    vault_inner_puzzle_hash: Seq<u8>,
    security_coin: CoinModel,
) -> CoinModel {
    CoinModel {
        parent_coin_info: security_coin.id(),
        puzzle_hash: cat_puzzle_hash_of(
            asset_id_of(launcher_id),
            revocation_puzzle_hash_of(
                hidden_puzzle_hash_of(launcher_id),
                eve_inner_puzzle_hash_of(launcher_id, amount, recipient, vault_inner_puzzle_hash),
            ),
        ),
        amount,
    }
}

impl IssuancePlan {
    /// Whether this is the plan that mints `amount` of the asset of the vault
    /// `vault`, launched by `launcher_id`, for `recipient`, anchored by
    /// `security_coin`.
    pub open spec fn issues(
        &self,
        launcher_id: Seq<u8>,
        amount: u64,
        vault: VaultState,
        security_coin: CoinModel,
        recipient: Seq<u8>,
    ) -> bool {
        let eve = eve_coin_of(
            launcher_id,
            amount,
            recipient,
            vault.inner_puzzle_hash@,
            security_coin,
        );
        &&& self.asset_id@ == asset_id_of(launcher_id)
        &&& self.hidden_puzzle_hash@ == hidden_puzzle_hash_of(launcher_id)
        &&& self.eve_coin@ == eve
        &&& self.eve@ == eve_conditions_of(
            launcher_id,
            amount,
            recipient,
            vault.inner_puzzle_hash@,
        )
        &&& self.anchor@ == seq![
            ConditionModel::CreateCoin { puzzle_hash: eve.puzzle_hash, amount, hint: None },
            ConditionModel::AssertConcurrentSpend { coin_id: eve.id() },
        ]
        &&& condition_views(self.vault_conditions@) == seq![
            ConditionModel::SendMessage {
                mode: VAULT_MESSAGE_MODE,
                message: Seq::<u8>::empty(),
                receiver: eve.id(),
            },
            vault_recreation(vault.inner_puzzle_hash@, vault.coin.amount, launcher_id),
        ]
    }
}

/// Plans the issuance of `cat_amount` of the asset that the vault governs:
/// derives the asset identifier and the revocation authority from the
/// vault's identity, builds the genesis coin as a child of the bootstrap
/// coin, has the bootstrap coin create it and assert its spend, and has the
/// vault approve with an empty message before it recreates itself.
pub fn cli_issue(
    launcher_id: Bytes32,
    cat_amount: u64,
    vault: &VaultState,
    security_coin: &Coin,
    recipient: Bytes32,
) -> (r: IssuancePlan)
    ensures
        r.issues(launcher_id@, cat_amount, *vault, security_coin@, recipient@),
{
    let asset = asset_id(&launcher_id);
    let authority = hidden_puzzle_hash(&launcher_id);
    let solution = EverythingWithSingletonTailSolution {
        singleton_inner_puzzle_hash: vault.inner_puzzle_hash,
    };
    let mut eve_conditions: Vec<Condition> = Vec::new();
    eve_conditions.push(
        Condition::CreateCoin { puzzle_hash: recipient, amount: cat_amount, hint: Some(recipient) },
    );
    eve_conditions.push(
        Condition::RunCatTail { program_hash: asset, solution_hash: solution.tree_hash() },
    );
    assert(condition_views(eve_conditions@) =~= eve_conditions_of(
        launcher_id@,
        cat_amount,
        recipient@,
        vault.inner_puzzle_hash@,
    ));
    let eve = DelegatedPuzzle::seal(eve_conditions);
    let eve_inner_puzzle_hash = eve.commitment();
    let eve_puzzle_hash = cat_puzzle_hash(
        &asset,
        &revocation_puzzle_hash(&authority, &eve_inner_puzzle_hash),
    );
    let eve_coin = Coin::new(security_coin.coin_id(), eve_puzzle_hash, cat_amount);
    let eve_id = eve_coin.coin_id();

    let mut anchor_conditions: Vec<Condition> = Vec::new();
    anchor_conditions.push(
        Condition::CreateCoin { puzzle_hash: eve_puzzle_hash, amount: cat_amount, hint: None },
    );
    anchor_conditions.push(Condition::AssertConcurrentSpend { coin_id: eve_id });

    let mut vault_conditions: Vec<Condition> = Vec::new();
    vault_conditions.push(
        Condition::SendMessage { mode: VAULT_MESSAGE_MODE, message: Vec::new(), receiver: eve_id },
    );
    vault_conditions.push(
        Condition::CreateCoin {
            puzzle_hash: vault.inner_puzzle_hash,
            amount: vault.coin.amount,
            hint: Some(launcher_id),
        },
    );
    proof {
        let coin = eve_coin_of(
            launcher_id@,
            cat_amount,
            recipient@,
            vault.inner_puzzle_hash@,
            security_coin@,
        );
        assert(eve_coin@ == coin);
        assert(condition_views(anchor_conditions@) =~= seq![
            ConditionModel::CreateCoin { puzzle_hash: coin.puzzle_hash, amount: cat_amount, hint: None },
            ConditionModel::AssertConcurrentSpend { coin_id: coin.id() },
        ]);
        assert(condition_views(vault_conditions@) =~= seq![
            ConditionModel::SendMessage {
                mode: VAULT_MESSAGE_MODE,
                message: Seq::<u8>::empty(),
                receiver: coin.id(),
            },
            vault_recreation(vault.inner_puzzle_hash@, vault.coin.amount, launcher_id@),
        ]);
    }
    let anchor = DelegatedPuzzle::seal(anchor_conditions);
    IssuancePlan {
        asset_id: asset,
        hidden_puzzle_hash: authority,
        eve_coin,
        eve,
        anchor,
        vault_conditions,
    }
}

} // verus!
