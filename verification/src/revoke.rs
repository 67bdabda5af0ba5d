use crate::authorization::{authorize, Authorization, AuthorizationTerms};
use crate::batch::{build_batch, revoked_total, RevocationBatch};
use crate::bytes::Bytes32;
use crate::coin::Coin;
use crate::conditions::{condition_views, Condition, ConditionModel, DelegatedPuzzle};
use crate::error::EngineError;
use crate::validator::{
    all_genuine, cat_views, first_rejection, is_governed, lemma_genuine_is_governed, validate_all,
    verdict_at, CatCoinModel, TargetInput, ValidatedCoins, Verdict,
};
use crate::vault::VaultState;
use vstd::prelude::*;

verus! {

/// The anchor's one condition: the coin `target` is spent in the same bundle.
pub open spec fn anchor_conditions_of(target: Seq<u8>) -> Seq<ConditionModel> {
    seq![ConditionModel::AssertConcurrentSpend { coin_id: target }]
}

/// The conditions of the bootstrap coin's spend, which ties the bundle to the
/// spend of the coin `target`.
pub fn anchor_conditions(target: &Coin) -> (r: Vec<Condition>)
    ensures
        condition_views(r@) == anchor_conditions_of(target@.id()),
{
    let mut conditions: Vec<Condition> = Vec::new();
    conditions.push(Condition::AssertConcurrentSpend { coin_id: target.coin_id() });
    assert(condition_views(conditions@) =~= anchor_conditions_of(target@.id()));
    conditions
}

/// All that one revocation consists of before anything is signed.
#[derive(Debug, PartialEq, Eq)]
pub struct RevocationPlan {
    /// The validated targets with their splits.
    pub batch: RevocationBatch,
    /// What the vault authorizes each target to do.
    pub authorization: Authorization,
    /// The conditions of the bootstrap coin's spend, sealed with the
    /// commitment that the bootstrap coin's signature has to cover.
    pub anchor: DelegatedPuzzle,
}

/// What fixes a revocation besides the targets.
pub struct RevocationTerms {
    pub launcher_id: Seq<u8>,
    pub percentage: u8,
    pub hidden_puzzle_hash: Seq<u8>,
    pub vault_inner_puzzle_hash: Seq<u8>,
    pub vault_amount: u64,
    pub recipient: Seq<u8>,
}

impl RevocationTerms {
    /// The terms of the authorization within this revocation.
    pub open spec fn authorization_terms(self) -> AuthorizationTerms {
        AuthorizationTerms {
            percent_kept: self.percentage,
            authority: self.hidden_puzzle_hash,
            recipient: self.recipient,
            vault_inner_puzzle_hash: self.vault_inner_puzzle_hash,
            vault_amount: self.vault_amount,
            launcher_id: self.launcher_id,
        }
    }
}

impl RevocationPlan {
    /// Whether this is the plan that revokes from the genuine coins `cats`
    /// under `terms`.
    pub open spec fn revokes(&self, cats: Seq<CatCoinModel>, terms: RevocationTerms) -> bool {
        &&& self.batch.is_batch_of(cats, terms.percentage as nat)
        &&& self.authorization.authorizes(self.batch, terms.authorization_terms())
        &&& self.anchor@ == anchor_conditions_of(cats[0].coin.id())
    }
}

/// Nothing is planned for no coins at all, so that nothing is handed to a
/// signer then: a plan revokes from at least one coin, authorizes each coin
/// once, and has the vault send one message per coin before it recreates
/// itself.
pub proof fn lemma_plan_has_targets(plan: RevocationPlan, cats: Seq<CatCoinModel>, terms: RevocationTerms)
    requires
        plan.revokes(cats, terms),
    ensures
        cats.len() > 0,
        plan.batch.entries@.len() == cats.len(),
        plan.authorization.targets@.len() == cats.len(),
        plan.authorization.vault_conditions@.len() == cats.len() + 1,
{
}

/// Plans a revocation over coins that passed validation: splits each, lets
/// the first pay out what is revoked in all, has the vault message every
/// coin, and anchors the bundle to the first coin's spend. The revocation
/// authority is the one that the coins were validated against.
pub fn plan_revocation(
    coins: &ValidatedCoins,
    launcher_id: Bytes32,
    percentage: u8,
    vault_inner_puzzle_hash: Bytes32,
    vault_amount: u64,
    recipient: Bytes32,
) -> (r: Result<RevocationPlan, EngineError>)
    requires
        percentage <= 100,
    ensures
        match r {
            Ok(plan) => plan.revokes(
                coins@,
                (RevocationTerms {
                    launcher_id: launcher_id@,
                    percentage,
                    hidden_puzzle_hash: coins.authority(),
                    vault_inner_puzzle_hash: vault_inner_puzzle_hash@,
                    vault_amount,
                    recipient: recipient@,
                }),
            ),
            Err(e) => if coins@.len() == 0 {
                e is EmptyBatch
            } else {
                e is AmountOverflow && revoked_total(coins@, percentage as nat) > u64::MAX
            },
        },
        coins@.len() == 0 ==> r matches Err(EngineError::EmptyBatch),
        coins@.len() > 0 && revoked_total(coins@, percentage as nat) <= u64::MAX ==> r is Ok,
{
    let batch = build_batch(coins, percentage)?;
    let authorization = authorize(
        &batch,
        percentage,
        &coins.authority_hash(),
        &recipient,
        &vault_inner_puzzle_hash,
        vault_amount,
        &launcher_id,
    )?;
    let cats = coins.coins();
    let anchor = DelegatedPuzzle::seal(anchor_conditions(&cats[0].coin));
    let plan = RevocationPlan { batch, authorization, anchor };
    proof {
        assert(cat_views(cats@)[0] == cats@[0]@);
    }
    Ok(plan)
}

/// The coins that the targets were validated as, in order; meaningful where
/// every target is genuine.
pub open spec fn genuine_cats(targets: Seq<TargetInput>, asset_id: Seq<u8>, authority: Seq<u8>) -> Seq<
    CatCoinModel,
> {
    Seq::new(
        targets.len(),
        |i: int| verdict_at(targets, i, asset_id, authority)->Genuine_0,
    )
}

/// Whether every target is genuine.
pub open spec fn every_target_genuine(
    targets: Seq<TargetInput>,
    asset_id: Seq<u8>,
    authority: Seq<u8>,
) -> bool {
    forall|i: int|
        0 <= i < targets.len() ==> #[trigger] verdict_at(targets, i, asset_id, authority)
            is Genuine
}

/// Where no target is of another asset or authority, or fails otherwise, the
/// batch holds exactly the validated coins: a coin that is rejected is in no
/// batch, so that no total includes it.
pub proof fn lemma_rejected_coin_is_in_no_batch(
    targets: Seq<TargetInput>,
    cats: Seq<CatCoinModel>,
    asset_id: Seq<u8>,
    authority: Seq<u8>,
    index: int,
)
    requires
        all_genuine(targets, cats, asset_id, authority),
        0 <= index < targets.len(),
    ensures
        verdict_at(targets, index, asset_id, authority) is Genuine,
        !(verdict_at(targets, index, asset_id, authority) is Mismatch),
        is_governed(cats[index], asset_id, authority),
{
    let v = verdict_at(targets, index, asset_id, authority);
    assert(v == Verdict::Genuine(cats[index]));
    let target = targets[index];
    lemma_genuine_is_governed(
        target.record,
        target.parent_spend,
        asset_id,
        authority,
    );
}

/// Plans a revocation that leaves every holder `percentage` percent:
/// validates every target against the asset and its revocation authority,
/// splits each coin, and builds what the vault authorizes and what the
/// bootstrap coin asserts. Nothing is planned unless every target is
/// genuine, and nothing for no target at all.
pub fn revoke_coins(
    launcher_id: Bytes32,
    percentage: u8,
    asset_id: Bytes32,
    hidden_puzzle_hash: Bytes32,
    vault: &VaultState,
    targets: &Vec<TargetInput>,
    recipient: Bytes32,
) -> (r: Result<RevocationPlan, EngineError>)
    requires
        percentage <= 100,
    ensures
        match r {
            Ok(plan) => every_target_genuine(targets@, asset_id@, hidden_puzzle_hash@)
                && plan.revokes(
                genuine_cats(targets@, asset_id@, hidden_puzzle_hash@),
                (RevocationTerms {
                    launcher_id: launcher_id@,
                    percentage,
                    hidden_puzzle_hash: hidden_puzzle_hash@,
                    vault_inner_puzzle_hash: vault.inner_puzzle_hash@,
                    vault_amount: vault.coin.amount,
                    recipient: recipient@,
                }),
            ),
            Err(e) => if every_target_genuine(targets@, asset_id@, hidden_puzzle_hash@) {
                if targets@.len() == 0 {
                    e is EmptyBatch
                } else {
                    e is AmountOverflow && revoked_total(
                        genuine_cats(targets@, asset_id@, hidden_puzzle_hash@),
                        percentage as nat,
                    ) > u64::MAX
                }
            } else {
                exists|k: int| first_rejection(targets@, k, e, asset_id@, hidden_puzzle_hash@)
            },
        },
        targets@.len() == 0 ==> r matches Err(EngineError::EmptyBatch),
        every_target_genuine(targets@, asset_id@, hidden_puzzle_hash@) && targets@.len() > 0
            && revoked_total(
            genuine_cats(targets@, asset_id@, hidden_puzzle_hash@),
            percentage as nat,
        ) <= u64::MAX ==> r is Ok,
{
    let coins = match validate_all(targets, &asset_id, &hidden_puzzle_hash) {
        Ok(coins) => coins,
        Err(e) => {
            proof {
                let k = choose|k: int|
                    first_rejection(targets@, k, e, asset_id@, hidden_puzzle_hash@);
                assert(!(verdict_at(targets@, k, asset_id@, hidden_puzzle_hash@) is Genuine));
            }
            return Err(e);
        },
    };
    proof {
        assert(coins@ =~= genuine_cats(targets@, asset_id@, hidden_puzzle_hash@));
    }
    plan_revocation(
        &coins,
        launcher_id,
        percentage,
        vault.inner_puzzle_hash,
        vault.coin.amount,
        recipient,
    )
}

} // verus!
