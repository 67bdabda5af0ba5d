use crate::batch::{build_batch, revoked_total, RevocationBatch};
use crate::bytes::Bytes32;
use crate::coin::{CoinRecord, CoinSpend};
use crate::error::EngineError;
use crate::revoke::{plan_revocation, RevocationPlan, RevocationTerms};
use crate::validator::{
    cat_views, coin_verdict, is_governed, reports, validate_coin, CatCoin, CatCoinModel,
    ValidatedCoins, Verdict,
};
use crate::vault::VaultState;
use vstd::prelude::*;

verus! {

/// A revocation attempt while its targets are validated, one at a time and
/// in order. The target at hand is unspent; the spend of its parent is what
/// the ledger is asked for next.
#[derive(Debug, PartialEq, Eq)]
pub struct Validating {
    vault: VaultState,
    asset_id: Bytes32,
    authority: Bytes32,
    percentage: u8,
    records: Vec<CoinRecord>,
    cats: Vec<CatCoin>,
}

/// A revocation attempt whose targets all passed validation: at least one
/// coin, each split, with a total that fits. Only this stage plans, so that
/// no wallet is asked for anything before.
#[derive(Debug, PartialEq, Eq)]
pub struct Validated {
    vault: VaultState,
    percentage: u8,
    coins: ValidatedCoins,
    batch: RevocationBatch,
}

/// What one answer of the ledger leads to.
#[derive(Debug, PartialEq, Eq)]
pub enum ValidationStep {
    /// The next target's parent spend is wanted.
    Continue(Validating),
    /// Every target passed.
    Validated(Validated),
    /// The attempt ended.
    Failed(EngineError),
}

impl Validating {
    #[verifier::type_invariant]
    spec fn well_formed(self) -> bool {
        &&& self.percentage <= 100
        &&& self.cats@.len() < self.records@.len()
        &&& !self.records@[self.cats@.len() as int].spent
        &&& forall|i: int|
            0 <= i < self.cats@.len() ==> is_governed(
                (#[trigger] self.cats@[i])@,
                self.asset_id@,
                self.authority@,
            )
    }

    /// The targets of the attempt.
    pub closed spec fn records(self) -> Seq<CoinRecord> {
        self.records@
    }

    /// The coins that passed so far, in the order of the targets.
    pub closed spec fn validated(self) -> Seq<CatCoinModel> {
        cat_views(self.cats@)
    }

    /// The asset that the targets are validated against.
    pub closed spec fn asset_id(self) -> Seq<u8> {
        self.asset_id@
    }

    /// The revocation authority that the targets are validated against.
    pub closed spec fn authority(self) -> Seq<u8> {
        self.authority@
    }

    /// The share that holders keep.
    pub closed spec fn percentage(self) -> u8 {
        self.percentage
    }

    /// The vault that revokes.
    pub closed spec fn vault(self) -> VaultState {
        self.vault
    }

    /// Whether there is a target at hand, and it is unspent.
    pub open spec fn pending(self) -> bool {
        self.validated().len() < self.records().len() && !self.current().spent
    }

    /// The target at hand.
    pub open spec fn current(self) -> CoinRecord {
        self.records()[self.validated().len() as int]
    }

    /// Whether `next` is this attempt at the same targets under the same
    /// terms.
    pub open spec fn continues_as(self, next: Validating) -> bool {
        &&& next.records() == self.records()
        &&& next.asset_id() == self.asset_id()
        &&& next.authority() == self.authority()
        &&& next.percentage() == self.percentage()
        &&& next.vault() == self.vault()
    }

    /// What to ask the ledger for next: the spend of the coin that created
    /// the target at hand, at the height at which the target was confirmed.
    pub fn request(&self) -> (r: (Bytes32, u32))
        ensures
            self.pending(),
            r.0 == self.current().coin.parent_coin_info,
            r.1 == self.current().confirmed_block_index,
    {
        proof {
            use_type_invariant(self);
        }
        let record = &self.records[self.cats.len()];
        (record.coin.parent_coin_info, record.confirmed_block_index)
    }

    /// Takes the ledger's answer on the parent of the target at hand and
    /// validates the target. A target that fails ends the attempt with its
    /// error; so does a next target that is spent already. After the last
    /// target the coins are split, and the attempt ends where what is
    /// revoked in all does not fit into a coin's amount.
    pub fn on_parent_spend(self, parent_spend: Option<CoinSpend>) -> (r: ValidationStep)
        ensures
            self.pending(),
            match coin_verdict(self.current(), parent_spend, self.asset_id(), self.authority()) {
                Verdict::Genuine(cat) => {
                    let cats = self.validated().push(cat);
                    if cats.len() == self.records().len() {
                        if revoked_total(cats, self.percentage() as nat) <= u64::MAX {
                            r matches ValidationStep::Validated(done) && done@ == cats
                                && done.percentage() == self.percentage() && done.vault()
                                == self.vault() && done.authority() == self.authority()
                        } else {
                            r matches ValidationStep::Failed(EngineError::AmountOverflow)
                        }
                    } else if self.records()[cats.len() as int].spent {
                        r matches ValidationStep::Failed(EngineError::AlreadySpent { coin_id })
                            && coin_id@ == self.records()[cats.len() as int].coin@.id()
                    } else {
                        r matches ValidationStep::Continue(next) && self.continues_as(next)
                            && next.validated() == cats
                    }
                },
                other => r matches ValidationStep::Failed(e) && reports(
                    Err(e),
                    other,
                    self.current().coin@.id(),
                    self.asset_id(),
                    self.authority(),
                ),
            },
    {
        proof {
            use_type_invariant(&self);
        }
        let Validating { vault, asset_id, authority, percentage, records, cats } = self;
        let ghost before = cat_views(cats@);
        let record = records[cats.len()];
        match validate_coin(&record, &parent_spend, &asset_id, &authority) {
            Err(e) => ValidationStep::Failed(e),
            Ok(cat) => {
                let mut cats = cats;
                cats.push(cat);
                proof {
                    assert(cat_views(cats@) =~= before.push(cat@));
                    crate::validator::lemma_genuine_is_governed(
                        record,
                        parent_spend,
                        asset_id@,
                        authority@,
                    );
                }
                if cats.len() == records.len() {
                    let coins = ValidatedCoins::assemble(cats, asset_id, authority);
                    match build_batch(&coins, percentage) {
                        Ok(batch) => ValidationStep::Validated(
                            Validated { vault, percentage, coins, batch },
                        ),
                        Err(e) => ValidationStep::Failed(e),
                    }
                } else if records[cats.len()].spent {
                    ValidationStep::Failed(
                        EngineError::AlreadySpent { coin_id: records[cats.len()].coin.coin_id() },
                    )
                } else {
                    ValidationStep::Continue(
                        Validating { vault, asset_id, authority, percentage, records, cats },
                    )
                }
            },
        }
    }
}

impl View for Validated {
    type V = Seq<CatCoinModel>;

    closed spec fn view(&self) -> Seq<CatCoinModel> {
        self.coins@
    }
}

impl Validated {
    #[verifier::type_invariant]
    spec fn well_formed(self) -> bool {
        self.percentage <= 100 && self.batch.is_batch_of(self.coins@, self.percentage as nat)
    }

    /// The share that holders keep.
    pub closed spec fn percentage(self) -> u8 {
        self.percentage
    }

    /// The vault that revokes.
    pub closed spec fn vault(self) -> VaultState {
        self.vault
    }

    /// The revocation authority that the coins were validated against.
    pub closed spec fn authority(self) -> Seq<u8> {
        self.coins.authority()
    }

    /// The validated coins.
    pub fn coins(&self) -> (r: &ValidatedCoins)
        ensures
            r@ == self@,
            r@.len() > 0,
    {
        proof {
            use_type_invariant(self);
        }
        &self.coins
    }

    /// The validated coins with their splits.
    pub fn batch(&self) -> (r: &RevocationBatch)
        ensures
            r.is_batch_of(self@, self.percentage() as nat),
            self@.len() > 0,
    {
        proof {
            use_type_invariant(self);
        }
        &self.batch
    }

    /// Plans the revocation in favour of `recipient`. It cannot fail any
    /// more: there is at least one coin, and the total fits.
    pub fn plan(self, recipient: Bytes32) -> (r: Result<RevocationPlan, EngineError>)
        ensures
            r matches Ok(plan) && plan.revokes(
                self@,
                (RevocationTerms {
                    launcher_id: self.vault().launcher_id@,
                    percentage: self.percentage(),
                    hidden_puzzle_hash: self.authority(),
                    vault_inner_puzzle_hash: self.vault().inner_puzzle_hash@,
                    vault_amount: self.vault().coin.amount,
                    recipient: recipient@,
                }),
            ),
    {
        proof {
            use_type_invariant(&self);
        }
        plan_revocation(
            &self.coins,
            self.vault.launcher_id,
            self.percentage,
            self.vault.inner_puzzle_hash,
            self.vault.coin.amount,
            recipient,
        )
    }
}

/// Begins the validation of the targets `records` for the vault `vault`. No
/// target at all ends the attempt at once, before anything is asked of
/// anyone; so does a first target that is spent already.
pub fn begin_validation(
    vault: VaultState,
    asset_id: Bytes32,
    authority: Bytes32,
    percentage: u8,
    records: Vec<CoinRecord>,
) -> (r: ValidationStep)
    requires
        percentage <= 100,
    ensures
        records@.len() == 0 ==> r matches ValidationStep::Failed(EngineError::EmptyBatch),
        records@.len() > 0 && records@[0].spent ==> (r matches ValidationStep::Failed(
            EngineError::AlreadySpent { coin_id },
        ) && coin_id@ == records@[0].coin@.id()),
        records@.len() > 0 && !records@[0].spent ==> (r matches ValidationStep::Continue(first)
            && first.records() == records@ && first.validated().len() == 0 && first.asset_id()
            == asset_id@ && first.authority() == authority@ && first.percentage() == percentage
            && first.vault() == vault),
{
    if records.len() == 0 {
        return ValidationStep::Failed(EngineError::EmptyBatch);
    }
    if records[0].spent {
        return ValidationStep::Failed(
            EngineError::AlreadySpent { coin_id: records[0].coin.coin_id() },
        );
    }
    ValidationStep::Continue(
        Validating { vault, asset_id, authority, percentage, records, cats: Vec::new() },
    )
}

} // verus!
