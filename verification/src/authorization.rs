use crate::asset::{revocation_puzzle_hash, revocation_puzzle_hash_of};
use crate::batch::{BatchEntry, RevocationBatch};
use crate::bytes::{to_vec, Bytes32};
use crate::conditions::{
    condition_views, delegated_puzzle_hash_of, Condition, ConditionModel, DelegatedPuzzle,
};
use crate::error::EngineError;
use crate::validator::{CatCoin, CatCoinModel};
use vstd::prelude::*;

verus! {

/// The addressing mode of a vault's authorization message: the sender commits
/// to its puzzle, the receiver to its whole coin.
pub const VAULT_MESSAGE_MODE: u8 = 23;

/// What a target's delegated condition set does, chosen once per entry.
#[derive(Clone, Copy, Debug, PartialEq, Eq)]
pub enum Disposition {
    /// The designated entry: it pays out what is revoked from the whole batch.
    AggregateRecipient,
    /// The holder gets the given amount back.
    Refund(u64),
    /// Nothing is created: the coin is revoked in full.
    FullyRevoked,
}

/// One target with the conditions delegated to it and the hash that commits
/// to them.
#[derive(Debug, PartialEq, Eq)]
pub struct TargetSpend {
    pub cat: CatCoin,
    pub disposition: Disposition,
    /// What the holder retains.
    pub kept: u64,
    /// The conditions that the coin outputs, sealed with their commitment.
    pub delegated: DelegatedPuzzle,
}

/// What the vault authorizes: each target's delegated conditions, and the
/// vault's own conditions, which send one message per target and recreate the
/// vault last.
#[derive(Debug, PartialEq, Eq)]
pub struct Authorization {
    pub targets: Vec<TargetSpend>,
    pub vault_conditions: Vec<Condition>,
}

/// Where the batch's entries stand in the plan: the first is designated.
pub open spec fn disposition_of(index: int, kept: u64) -> Disposition {
    if index == 0 {
        Disposition::AggregateRecipient
    } else if kept > 0 {
        Disposition::Refund(kept)
    } else {
        Disposition::FullyRevoked
    }
}

/// The refund to the holder of `cat`: one coin of what is kept, under the
/// holder's own locking condition and the same revocation authority; nothing
/// where nothing is kept.
pub open spec fn refund_conditions(cat: CatCoinModel, kept: u64, authority: Seq<u8>) -> Seq<
    ConditionModel,
> {
    if kept > 0 {
        let puzzle_hash = revocation_puzzle_hash_of(authority, cat.p2_puzzle_hash);
        seq![ConditionModel::CreateCoin { puzzle_hash, amount: kept, hint: Some(puzzle_hash) }]
    } else {
        Seq::empty()
    }
}

/// The payout of what is revoked from the whole batch: one coin of `total`
/// for `recipient`; nothing where everything is kept.
pub open spec fn aggregate_conditions(
    total: u64,
    percent_kept: u8,
    authority: Seq<u8>,
    recipient: Seq<u8>,
) -> Seq<ConditionModel> {
    if percent_kept < 100 {
        seq![
            ConditionModel::CreateCoin {
                puzzle_hash: revocation_puzzle_hash_of(authority, recipient),
                amount: total,
                hint: Some(recipient),
            },
        ]
    } else {
        Seq::empty()
    }
}

/// The conditions delegated to the entry at `index`: its refund, and for the
/// designated entry the aggregate payout after it.
pub open spec fn target_conditions(
    index: int,
    cat: CatCoinModel,
    kept: u64,
    total: u64,
    percent_kept: u8,
    authority: Seq<u8>,
    recipient: Seq<u8>,
) -> Seq<ConditionModel> {
    if index == 0 {
        refund_conditions(cat, kept, authority) + aggregate_conditions(
            total,
            percent_kept,
            authority,
            recipient,
        )
    } else {
        refund_conditions(cat, kept, authority)
    }
}

/// The vault's message to the coin of `cat`: it carries the hash of the
/// delegated puzzle that outputs `conditions`.
pub open spec fn message_for(cat: CatCoinModel, conditions: Seq<ConditionModel>) -> ConditionModel {
    ConditionModel::SendMessage {
        mode: VAULT_MESSAGE_MODE,
        message: delegated_puzzle_hash_of(conditions),
        receiver: cat.coin.id(),
    }
}

/// The vault's last condition: it recreates the vault with the same inner
/// puzzle and value, hinted with the launcher.
pub open spec fn vault_recreation(inner_puzzle_hash: Seq<u8>, amount: u64, launcher_id: Seq<u8>) -> ConditionModel {
    ConditionModel::CreateCoin { puzzle_hash: inner_puzzle_hash, amount, hint: Some(launcher_id) }
}

/// What fixes an authorization besides the batch.
pub struct AuthorizationTerms {
    pub percent_kept: u8,
    /// The revocation authority of the asset.
    pub authority: Seq<u8>,
    /// The puzzle hash that receives what is revoked.
    pub recipient: Seq<u8>,
    pub vault_inner_puzzle_hash: Seq<u8>,
    pub vault_amount: u64,
    pub launcher_id: Seq<u8>,
}

impl TargetSpend {
    /// Whether this is the plan for `entry`, which stands at `index` in a
    /// batch that revokes `total` in all.
    pub open spec fn is_plan_for(&self, index: int, entry: BatchEntry, total: u64, terms: AuthorizationTerms) -> bool {
        &&& self.cat == entry.cat
        &&& self.kept == entry.kept
        &&& self.disposition == disposition_of(index, entry.kept)
        &&& self.delegated@ == target_conditions(
            index,
            entry.cat@,
            entry.kept,
            total,
            terms.percent_kept,
            terms.authority,
            terms.recipient,
        )
    }
}

impl Authorization {
    /// Whether this is the authorization of `batch` under `terms`: one plan
    /// per entry, in the batch's order; one message per entry, in the same
    /// order; and the vault's recreation last.
    pub open spec fn authorizes(&self, batch: RevocationBatch, terms: AuthorizationTerms) -> bool {
        let n = batch.entries@.len() as int;
        &&& self.targets@.len() == n
        &&& forall|i: int|
            0 <= i < n ==> (#[trigger] self.targets@[i]).is_plan_for(
                i,
                batch.entries@[i],
                batch.total_revoked,
                terms,
            )
        &&& self.vault_conditions@.len() == n + 1
        &&& forall|i: int|
            0 <= i < n ==> (#[trigger] self.vault_conditions@[i])@ == message_for(
                batch.entries@[i].cat@,
                self.targets@[i].delegated@,
            )
        &&& self.vault_conditions@[n]@ == vault_recreation(
            terms.vault_inner_puzzle_hash,
            terms.vault_amount,
            terms.launcher_id,
        )
    }
}

/// Where everything is kept, no entry pays out an aggregate: each target's
/// conditions are its own refund alone.
pub proof fn lemma_keep_all_creates_no_recipient(
    index: int,
    cat: CatCoinModel,
    kept: u64,
    total: u64,
    authority: Seq<u8>,
    recipient: Seq<u8>,
)
    ensures
        target_conditions(index, cat, kept, total, 100, authority, recipient) == refund_conditions(
            cat,
            kept,
            authority,
        ),
{
    assert(refund_conditions(cat, kept, authority) + Seq::<ConditionModel>::empty()
        =~= refund_conditions(cat, kept, authority));
}

/// Where nothing is kept, no refund is created: an entry that is not
/// designated gets the empty condition set, the designated one the aggregate
/// payout alone.
pub proof fn lemma_keep_nothing_creates_no_refund(
    index: int,
    cat: CatCoinModel,
    total: u64,
    authority: Seq<u8>,
    recipient: Seq<u8>,
)
    ensures
        crate::split::kept_amount(cat.coin.amount as nat, 0) == 0,
        refund_conditions(cat, 0, authority) == Seq::<ConditionModel>::empty(),
        index != 0 ==> target_conditions(index, cat, 0, total, 0, authority, recipient)
            == Seq::<ConditionModel>::empty(),
        target_conditions(0, cat, 0, total, 0, authority, recipient) == aggregate_conditions(
            total,
            0,
            authority,
            recipient,
        ),
{
    crate::split::lemma_keep_nothing(cat.coin.amount as nat);
    assert(Seq::<ConditionModel>::empty() + aggregate_conditions(total, 0, authority, recipient)
        =~= aggregate_conditions(total, 0, authority, recipient));
}

/// Chooses the disposition of the entry at `index`.
fn choose_disposition(index: usize, kept: u64) -> (r: Disposition)
    ensures
        r == disposition_of(index as int, kept),
{
    if index == 0 {
        Disposition::AggregateRecipient
    } else if kept > 0 {
        Disposition::Refund(kept)
    } else {
        Disposition::FullyRevoked
    }
}

/// Builds the conditions delegated to the entry at `index`.
fn build_target_conditions(
    index: usize,
    entry: &BatchEntry,
    total: u64,
    percent_kept: u8,
    authority: &Bytes32,
    recipient: &Bytes32,
) -> (r: Vec<Condition>)
    ensures
        condition_views(r@) == target_conditions(
            index as int,
            entry.cat@,
            entry.kept,
            total,
            percent_kept,
            authority@,
            recipient@,
        ),
{
    let mut conditions: Vec<Condition> = Vec::new();
    if entry.kept > 0 {
        let puzzle_hash = revocation_puzzle_hash(authority, &entry.cat.p2_puzzle_hash);
        conditions.push(
            Condition::CreateCoin { puzzle_hash, amount: entry.kept, hint: Some(puzzle_hash) },
        );
    }
    assert(condition_views(conditions@) =~= refund_conditions(entry.cat@, entry.kept, authority@));
    if index == 0 && percent_kept < 100 {
        let puzzle_hash = revocation_puzzle_hash(authority, recipient);
        conditions.push(Condition::CreateCoin { puzzle_hash, amount: total, hint: Some(*recipient) });
    }
    assert(condition_views(conditions@) =~= target_conditions(
        index as int,
        entry.cat@,
        entry.kept,
        total,
        percent_kept,
        authority@,
        recipient@,
    ));
    conditions
}

/// Builds the authorization of a batch: for every entry the conditions
/// delegated to its coin and the commitment to them, and for the vault one
/// message per entry, in the batch's order, followed by the vault's own
/// recreation. An empty batch is rejected.
pub fn authorize(
    batch: &RevocationBatch,
    percent_kept: u8,
    authority: &Bytes32,
    recipient: &Bytes32,
    vault_inner_puzzle_hash: &Bytes32,
    vault_amount: u64,
    launcher_id: &Bytes32,
) -> (r: Result<Authorization, EngineError>)
    ensures
        match r {
            Ok(authorization) => batch.entries@.len() > 0 && authorization.authorizes(
                *batch,
                (AuthorizationTerms {
                    percent_kept,
                    authority: authority@,
                    recipient: recipient@,
                    vault_inner_puzzle_hash: vault_inner_puzzle_hash@,
                    vault_amount,
                    launcher_id: launcher_id@,
                }),
            ),
            Err(e) => batch.entries@.len() == 0 && e is EmptyBatch,
        },
{
    if batch.entries.len() == 0 {
        return Err(EngineError::EmptyBatch);
    }
    let ghost terms = AuthorizationTerms {
        percent_kept,
        authority: authority@,
        recipient: recipient@,
        vault_inner_puzzle_hash: vault_inner_puzzle_hash@,
        vault_amount,
        launcher_id: launcher_id@,
    };
    let mut targets: Vec<TargetSpend> = Vec::new();
    let mut vault_conditions: Vec<Condition> = Vec::new();
    let mut i: usize = 0;
    while i < batch.entries.len()
        invariant
            i <= batch.entries@.len(),
            targets@.len() == i,
            vault_conditions@.len() == i,
            terms == (AuthorizationTerms {
                percent_kept,
                authority: authority@,
                recipient: recipient@,
                vault_inner_puzzle_hash: vault_inner_puzzle_hash@,
                vault_amount,
                launcher_id: launcher_id@,
            }),
            forall|j: int|
                0 <= j < i ==> (#[trigger] targets@[j]).is_plan_for(
                    j,
                    batch.entries@[j],
                    batch.total_revoked,
                    terms,
                ),
            forall|j: int|
                0 <= j < i ==> (#[trigger] vault_conditions@[j])@ == message_for(
                    batch.entries@[j].cat@,
                    targets@[j].delegated@,
                ),
        decreases batch.entries@.len() - i,
    {
        let entry = batch.entries[i];
        let conditions = build_target_conditions(
            i,
            &entry,
            batch.total_revoked,
            percent_kept,
            authority,
            recipient,
        );
        let delegated = DelegatedPuzzle::seal(conditions);
        let commitment = delegated.commitment();
        let receiver = entry.cat.coin.coin_id();
        vault_conditions.push(
            Condition::SendMessage { mode: VAULT_MESSAGE_MODE, message: to_vec(&commitment), receiver },
        );
        targets.push(
            TargetSpend {
                cat: entry.cat,
                disposition: choose_disposition(i, entry.kept),
                kept: entry.kept,
                delegated,
            },
        );
        i = i + 1;
    }
    vault_conditions.push(
        Condition::CreateCoin {
            puzzle_hash: *vault_inner_puzzle_hash,
            amount: vault_amount,
            hint: Some(*launcher_id),
        },
    );
    Ok(Authorization { targets, vault_conditions })
}

} // verus!
