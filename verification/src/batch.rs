use crate::error::EngineError;
use crate::split::{kept_amount, lemma_kept_is_bounded, revoked_amount, split};
use crate::validator::{cat_views, CatCoin, CatCoinModel, ValidatedCoins};
use vstd::prelude::*;

verus! {

/// One validated target with its split.
#[derive(Clone, Copy, Debug, PartialEq, Eq)]
pub struct BatchEntry {
    pub cat: CatCoin,
    /// What the holder retains.
    pub kept: u64,
    /// What is revoked.
    pub revoked: u64,
}

/// The validated targets of one revocation, in order, each with its split,
/// and what is revoked in all.
#[derive(Clone, Debug, PartialEq, Eq)]
pub struct RevocationBatch {
    pub entries: Vec<BatchEntry>,
    pub total_revoked: u64,
}

/// The sum of the amounts of `cats`.
pub open spec fn amount_total(cats: Seq<CatCoinModel>) -> nat
    decreases cats.len(),
{
    if cats.len() == 0 {
        0
    } else {
        amount_total(cats.drop_last()) + cats.last().coin.amount as nat
    }
}

/// The sum of what the holders of `cats` keep when each retains
/// `percent_kept` percent.
pub open spec fn kept_total(cats: Seq<CatCoinModel>, percent_kept: nat) -> nat
    decreases cats.len(),
{
    if cats.len() == 0 {
        0
    } else {
        kept_total(cats.drop_last(), percent_kept) + kept_amount(
            cats.last().coin.amount as nat,
            percent_kept,
        )
    }
}

/// The sum of what is revoked from `cats` when each holder retains
/// `percent_kept` percent.
pub open spec fn revoked_total(cats: Seq<CatCoinModel>, percent_kept: nat) -> nat
    decreases cats.len(),
{
    if cats.len() == 0 {
        0
    } else {
        revoked_total(cats.drop_last(), percent_kept) + revoked_amount(
            cats.last().coin.amount as nat,
            percent_kept,
        )
    }
}

/// Conservation over a batch: what all holders keep and what is revoked in
/// all add up to the amounts of the coins.
pub proof fn lemma_batch_conserves(cats: Seq<CatCoinModel>, percent_kept: nat)
    requires
        percent_kept <= 100,
    ensures
        kept_total(cats, percent_kept) + revoked_total(cats, percent_kept) == amount_total(cats),
    decreases cats.len(),
{
    if cats.len() > 0 {
        lemma_batch_conserves(cats.drop_last(), percent_kept);
        lemma_kept_is_bounded(cats.last().coin.amount as nat, percent_kept);
    }
}

/// Keeping everything revokes nothing from any batch.
pub proof fn lemma_keep_all_revokes_nothing(cats: Seq<CatCoinModel>)
    ensures
        revoked_total(cats, 100) == 0,
    decreases cats.len(),
{
    if cats.len() > 0 {
        lemma_keep_all_revokes_nothing(cats.drop_last());
        crate::split::lemma_keep_all(cats.last().coin.amount as nat);
    }
}

/// What is revoked from the first coins of a batch is no more than what is
/// revoked from all of them.
pub proof fn lemma_revoked_total_grows(cats: Seq<CatCoinModel>, percent_kept: nat, n: int)
    requires
        0 <= n <= cats.len(),
    ensures
        revoked_total(cats.take(n), percent_kept) <= revoked_total(cats, percent_kept),
    decreases cats.len() - n,
{
    if n == cats.len() {
        assert(cats.take(n) =~= cats);
    } else {
        lemma_revoked_total_grows(cats, percent_kept, n + 1);
        assert(cats.take(n + 1).drop_last() =~= cats.take(n));
    }
}

impl RevocationBatch {
    /// Whether this is the batch over `cats` at `percent_kept`: one entry per
    /// coin, in order, each with its split, and the total of what is revoked.
    pub open spec fn is_batch_of(&self, cats: Seq<CatCoinModel>, percent_kept: nat) -> bool {
        &&& self.entries@.len() == cats.len()
        &&& cats.len() > 0
        &&& forall|i: int|
            0 <= i < cats.len() ==> {
                &&& (#[trigger] self.entries@[i]).cat@ == cats[i]
                &&& self.entries@[i].kept == kept_amount(cats[i].coin.amount as nat, percent_kept)
                &&& self.entries@[i].revoked == revoked_amount(
                    cats[i].coin.amount as nat,
                    percent_kept,
                )
                &&& self.entries@[i].kept + self.entries@[i].revoked == cats[i].coin.amount
            }
        &&& self.total_revoked == revoked_total(cats, percent_kept)
    }
}

/// Splits every validated coin and adds up what is revoked. An empty list of
/// coins is rejected; so is a batch whose revoked amounts do not fit into the
/// amount of one coin.
pub fn build_batch(coins: &ValidatedCoins, percent_kept: u8) -> (r: Result<
    RevocationBatch,
    EngineError,
>)
    requires
        percent_kept <= 100,
    ensures
        match r {
            Ok(batch) => batch.is_batch_of(coins@, percent_kept as nat),
            Err(e) => if coins@.len() == 0 {
                e is EmptyBatch
            } else {
                e is AmountOverflow && revoked_total(coins@, percent_kept as nat) > u64::MAX
            },
        },
        coins@.len() > 0 && revoked_total(coins@, percent_kept as nat) <= u64::MAX ==> r is Ok,
{
    let cats = coins.coins();
    if cats.len() == 0 {
        return Err(EngineError::EmptyBatch);
    }
    let ghost all = cat_views(cats@);
    let ghost p = percent_kept as nat;
    let mut entries: Vec<BatchEntry> = Vec::new();
    let mut total: u64 = 0;
    let mut i: usize = 0;
    proof {
        assert(all.take(0) =~= Seq::<CatCoinModel>::empty());
    }
    while i < cats.len()
        invariant
            i <= cats@.len(),
            percent_kept <= 100,
            all == cat_views(cats@),
            all == coins@,
            p == percent_kept as nat,
            entries@.len() == i,
            total == revoked_total(all.take(i as int), p),
            forall|j: int|
                0 <= j < i ==> {
                    &&& (#[trigger] entries@[j]).cat@ == all[j]
                    &&& entries@[j].kept == kept_amount(all[j].coin.amount as nat, p)
                    &&& entries@[j].revoked == revoked_amount(all[j].coin.amount as nat, p)
                    &&& entries@[j].kept + entries@[j].revoked == all[j].coin.amount
                },
        decreases cats@.len() - i,
    {
        let cat = cats[i];
        let (kept, revoked) = split(cat.coin.amount, percent_kept);
        proof {
            assert(all.take(i as int + 1).drop_last() =~= all.take(i as int));
            assert(all.take(i as int + 1).last() == all[i as int]);
            lemma_revoked_total_grows(all, p, i as int + 1);
        }
        match total.checked_add(revoked) {
            Some(sum) => {
                total = sum;
            },
            None => {
                return Err(EngineError::AmountOverflow);
            },
        }
        entries.push(BatchEntry { cat, kept, revoked });
        i = i + 1;
    }
    proof {
        assert(all.take(i as int) =~= all);
    }
    Ok(RevocationBatch { entries, total_revoked: total })
}

} // verus!
