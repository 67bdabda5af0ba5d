use crate::bytes::{contains_hash, Bytes32};
use crate::coin::CoinRecord;
use crate::error::EngineError;
use vstd::prelude::*;
use vstd::seq_lib::{to_multiset_build, to_multiset_insert};

verus! {

/// One coin of a holder as a holder list names it.
#[derive(Clone, Copy, Debug, PartialEq, Eq)]
pub struct HolderCoinRecord {
    pub coin_name: Bytes32,
    pub puzzle_hash: Bytes32,
    pub amount: u64,
}

/// Whether `puzzle_hash` is among `excluded`.
pub open spec fn is_excluded(excluded: Seq<Bytes32>, puzzle_hash: Bytes32) -> bool {
    exists|i: int| 0 <= i < excluded.len() && (#[trigger] excluded[i])@ == puzzle_hash@
}

/// The names of the coins of `holders` whose puzzle hash is not excluded, in
/// the order of the list.
pub open spec fn names_to_fetch(holders: Seq<HolderCoinRecord>, excluded: Seq<Bytes32>) -> Seq<
    Bytes32,
>
    decreases holders.len(),
{
    if holders.len() == 0 {
        Seq::empty()
    } else {
        let rest = names_to_fetch(holders.drop_last(), excluded);
        if is_excluded(excluded, holders.last().puzzle_hash) {
            rest
        } else {
            rest.push(holders.last().coin_name)
        }
    }
}

/// Lists the coins to look up on the ledger: every holder coin whose puzzle
/// hash is not excluded, in the order of the holder list.
pub fn holder_coin_names(holders: &Vec<HolderCoinRecord>, excluded: &Vec<Bytes32>) -> (r: Vec<
    Bytes32,
>)
    ensures
        r@ == names_to_fetch(holders@, excluded@),
{
    let mut names: Vec<Bytes32> = Vec::new();
    let mut i: usize = 0;
    assert(holders@.take(0) =~= Seq::<HolderCoinRecord>::empty());
    while i < holders.len()
        invariant
            i <= holders@.len(),
            names@ == names_to_fetch(holders@.take(i as int), excluded@),
        decreases holders@.len() - i,
    {
        proof {
            assert(holders@.take(i as int + 1).drop_last() =~= holders@.take(i as int));
            assert(holders@.take(i as int + 1).last() == holders@[i as int]);
        }
        if !contains_hash(excluded, &holders[i].puzzle_hash) {
            names.push(holders[i].coin_name);
        }
        i = i + 1;
    }
    assert(holders@.take(i as int) =~= holders@);
    names
}

/// Whether a coin can be revoked from: it is unspent and holds at least
/// `min_coin_amount`.
pub open spec fn is_eligible(record: CoinRecord, min_coin_amount: u64) -> bool {
    !record.spent && record.coin.amount >= min_coin_amount
}

/// The coins of `records` that can be revoked from, in order.
pub open spec fn eligible_records(records: Seq<CoinRecord>, min_coin_amount: u64) -> Seq<CoinRecord>
    decreases records.len(),
{
    if records.len() == 0 {
        Seq::empty()
    } else {
        let rest = eligible_records(records.drop_last(), min_coin_amount);
        if is_eligible(records.last(), min_coin_amount) {
            rest.push(records.last())
        } else {
            rest
        }
    }
}

/// Whether the amounts of `records` never rise along the sequence.
pub open spec fn largest_first(records: Seq<CoinRecord>) -> bool {
    forall|i: int, j: int|
        0 <= i <= j < records.len() ==> (#[trigger] records[i]).coin.amount >= (
        #[trigger] records[j]).coin.amount
}

/// Whether `ordered` holds the coins of `eligible`, each as often, with the
/// largest amounts first.
pub open spec fn is_ranking_of(ordered: Seq<CoinRecord>, eligible: Seq<CoinRecord>) -> bool {
    ordered.to_multiset() == eligible.to_multiset() && largest_first(ordered)
}

/// Whether `chosen` are the first `limit` coins of some ranking of
/// `eligible`, or all of them where there are fewer. Coins of equal amount
/// may stand in any order.
pub open spec fn is_selection_of(chosen: Seq<CoinRecord>, eligible: Seq<CoinRecord>, limit: usize) -> bool {
    exists|ordered: Seq<CoinRecord>| #[trigger]
        is_ranking_of(ordered, eligible) && chosen == (if ordered.len() > limit {
            ordered.take(limit as int)
        } else {
            ordered
        })
}

/// A selection holds no coin that `eligible` does not, none more often, no
/// more coins than the limit, and none that is smaller than a coin left out.
pub proof fn lemma_selection_is_sound(chosen: Seq<CoinRecord>, eligible: Seq<CoinRecord>, limit: usize)
    requires
        is_selection_of(chosen, eligible, limit),
    ensures
        chosen.len() <= limit,
        chosen.len() == limit || chosen.len() == eligible.len(),
        chosen.len() <= eligible.len(),
        largest_first(chosen),
        chosen.to_multiset().subset_of(eligible.to_multiset()),
{
    let ordered = choose|ordered: Seq<CoinRecord>| #[trigger]
        is_ranking_of(ordered, eligible) && chosen == (if ordered.len() > limit {
            ordered.take(limit as int)
        } else {
            ordered
        });
    assert(ordered.len() == eligible.len()) by {
        vstd::seq_lib::to_multiset_len(ordered);
        vstd::seq_lib::to_multiset_len(eligible);
    }
    if ordered.len() > limit {
        lemma_prefix_is_sub_multiset(ordered, limit as int);
    }
}

/// The first items of a sequence are among its items, none more often.
pub proof fn lemma_prefix_is_sub_multiset(s: Seq<CoinRecord>, n: int)
    requires
        0 <= n <= s.len(),
    ensures
        s.take(n).to_multiset().subset_of(s.to_multiset()),
    decreases s.len() - n,
{
    broadcast use vstd::multiset::group_multiset_axioms;

    if n == s.len() {
        assert(s.take(n) =~= s);
    } else {
        lemma_prefix_is_sub_multiset(s, n + 1);
        assert(s.take(n + 1) =~= s.take(n).push(s[n]));
        to_multiset_build(s.take(n), s[n]);
    }
}

/// Puts `record` into `ordered`, which has the largest amounts first, so
/// that it still has.
fn insert_ranked(ordered: &mut Vec<CoinRecord>, record: CoinRecord)
    requires
        largest_first(old(ordered)@),
    ensures
        largest_first(final(ordered)@),
        final(ordered)@.to_multiset() == old(ordered)@.to_multiset().insert(record),
        final(ordered)@.len() == old(ordered)@.len() + 1,
{
    let mut position: usize = 0;
    while position < ordered.len() && ordered[position].coin.amount >= record.coin.amount
        invariant
            position <= ordered@.len(),
            ordered@ == old(ordered)@,
            forall|k: int| 0 <= k < position ==> (#[trigger] ordered@[k]).coin.amount >= record.coin.amount,
        decreases ordered@.len() - position,
    {
        position = position + 1;
    }
    proof {
        to_multiset_insert(ordered@, position as int, record);
        let before = ordered@;
        let after = before.insert(position as int, record);
        assert forall|i: int, j: int| 0 <= i <= j < after.len() implies (#[trigger] after[i]).coin.amount
            >= (#[trigger] after[j]).coin.amount by {
            if i < position {
                assert(after[i] == before[i]);
            } else if i > position {
                assert(after[i] == before[i - 1]);
            }
            if j < position {
                assert(after[j] == before[j]);
            } else if j > position {
                assert(after[j] == before[j - 1]);
            }
            if position < before.len() {
                assert(before[position as int].coin.amount < record.coin.amount);
            }
        }
    }
    ordered.insert(position, record);
}

/// Chooses the coins to revoke from: of the coins that are unspent and hold
/// at least `min_coin_amount`, the `max_coins` largest, largest first. Fewer
/// such coins than `min_coins` fail the selection, with the number found and
/// the number required.
pub fn cli_revoke_bulk(
    records: &Vec<CoinRecord>,
    min_coin_amount: u64,
    min_coins: usize,
    max_coins: usize,
) -> (r: Result<Vec<CoinRecord>, EngineError>)
    ensures
        match r {
            Ok(chosen) => eligible_records(records@, min_coin_amount).len() >= min_coins
                && is_selection_of(
                chosen@,
                eligible_records(records@, min_coin_amount),
                max_coins,
            ),
            Err(e) => eligible_records(records@, min_coin_amount).len() < min_coins && e
                == (EngineError::InsufficientTargets {
                actual: eligible_records(records@, min_coin_amount).len() as usize,
                required: min_coins,
            }),
        },
{
    let mut ordered: Vec<CoinRecord> = Vec::new();
    let mut i: usize = 0;
    assert(records@.take(0) =~= Seq::<CoinRecord>::empty());
    while i < records.len()
        invariant
            i <= records@.len(),
            is_ranking_of(ordered@, eligible_records(records@.take(i as int), min_coin_amount)),
            ordered@.len() <= i,
        decreases records@.len() - i,
    {
        let record = records[i];
        proof {
            assert(records@.take(i as int + 1).drop_last() =~= records@.take(i as int));
            assert(records@.take(i as int + 1).last() == records@[i as int]);
            to_multiset_build(eligible_records(records@.take(i as int), min_coin_amount), record);
        }
        if !record.spent && record.coin.amount >= min_coin_amount {
            insert_ranked(&mut ordered, record);
        }
        i = i + 1;
    }
    assert(records@.take(i as int) =~= records@);
    let ghost eligible = eligible_records(records@, min_coin_amount);
    assert(ordered@.len() == eligible.len()) by {
        vstd::seq_lib::to_multiset_len(ordered@);
        vstd::seq_lib::to_multiset_len(eligible);
    }
    if ordered.len() < min_coins {
        return Err(
            EngineError::InsufficientTargets { actual: ordered.len(), required: min_coins },
        );
    }
    let ghost ranking = ordered@;
    if ordered.len() > max_coins {
        ordered.truncate(max_coins);
        assert(ordered@ =~= ranking.take(max_coins as int));
    }
    assert(is_ranking_of(ranking, eligible));
    Ok(ordered)
}

} // verus!
