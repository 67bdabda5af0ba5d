use crate::bytes::Bytes32;
use crate::error::{EngineError, SyncFailure};
use crate::vault::{
    advance, observation_of, step_of, Cursor, CursorModel, LedgerReply, Progress, ProgressModel,
    VaultState, VaultStateModel,
};
use vstd::prelude::*;

verus! {

/// What a read-only ledger view holds of one coin.
#[derive(Clone, Debug, PartialEq, Eq)]
pub struct LedgerEntry {
    pub coin_id: Bytes32,
    pub reply: LedgerReply,
}

/// What the view `ledger` says of the coin `coin_id`: the reply of the first
/// entry for that coin, and `Unknown` where there is none.
pub open spec fn reply_for(ledger: Seq<LedgerEntry>, coin_id: Seq<u8>) -> LedgerReply
    decreases ledger.len(),
{
    if ledger.len() == 0 {
        LedgerReply::Unknown
    } else if ledger[0].coin_id@ == coin_id {
        ledger[0].reply
    } else {
        reply_for(ledger.skip(1), coin_id)
    }
}

/// Where a walk over the view `ledger` ends that starts at `cursor` and takes
/// at most `fuel` steps. The result is never `Continue`.
pub open spec fn resolve_from(ledger: Seq<LedgerEntry>, cursor: CursorModel, fuel: nat) -> ProgressModel
    decreases fuel,
{
    if fuel == 0 {
        ProgressModel::Failed(cursor.coin_id, SyncFailure::LineageTooLong)
    } else {
        match step_of(cursor, observation_of(cursor.coin_id, reply_for(ledger, cursor.coin_id))) {
            ProgressModel::Continue(next) => resolve_from(ledger, next, (fuel - 1) as nat),
            ended => ended,
        }
    }
}

/// Whether `r` reports where a walk ended.
pub open spec fn is_outcome(r: Result<VaultState, EngineError>, ended: ProgressModel) -> bool {
    match ended {
        ProgressModel::Continue(_) => false,
        ProgressModel::Done(state) => r matches Ok(s) && s@ == state,
        ProgressModel::Failed(coin_id, reason) => r matches Err(
            EngineError::SyncError { coin_id: id, reason: why },
        ) && id@ == coin_id && why == reason,
    }
}

/// A walk never ends in `Continue`.
pub proof fn lemma_walk_ends(ledger: Seq<LedgerEntry>, cursor: CursorModel, fuel: nat)
    ensures
        !(resolve_from(ledger, cursor, fuel) is Continue),
    decreases fuel,
{
    if fuel > 0 {
        match step_of(cursor, observation_of(cursor.coin_id, reply_for(ledger, cursor.coin_id))) {
            ProgressModel::Continue(next) => {
                lemma_walk_ends(ledger, next, (fuel - 1) as nat);
            },
            _ => {},
        }
    }
}

/// A walk that finds the vault's current state ends at a coin that the view
/// holds as unspent, and at a cursor that asks about that state's own coin.
pub proof fn lemma_current_coin_is_unspent(
    ledger: Seq<LedgerEntry>,
    cursor: CursorModel,
    fuel: nat,
    state: VaultStateModel,
)
    requires
        cursor.consistent(),
        resolve_from(ledger, cursor, fuel) == ProgressModel::Done(state),
    ensures
        observation_of(state.coin.id(), reply_for(ledger, state.coin.id()))
            is Unspent,
    decreases fuel,
{
    if fuel > 0 {
        match step_of(cursor, observation_of(cursor.coin_id, reply_for(ledger, cursor.coin_id))) {
            ProgressModel::Continue(next) => {
                lemma_current_coin_is_unspent(ledger, next, (fuel - 1) as nat, state);
            },
            _ => {},
        }
    }
}

/// Synchronizing is idempotent: over the same ledger view, a walk that starts
/// again at the state that a first walk found ends at that same state, in one
/// step.
pub proof fn lemma_sync_is_idempotent(
    ledger: Seq<LedgerEntry>,
    launcher_id: Seq<u8>,
    fuel: nat,
    again: nat,
    state: VaultStateModel,
)
    requires
        resolve_from(ledger, CursorModel::at_launcher(launcher_id), fuel) == ProgressModel::Done(
            state,
        ),
        again > 0,
    ensures
        resolve_from(ledger, CursorModel::at_state(state), again) == ProgressModel::Done(state),
{
    lemma_current_coin_is_unspent(ledger, CursorModel::at_launcher(launcher_id), fuel, state);
}

/// Synchronizing reads only: two walks over the same ledger view from the
/// same launcher, with the same bound, end alike, whatever the bound.
pub proof fn lemma_sync_is_repeatable(
    ledger: Seq<LedgerEntry>,
    launcher_id: Seq<u8>,
    fuel: nat,
    more: nat,
    state: VaultStateModel,
)
    requires
        resolve_from(ledger, CursorModel::at_launcher(launcher_id), fuel) == ProgressModel::Done(
            state,
        ),
        more >= fuel,
    ensures
        resolve_from(ledger, CursorModel::at_launcher(launcher_id), more) == ProgressModel::Done(
            state,
        ),
{
    lemma_more_fuel_keeps_the_end(ledger, CursorModel::at_launcher(launcher_id), fuel, more, state);
}

/// A walk that found the current state finds the same with a larger bound.
proof fn lemma_more_fuel_keeps_the_end(
    ledger: Seq<LedgerEntry>,
    cursor: CursorModel,
    fuel: nat,
    more: nat,
    state: VaultStateModel,
)
    requires
        resolve_from(ledger, cursor, fuel) == ProgressModel::Done(state),
        more >= fuel,
    ensures
        resolve_from(ledger, cursor, more) == ProgressModel::Done(state),
    decreases fuel,
{
    if fuel > 0 {
        match step_of(cursor, observation_of(cursor.coin_id, reply_for(ledger, cursor.coin_id))) {
            ProgressModel::Continue(next) => {
                lemma_more_fuel_keeps_the_end(
                    ledger,
                    next,
                    (fuel - 1) as nat,
                    (more - 1) as nat,
                    state,
                );
            },
            _ => {},
        }
    }
}

/// Finds the first entry of the view for the coin `coin_id`.
fn find_entry(ledger: &Vec<LedgerEntry>, coin_id: &Bytes32) -> (r: Option<usize>)
    ensures
        match r {
            Some(i) => i < ledger@.len() && reply_for(ledger@, coin_id@) == ledger@[i as int].reply,
            None => reply_for(ledger@, coin_id@) == LedgerReply::Unknown,
        },
{
    let mut i: usize = 0;
    proof {
        assert(ledger@.skip(0) =~= ledger@);
    }
    while i < ledger.len()
        invariant
            i <= ledger@.len(),
            reply_for(ledger@, coin_id@) == reply_for(ledger@.skip(i as int), coin_id@),
        decreases ledger@.len() - i,
    {
        proof {
            let rest = ledger@.skip(i as int);
            assert(rest[0] == ledger@[i as int]);
            assert(rest.skip(1) =~= ledger@.skip(i as int + 1));
        }
        if ledger[i].coin_id.same(coin_id) {
            return Some(i);
        }
        i = i + 1;
    }
    None
}

/// Resolves the vault launched by `launcher_id` to its current unspent coin
/// over a read-only ledger view: a forward walk from the launcher that ends
/// at the first unspent coin, within `max_steps` steps. It fails where the
/// ledger does not know a coin of the lineage, where the launcher was never
/// spent, where a spend does not decode as a step of the lineage, and where
/// the walk does not end within the bound.
pub fn resolve(launcher_id: &Bytes32, ledger: &Vec<LedgerEntry>, max_steps: usize) -> (r: Result<
    VaultState,
    EngineError,
>)
    ensures
        is_outcome(
            r,
            resolve_from(ledger@, CursorModel::at_launcher(launcher_id@), max_steps as nat),
        ),
{
    let ghost start = CursorModel::at_launcher(launcher_id@);
    let mut cursor = Cursor { coin_id: *launcher_id, state: None };
    let mut remaining: usize = max_steps;
    let unknown = LedgerReply::Unknown;
    while remaining > 0
        invariant
            unknown == LedgerReply::Unknown,
            start == CursorModel::at_launcher(launcher_id@),
            resolve_from(ledger@, start, max_steps as nat) == resolve_from(
                ledger@,
                cursor@,
                remaining as nat,
            ),
        decreases remaining,
    {
        let ghost here = cursor@;
        let progress = match find_entry(ledger, &cursor.coin_id) {
            Some(i) => advance(cursor, &ledger[i].reply),
            None => advance(cursor, &unknown),
        };
        match progress {
            Progress::Continue(next) => {
                cursor = next;
                remaining = remaining - 1;
            },
            Progress::Done(state) => {
                return Ok(state);
            },
            Progress::Failed(e) => {
                return Err(e);
            },
        }
    }
    Err(EngineError::SyncError { coin_id: cursor.coin_id, reason: SyncFailure::LineageTooLong })
}

} // verus!
