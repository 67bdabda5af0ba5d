use chia_wallet_sdk::chia::protocol::{Bytes32 as LedgerBytes32, CoinSpend as LedgerCoinSpend};
use chia_wallet_sdk::driver::{Cat, SpendContext};
use chia_wallet_sdk::types::puzzles::RevocationArgs;
use chia_wallet_sdk::types::{Conditions, Mod};
use rcli::attempt::{begin_validation, ValidationStep};
use rcli::authorization::Disposition;
use rcli::conditions::{delegated_puzzle_hash, Condition};
use rcli::revoke::revoke_coins;
use rcli::validator::{validate_all, validate_coin, CatCoin, TargetInput};
use rcli::vault::VaultState;
use rcli::{Bytes32, Coin, CoinRecord, CoinSpend, EngineError, LineageFailure};

const AUTHORITY: [u8; 32] = [9; 32];
const RECIPIENT: [u8; 32] = [7; 32];
const LAUNCHER: [u8; 32] = [5; 32];

fn own_coin(coin: &chia_wallet_sdk::chia::protocol::Coin) -> Coin {
    Coin::new(
        Bytes32::new(coin.parent_coin_info.to_bytes()),
        Bytes32::new(coin.puzzle_hash.to_bytes()),
        coin.amount,
    )
}

fn own_spend(spend: &LedgerCoinSpend) -> CoinSpend {
    CoinSpend {
        coin: own_coin(&spend.coin),
        puzzle_reveal: spend.puzzle_reveal.to_vec(),
        solution: spend.solution.to_vec(),
    }
}

/// Issues a revocable asset to three holders and returns the spend that
/// created their coins together with the coins.
fn issued(amounts: &[u64]) -> (CoinSpend, Vec<Cat>) {
    let mut ctx = SpendContext::new();
    let mut conditions = Conditions::new();
    let mut total = 0;
    for (i, amount) in amounts.iter().enumerate() {
        let holder = LedgerBytes32::new([11 + i as u8; 32]);
        let hint = ctx.hint(holder).unwrap();
        conditions = conditions.create_coin(holder, *amount, hint);
        total += *amount;
    }
    let (_, cats) = Cat::issue_revocable_with_coin(
        &mut ctx,
        LedgerBytes32::new([1; 32]),
        LedgerBytes32::new(AUTHORITY),
        total,
        conditions,
    )
    .unwrap();
    let spends = ctx.take();
    (own_spend(&spends[0]), cats)
}

fn targets_of(spend: &CoinSpend, cats: &[Cat]) -> Vec<TargetInput> {
    cats.iter()
        .map(|cat| TargetInput {
            record: CoinRecord { coin: own_coin(&cat.coin), spent: false, confirmed_block_index: 10 },
            parent_spend: Some(spend.clone()),
        })
        .collect()
}

fn vault() -> VaultState {
    VaultState::new(
        Coin::new(Bytes32::new([2; 32]), Bytes32::new([3; 32]), 1),
        Bytes32::new(LAUNCHER),
        1,
        Vec::new(),
        Bytes32::new([4; 32]),
    )
}

fn refund_puzzle_hash(holder: [u8; 32]) -> Bytes32 {
    let hash = RevocationArgs::new(LedgerBytes32::new(AUTHORITY), LedgerBytes32::new(holder))
        .curry_tree_hash();
    Bytes32::new(hash.to_bytes())
}

#[test]
fn genuine_coin_passes_validation() {
    let (spend, cats) = issued(&[1000, 500, 250]);
    let asset_id = Bytes32::new(cats[0].info.asset_id.to_bytes());
    let targets = targets_of(&spend, &cats);
    let found = validate_coin(
        &targets[1].record,
        &targets[1].parent_spend,
        &asset_id,
        &Bytes32::new(AUTHORITY),
    )
    .unwrap();
    assert_eq!(
        found,
        CatCoin::new(
            own_coin(&cats[1].coin),
            asset_id,
            Some(Bytes32::new(AUTHORITY)),
            Bytes32::new([12; 32]),
        )
    );
}

#[test]
fn coin_of_another_asset_is_rejected_with_asset_mismatch() {
    let (spend, cats) = issued(&[1000, 500, 250]);
    let actual = Bytes32::new(cats[0].info.asset_id.to_bytes());
    let expected = Bytes32::new([0xaa; 32]);
    let targets = targets_of(&spend, &cats);
    let error = validate_all(&targets, &expected, &Bytes32::new(AUTHORITY)).unwrap_err();
    assert_eq!(
        error,
        EngineError::AssetMismatch {
            coin_id: targets[0].record.coin.coin_id(),
            expected_asset_id: expected,
            actual_asset_id: actual,
            expected_authority: Bytes32::new(AUTHORITY),
            actual_authority: Some(Bytes32::new(AUTHORITY)),
        }
    );
    let plan = revoke_coins(
        Bytes32::new(LAUNCHER),
        50,
        expected,
        Bytes32::new(AUTHORITY),
        &vault(),
        &targets,
        Bytes32::new(RECIPIENT),
    );
    assert!(matches!(plan, Err(EngineError::AssetMismatch { .. })));
}

#[test]
fn coin_under_another_authority_is_rejected_with_asset_mismatch() {
    let (spend, cats) = issued(&[1000]);
    let asset_id = Bytes32::new(cats[0].info.asset_id.to_bytes());
    let targets = targets_of(&spend, &cats);
    let error = validate_coin(
        &targets[0].record,
        &targets[0].parent_spend,
        &asset_id,
        &Bytes32::new([0xbb; 32]),
    )
    .unwrap_err();
    assert_eq!(
        error,
        EngineError::AssetMismatch {
            coin_id: targets[0].record.coin.coin_id(),
            expected_asset_id: asset_id,
            actual_asset_id: asset_id,
            expected_authority: Bytes32::new([0xbb; 32]),
            actual_authority: Some(Bytes32::new(AUTHORITY)),
        }
    );
}

#[test]
fn spent_coin_is_rejected() {
    let (spend, cats) = issued(&[1000]);
    let asset_id = Bytes32::new(cats[0].info.asset_id.to_bytes());
    let mut targets = targets_of(&spend, &cats);
    targets[0].record.spent = true;
    let error = validate_all(&targets, &asset_id, &Bytes32::new(AUTHORITY)).unwrap_err();
    assert_eq!(error, EngineError::AlreadySpent { coin_id: targets[0].record.coin.coin_id() });
}

#[test]
fn coin_without_parent_spend_is_rejected_with_lineage_error() {
    let (spend, cats) = issued(&[1000]);
    let asset_id = Bytes32::new(cats[0].info.asset_id.to_bytes());
    let mut targets = targets_of(&spend, &cats);
    targets[0].parent_spend = None;
    let error = validate_all(&targets, &asset_id, &Bytes32::new(AUTHORITY)).unwrap_err();
    assert_eq!(
        error,
        EngineError::LineageError {
            coin_id: targets[0].record.coin.coin_id(),
            reason: LineageFailure::ParentNotSpent,
        }
    );
}

#[test]
fn coin_with_unparsable_parent_spend_is_rejected_with_lineage_error() {
    let (spend, cats) = issued(&[1000]);
    let asset_id = Bytes32::new(cats[0].info.asset_id.to_bytes());
    let mut targets = targets_of(&spend, &cats);
    targets[0].parent_spend = Some(CoinSpend {
        coin: spend.coin,
        puzzle_reveal: vec![0x80],
        solution: vec![0x80],
    });
    let error = validate_all(&targets, &asset_id, &Bytes32::new(AUTHORITY)).unwrap_err();
    assert_eq!(
        error,
        EngineError::LineageError {
            coin_id: targets[0].record.coin.coin_id(),
            reason: LineageFailure::ParentUnparsable,
        }
    );
}

#[test]
fn forged_coin_outside_the_lineage_is_rejected_with_lineage_error() {
    let (spend, cats) = issued(&[1000]);
    let asset_id = Bytes32::new(cats[0].info.asset_id.to_bytes());
    let mut targets = targets_of(&spend, &cats);
    targets[0].record.coin.amount = 1001;
    let error = validate_all(&targets, &asset_id, &Bytes32::new(AUTHORITY)).unwrap_err();
    assert_eq!(
        error,
        EngineError::LineageError {
            coin_id: targets[0].record.coin.coin_id(),
            reason: LineageFailure::NotAChild,
        }
    );
}

#[test]
fn batch_of_three_at_fifty_percent() {
    let (spend, cats) = issued(&[1000, 500, 250]);
    let asset_id = Bytes32::new(cats[0].info.asset_id.to_bytes());
    let targets = targets_of(&spend, &cats);
    let plan = revoke_coins(
        Bytes32::new(LAUNCHER),
        50,
        asset_id,
        Bytes32::new(AUTHORITY),
        &vault(),
        &targets,
        Bytes32::new(RECIPIENT),
    )
    .unwrap();

    let kept: Vec<u64> = plan.batch.entries.iter().map(|e| e.kept).collect();
    let revoked: Vec<u64> = plan.batch.entries.iter().map(|e| e.revoked).collect();
    assert_eq!(kept, vec![500, 250, 125]);
    assert_eq!(revoked, vec![500, 250, 125]);
    assert_eq!(plan.batch.total_revoked, 875);

    let refund = |holder: u8, amount: u64| Condition::CreateCoin {
        puzzle_hash: refund_puzzle_hash([holder; 32]),
        amount,
        hint: Some(refund_puzzle_hash([holder; 32])),
    };
    let aggregate = Condition::CreateCoin {
        puzzle_hash: refund_puzzle_hash(RECIPIENT),
        amount: 875,
        hint: Some(Bytes32::new(RECIPIENT)),
    };
    let spends = &plan.authorization.targets;
    assert_eq!(spends.len(), 3);
    assert_eq!(spends[0].disposition, Disposition::AggregateRecipient);
    assert_eq!(*spends[0].delegated.conditions(), vec![refund(11, 500), aggregate.clone()]);
    assert_eq!(spends[1].disposition, Disposition::Refund(250));
    assert_eq!(*spends[1].delegated.conditions(), vec![refund(12, 250)]);
    assert_eq!(spends[2].disposition, Disposition::Refund(125));
    assert_eq!(*spends[2].delegated.conditions(), vec![refund(13, 125)]);

    let recipients: usize = spends
        .iter()
        .map(|s| s.delegated.conditions().iter().filter(|c| **c == aggregate).count())
        .sum();
    assert_eq!(recipients, 1);

    let messages = &plan.authorization.vault_conditions;
    assert_eq!(messages.len(), 4);
    for (i, target) in spends.iter().enumerate() {
        assert_eq!(target.delegated.commitment(), delegated_puzzle_hash(target.delegated.conditions()));
        assert_eq!(
            messages[i],
            Condition::SendMessage {
                mode: 23,
                message: target.delegated.commitment().bytes.to_vec(),
                receiver: targets[i].record.coin.coin_id(),
            }
        );
    }
    assert_eq!(
        messages[3],
        Condition::CreateCoin {
            puzzle_hash: Bytes32::new([4; 32]),
            amount: 1,
            hint: Some(Bytes32::new(LAUNCHER)),
        }
    );
    assert_eq!(
        *plan.anchor.conditions(),
        vec![Condition::AssertConcurrentSpend { coin_id: targets[0].record.coin.coin_id() }]
    );
    let mut ctx = SpendContext::new();
    let anchor = Conditions::new().assert_concurrent_spend(cats[0].coin.coin_id());
    let anchor = ctx.alloc(&(1, anchor)).unwrap();
    assert_eq!(plan.anchor.commitment().bytes, ctx.tree_hash(anchor).to_bytes());
}

#[test]
fn keeping_everything_creates_refunds_only() {
    let (spend, cats) = issued(&[1000, 500]);
    let asset_id = Bytes32::new(cats[0].info.asset_id.to_bytes());
    let targets = targets_of(&spend, &cats);
    let plan = revoke_coins(
        Bytes32::new(LAUNCHER),
        100,
        asset_id,
        Bytes32::new(AUTHORITY),
        &vault(),
        &targets,
        Bytes32::new(RECIPIENT),
    )
    .unwrap();
    assert_eq!(plan.batch.total_revoked, 0);
    assert_eq!(plan.batch.entries[0].revoked, 0);
    assert_eq!(plan.batch.entries[1].revoked, 0);
    let spends = &plan.authorization.targets;
    assert_eq!(
        *spends[0].delegated.conditions(),
        vec![Condition::CreateCoin {
            puzzle_hash: refund_puzzle_hash([11; 32]),
            amount: 1000,
            hint: Some(refund_puzzle_hash([11; 32])),
        }]
    );
    assert_eq!(spends[1].delegated.conditions().len(), 1);
}

#[test]
fn keeping_nothing_creates_no_refund() {
    let (spend, cats) = issued(&[1000, 500]);
    let asset_id = Bytes32::new(cats[0].info.asset_id.to_bytes());
    let targets = targets_of(&spend, &cats);
    let plan = revoke_coins(
        Bytes32::new(LAUNCHER),
        0,
        asset_id,
        Bytes32::new(AUTHORITY),
        &vault(),
        &targets,
        Bytes32::new(RECIPIENT),
    )
    .unwrap();
    assert_eq!(plan.batch.total_revoked, 1500);
    let spends = &plan.authorization.targets;
    assert_eq!(
        *spends[0].delegated.conditions(),
        vec![Condition::CreateCoin {
            puzzle_hash: refund_puzzle_hash(RECIPIENT),
            amount: 1500,
            hint: Some(Bytes32::new(RECIPIENT)),
        }]
    );
    assert_eq!(spends[1].disposition, Disposition::FullyRevoked);
    assert!(spends[1].delegated.conditions().is_empty());
}

#[test]
fn empty_batch_is_rejected_before_any_signing_call() {
    let mut signing_calls = 0;
    let mut sign = |_: &VaultState| {
        signing_calls += 1;
    };
    let vault = vault();
    let plan = revoke_coins(
        Bytes32::new(LAUNCHER),
        50,
        Bytes32::new([0xaa; 32]),
        Bytes32::new(AUTHORITY),
        &vault,
        &Vec::new(),
        Bytes32::new(RECIPIENT),
    );
    if plan.is_ok() {
        sign(&vault);
    }
    assert_eq!(plan, Err(EngineError::EmptyBatch));
    assert_eq!(signing_calls, 0);
}

#[test]
fn revoked_amounts_beyond_a_coin_amount_are_rejected() {
    let (spend, cats) = issued(&[u64::MAX / 2 + 1, u64::MAX / 2]);
    let asset_id = Bytes32::new(cats[0].info.asset_id.to_bytes());
    let mut targets = targets_of(&spend, &cats);
    let first = targets[0].clone();
    targets.push(first);
    let plan = revoke_coins(
        Bytes32::new(LAUNCHER),
        0,
        asset_id,
        Bytes32::new(AUTHORITY),
        &vault(),
        &targets,
        Bytes32::new(RECIPIENT),
    );
    assert_eq!(plan, Err(EngineError::AmountOverflow));
}

fn records_of(targets: &[TargetInput]) -> Vec<CoinRecord> {
    targets.iter().map(|target| target.record).collect()
}

#[test]
fn attempt_validates_one_target_per_answer_and_plans_last() {
    let (spend, cats) = issued(&[1000, 500, 250]);
    let asset_id = Bytes32::new(cats[0].info.asset_id.to_bytes());
    let targets = targets_of(&spend, &cats);
    let mut step =
        begin_validation(vault(), asset_id, Bytes32::new(AUTHORITY), 50, records_of(&targets));
    let mut answers = 0;
    let validated = loop {
        match step {
            ValidationStep::Continue(validating) => {
                assert_eq!(
                    validating.request(),
                    (targets[answers].record.coin.parent_coin_info, 10)
                );
                step = validating.on_parent_spend(Some(spend.clone()));
                answers += 1;
            }
            ValidationStep::Validated(validated) => break validated,
            ValidationStep::Failed(error) => panic!("{error:?}"),
        }
    };
    assert_eq!(answers, 3);
    assert_eq!(validated.coins().len(), 3);
    assert_eq!(validated.batch().total_revoked, 875);
    let expected = revoke_coins(
        Bytes32::new(LAUNCHER),
        50,
        asset_id,
        Bytes32::new(AUTHORITY),
        &vault(),
        &targets,
        Bytes32::new(RECIPIENT),
    );
    assert_eq!(validated.plan(Bytes32::new(RECIPIENT)), expected);
}

#[test]
fn attempt_without_targets_ends_before_anything_is_asked() {
    let step = begin_validation(vault(), Bytes32::new([1; 32]), Bytes32::new(AUTHORITY), 50, Vec::new());
    assert_eq!(step, ValidationStep::Failed(EngineError::EmptyBatch));
}

#[test]
fn attempt_ends_at_the_first_target_that_fails() {
    let (spend, cats) = issued(&[1000, 500, 250]);
    let asset_id = Bytes32::new(cats[0].info.asset_id.to_bytes());
    let targets = targets_of(&spend, &cats);

    let mut spent_first = records_of(&targets);
    spent_first[0].spent = true;
    assert_eq!(
        begin_validation(vault(), asset_id, Bytes32::new(AUTHORITY), 50, spent_first),
        ValidationStep::Failed(EngineError::AlreadySpent {
            coin_id: targets[0].record.coin.coin_id()
        })
    );

    let mut spent_second = records_of(&targets);
    spent_second[1].spent = true;
    let ValidationStep::Continue(first) =
        begin_validation(vault(), asset_id, Bytes32::new(AUTHORITY), 50, spent_second)
    else {
        panic!("the first target is unspent");
    };
    assert_eq!(
        first.on_parent_spend(Some(spend.clone())),
        ValidationStep::Failed(EngineError::AlreadySpent {
            coin_id: targets[1].record.coin.coin_id()
        })
    );

    let ValidationStep::Continue(first) =
        begin_validation(vault(), asset_id, Bytes32::new(AUTHORITY), 50, records_of(&targets))
    else {
        panic!("the first target is unspent");
    };
    assert_eq!(
        first.on_parent_spend(None),
        ValidationStep::Failed(EngineError::LineageError {
            coin_id: targets[0].record.coin.coin_id(),
            reason: LineageFailure::ParentNotSpent,
        })
    );

    let ValidationStep::Continue(first) = begin_validation(
        vault(),
        Bytes32::new([0xaa; 32]),
        Bytes32::new(AUTHORITY),
        50,
        records_of(&targets),
    ) else {
        panic!("the first target is unspent");
    };
    assert!(matches!(
        first.on_parent_spend(Some(spend)),
        ValidationStep::Failed(EngineError::AssetMismatch { .. })
    ));
}
