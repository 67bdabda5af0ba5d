use chia_wallet_sdk::chia::protocol::{Bytes, Bytes32 as LedgerBytes32};
use chia_wallet_sdk::driver::SpendContext;
use chia_wallet_sdk::types::Conditions;
use rcli::conditions::{condition_list_hash, delegated_puzzle_hash, Condition, DelegatedPuzzle};
use rcli::Bytes32;

fn filled(byte: u8) -> Bytes32 {
    Bytes32::new([byte; 32])
}

#[test]
fn delegated_puzzle_hash_matches_the_allocated_puzzle() {
    let mut ctx = SpendContext::new();
    let refund = LedgerBytes32::new([7; 32]);
    let target = LedgerBytes32::new([9; 32]);
    let user = LedgerBytes32::new([3; 32]);
    let refund_hint = ctx.hint(refund).unwrap();
    let user_hint = ctx.hint(user).unwrap();
    let conditions = Conditions::new()
        .create_coin(refund, 500, refund_hint)
        .create_coin(target, 875, user_hint);
    let puzzle = ctx.alloc(&(1, conditions)).unwrap();
    let expected: [u8; 32] = ctx.tree_hash(puzzle).to_bytes();

    let plan = vec![
        Condition::CreateCoin { puzzle_hash: filled(7), amount: 500, hint: Some(filled(7)) },
        Condition::CreateCoin { puzzle_hash: filled(9), amount: 875, hint: Some(filled(3)) },
    ];
    assert_eq!(delegated_puzzle_hash(&plan).bytes, expected);
}

#[test]
fn empty_delegated_puzzle_hash_matches_the_allocated_puzzle() {
    let mut ctx = SpendContext::new();
    let puzzle = ctx.alloc(&(1, Conditions::new())).unwrap();
    let expected: [u8; 32] = ctx.tree_hash(puzzle).to_bytes();
    assert_eq!(delegated_puzzle_hash(&Vec::new()).bytes, expected);
}

#[test]
fn vault_condition_list_hash_matches_the_allocated_list() {
    let mut ctx = SpendContext::new();
    let launcher = LedgerBytes32::new([1; 32]);
    let inner = LedgerBytes32::new([2; 32]);
    let receiver = ctx.alloc(&LedgerBytes32::new([5; 32])).unwrap();
    let hint = ctx.hint(launcher).unwrap();
    let conditions = Conditions::new()
        .send_message(23, Bytes::new(vec![6; 32]), vec![receiver])
        .assert_concurrent_spend(LedgerBytes32::new([8; 32]))
        .create_coin(inner, 1, hint)
        .create_coin(inner, 0x8000_0000_0000_0000, chia_puzzle_types::Memos::None);
    let list = ctx.alloc(&conditions).unwrap();
    let expected: [u8; 32] = ctx.tree_hash(list).to_bytes();

    let plan = vec![
        Condition::SendMessage { mode: 23, message: vec![6; 32], receiver: filled(5) },
        Condition::AssertConcurrentSpend { coin_id: filled(8) },
        Condition::CreateCoin { puzzle_hash: filled(2), amount: 1, hint: Some(filled(1)) },
        Condition::CreateCoin { puzzle_hash: filled(2), amount: 0x8000_0000_0000_0000, hint: None },
    ];
    assert_eq!(condition_list_hash(&plan).bytes, expected);
}

#[test]
fn run_cat_tail_hash_matches_the_allocated_condition() {
    let mut ctx = SpendContext::new();
    let program = ctx.alloc(&LedgerBytes32::new([4; 32])).unwrap();
    let solution = ctx.alloc(&[LedgerBytes32::new([5; 32])]).unwrap();
    let program_hash = Bytes32::new(ctx.tree_hash(program).to_bytes());
    let solution_hash = Bytes32::new(ctx.tree_hash(solution).to_bytes());
    let conditions = Conditions::new().run_cat_tail(program, solution);
    let list = ctx.alloc(&conditions).unwrap();
    let expected: [u8; 32] = ctx.tree_hash(list).to_bytes();

    let plan = vec![Condition::RunCatTail { program_hash, solution_hash }];
    assert_eq!(condition_list_hash(&plan).bytes, expected);
}

#[test]
fn sealed_conditions_keep_their_order_and_commitment() {
    let first = Condition::AssertConcurrentSpend { coin_id: filled(1) };
    let second = Condition::CreateCoin { puzzle_hash: filled(2), amount: 5, hint: None };
    let sealed = DelegatedPuzzle::seal(vec![first.clone(), second.clone()]);
    assert_eq!(*sealed.conditions(), vec![first.clone(), second.clone()]);
    assert_eq!(sealed.commitment(), delegated_puzzle_hash(&vec![first.clone(), second.clone()]));
    let swapped = DelegatedPuzzle::seal(vec![second, first]);
    assert_ne!(sealed.commitment(), swapped.commitment());
}
