use chia_puzzle_types::cat::CatArgs;
use chia_wallet_sdk::chia::protocol::{Bytes32 as LedgerBytes32, Coin as LedgerCoin};
use chia_wallet_sdk::chia::sha2::Sha256;
use chia_wallet_sdk::clvm_utils::{tree_hash, CurriedProgram, TreeHash};
use chia_wallet_sdk::clvmr::serde::node_from_bytes;
use chia_wallet_sdk::clvmr::Allocator;
use chia_wallet_sdk::driver::{CatInfo, SpendContext};
use chia_wallet_sdk::types::puzzles::P2DelegatedBySingletonLayerArgs;
use clvm_traits::ToClvm;
use rcli::asset::{
    asset_id, cat_puzzle_hash, hidden_puzzle_hash, revocation_puzzle_hash, singleton_struct_hash,
    EVERYTHING_WITH_SINGLETON_TAIL, EVERYTHING_WITH_SINGLETON_TAIL_HASH, SINGLETON_TOP_LAYER_HASH,
};
use rcli::launch::SINGLETON_LAUNCHER_HASH;
use rcli::{Bytes32, Coin, EverythingWithSingletonTailArgs, EverythingWithSingletonTailSolution};

const LAUNCHER: [u8; 32] = [0x42; 32];

#[test]
fn issuance_program_hash_is_the_hash_of_the_program() {
    let mut allocator = Allocator::new();
    let program = node_from_bytes(&mut allocator, &EVERYTHING_WITH_SINGLETON_TAIL).unwrap();
    assert_eq!(tree_hash(&allocator, program).to_bytes(), EVERYTHING_WITH_SINGLETON_TAIL_HASH);
    assert_eq!(EverythingWithSingletonTailArgs::mod_reveal(), EVERYTHING_WITH_SINGLETON_TAIL);
    assert_eq!(
        EverythingWithSingletonTailArgs::mod_hash(),
        Bytes32::new(EVERYTHING_WITH_SINGLETON_TAIL_HASH)
    );
}

#[test]
fn singleton_hashes_are_those_of_the_puzzles() {
    assert_eq!(SINGLETON_TOP_LAYER_HASH, chia_puzzles::SINGLETON_TOP_LAYER_V1_1_HASH);
    assert_eq!(SINGLETON_LAUNCHER_HASH, chia_puzzles::SINGLETON_LAUNCHER_HASH);
}

#[test]
fn tail_args_hold_the_singleton_of_the_launcher() {
    let args = EverythingWithSingletonTailArgs::new(Bytes32::new(LAUNCHER), 7);
    assert_eq!(args.singleton_mod_hash.bytes, chia_puzzles::SINGLETON_TOP_LAYER_V1_1_HASH);
    assert_eq!(args.singleton_struct_hash, singleton_struct_hash(&Bytes32::new(LAUNCHER)));
    assert_eq!(args.nonce, 7);
}

#[test]
fn asset_id_is_the_hash_of_the_curried_issuance_program() {
    let mut allocator = Allocator::new();
    let program = node_from_bytes(&mut allocator, &EVERYTHING_WITH_SINGLETON_TAIL).unwrap();
    let mod_hash = LedgerBytes32::new(chia_puzzles::SINGLETON_TOP_LAYER_V1_1_HASH);
    let struct_hash = LedgerBytes32::new(singleton_struct_hash(&Bytes32::new(LAUNCHER)).bytes);
    let nonce: u64 = 0;
    let args = (4, ((1, mod_hash), ((4, ((1, struct_hash), ((4, ((1, nonce), (1, ()))), ()))), ())));
    let curried = CurriedProgram { program, args }.to_clvm(&mut allocator).unwrap();
    let expected = tree_hash(&allocator, curried).to_bytes();
    assert_eq!(asset_id(&Bytes32::new(LAUNCHER)).bytes, expected);
    assert_eq!(
        EverythingWithSingletonTailArgs::new(Bytes32::new(LAUNCHER), 0).curry_tree_hash().bytes,
        expected
    );
}

#[test]
fn asset_id_depends_on_the_launcher_and_the_nonce() {
    let one = asset_id(&Bytes32::new([1; 32]));
    let two = asset_id(&Bytes32::new([2; 32]));
    assert_ne!(one, two);
    let other_nonce =
        EverythingWithSingletonTailArgs::new(Bytes32::new([1; 32]), 1).curry_tree_hash();
    assert_ne!(one, other_nonce);
    assert_eq!(one, asset_id(&Bytes32::new([1; 32])));
}

#[test]
fn hidden_puzzle_hash_is_that_of_the_delegating_puzzle() {
    let expected = P2DelegatedBySingletonLayerArgs::curry_tree_hash_with_launcher_id(
        LedgerBytes32::new(LAUNCHER),
        0,
    );
    assert_eq!(hidden_puzzle_hash(&Bytes32::new(LAUNCHER)).bytes, expected.to_bytes());
}

#[test]
fn revocable_asset_puzzle_hash_is_that_of_the_asset_info() {
    let asset = LedgerBytes32::new([1; 32]);
    let hidden = LedgerBytes32::new([2; 32]);
    let holder = LedgerBytes32::new([3; 32]);
    let expected = CatInfo::new(asset, Some(hidden), holder).puzzle_hash();
    let inner = revocation_puzzle_hash(&Bytes32::new([2; 32]), &Bytes32::new([3; 32]));
    assert_eq!(cat_puzzle_hash(&Bytes32::new([1; 32]), &inner).bytes, expected.to_bytes());
    let plain = CatArgs::curry_tree_hash(asset, TreeHash::new([3; 32]));
    assert_eq!(
        cat_puzzle_hash(&Bytes32::new([1; 32]), &Bytes32::new([3; 32])).bytes,
        plain.to_bytes()
    );
}

#[test]
fn tail_solution_hash_is_that_of_the_one_element_list() {
    let mut ctx = SpendContext::new();
    let list = ctx.alloc(&[LedgerBytes32::new([6; 32])]).unwrap();
    let solution =
        EverythingWithSingletonTailSolution { singleton_inner_puzzle_hash: Bytes32::new([6; 32]) };
    assert_eq!(solution.tree_hash().bytes, ctx.tree_hash(list).to_bytes());
}

#[test]
fn coin_id_is_the_digest_of_parent_puzzle_hash_and_amount() {
    let coin = Coin::new(Bytes32::new([1; 32]), Bytes32::new([2; 32]), 0x0102);
    let mut hasher = Sha256::new();
    hasher.update([1u8; 32]);
    hasher.update([2u8; 32]);
    hasher.update([1u8, 2u8]);
    let expected: [u8; 32] = hasher.finalize();
    assert_eq!(coin.coin_id().bytes, expected);
    let ledger = LedgerCoin::new(LedgerBytes32::new([1; 32]), LedgerBytes32::new([2; 32]), 0x0102);
    assert_eq!(coin.coin_id().bytes, ledger.coin_id().to_bytes());
    assert_ne!(coin.coin_id(), Coin::new(Bytes32::new([1; 32]), Bytes32::new([2; 32]), 0).coin_id());
}

#[test]
fn bytes32_compares_by_content() {
    let a = Bytes32::new([7; 32]);
    let mut other = [7u8; 32];
    assert!(a.same(&Bytes32::new(other)));
    other[31] = 8;
    assert!(!a.same(&Bytes32::new(other)));
    assert_eq!(rcli::bytes::to_vec(&a), vec![7u8; 32]);
    assert!(rcli::bytes::contains_hash(&vec![Bytes32::new(other), a], &a));
    assert!(!rcli::bytes::contains_hash(&vec![Bytes32::new(other)], &a));
}
