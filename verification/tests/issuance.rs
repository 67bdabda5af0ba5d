use chia_puzzle_types::cat::CatArgs;
use chia_wallet_sdk::chia::protocol::{Bytes, Bytes32 as LedgerBytes32};
use chia_wallet_sdk::clvm_utils::CurriedProgram;
use chia_wallet_sdk::clvmr::serde::node_from_bytes;
use chia_wallet_sdk::driver::SpendContext;
use chia_wallet_sdk::types::puzzles::RevocationArgs;
use chia_wallet_sdk::types::{Conditions, Mod};
use rcli::asset::{asset_id, hidden_puzzle_hash, singleton_struct_hash, EVERYTHING_WITH_SINGLETON_TAIL};
use rcli::message::u64_to_be_bytes;
use rcli::{
    cli_generate_send_message_bundle, cli_issue, get_first_address, Bytes32, Coin, Condition,
    EngineError, PublicKey, SigningFailure, VaultState,
};

const LAUNCHER: [u8; 32] = [0x42; 32];
const USER: [u8; 32] = [0x33; 32];

fn plain_vault() -> VaultState {
    VaultState::new(
        Coin::new(Bytes32::new([2; 32]), Bytes32::new([3; 32]), 1),
        Bytes32::new(LAUNCHER),
        1,
        Vec::new(),
        Bytes32::new([4; 32]),
    )
}

#[test]
fn issuance_plan_matches_the_puzzles_of_the_driver() {
    let security_coin = Coin::new(Bytes32::new([8; 32]), Bytes32::new([9; 32]), 1);
    let plan = cli_issue(Bytes32::new(LAUNCHER), 1337420, &plain_vault(), &security_coin, Bytes32::new(USER));

    let mut ctx = SpendContext::new();
    let program = node_from_bytes(&mut ctx, &EVERYTHING_WITH_SINGLETON_TAIL).unwrap();
    let mod_hash = LedgerBytes32::new(chia_puzzles::SINGLETON_TOP_LAYER_V1_1_HASH);
    let struct_hash = LedgerBytes32::new(singleton_struct_hash(&Bytes32::new(LAUNCHER)).bytes);
    let args = (4, ((1, mod_hash), ((4, ((1, struct_hash), ((4, ((1, 0u64), (1, ()))), ()))), ())));
    let tail = ctx.alloc(&CurriedProgram { program, args }).unwrap();
    let solution = ctx.alloc(&[LedgerBytes32::new([4; 32])]).unwrap();
    let user = LedgerBytes32::new(USER);
    let hint = ctx.hint(user).unwrap();
    let conditions = Conditions::new().create_coin(user, 1337420, hint).run_cat_tail(tail, solution);
    let inner = ctx.alloc(&(1, conditions)).unwrap();
    let inner_hash = ctx.tree_hash(inner);

    assert_eq!(plan.asset_id, asset_id(&Bytes32::new(LAUNCHER)));
    assert_eq!(plan.asset_id.bytes, ctx.tree_hash(tail).to_bytes());
    assert_eq!(plan.hidden_puzzle_hash, hidden_puzzle_hash(&Bytes32::new(LAUNCHER)));
    assert_eq!(plan.eve.commitment().bytes, inner_hash.to_bytes());
    assert_eq!(plan.eve.conditions().len(), 2);
    let wrapped = RevocationArgs::new(
        LedgerBytes32::new(plan.hidden_puzzle_hash.bytes),
        inner_hash.into(),
    )
    .curry_tree_hash();
    let full = CatArgs::curry_tree_hash(LedgerBytes32::new(plan.asset_id.bytes), wrapped);
    assert_eq!(
        plan.eve_coin,
        Coin::new(security_coin.coin_id(), Bytes32::new(full.to_bytes()), 1337420)
    );
    assert_eq!(
        *plan.anchor.conditions(),
        vec![
            Condition::CreateCoin { puzzle_hash: plan.eve_coin.puzzle_hash, amount: 1337420, hint: None },
            Condition::AssertConcurrentSpend { coin_id: plan.eve_coin.coin_id() },
        ]
    );
    assert_eq!(
        plan.anchor.commitment(),
        rcli::conditions::delegated_puzzle_hash(plan.anchor.conditions())
    );
    assert_eq!(
        plan.vault_conditions,
        vec![
            Condition::SendMessage { mode: 23, message: Vec::new(), receiver: plan.eve_coin.coin_id() },
            Condition::CreateCoin {
                puzzle_hash: Bytes32::new([4; 32]),
                amount: 1,
                hint: Some(Bytes32::new(LAUNCHER)),
            },
        ]
    );
}

#[test]
fn numbers_are_written_most_significant_byte_first() {
    for n in [0u64, 1, 255, 256, 0x0102_0304_0506_0708, u64::MAX] {
        assert_eq!(u64_to_be_bytes(n), n.to_be_bytes().to_vec());
    }
    assert_eq!(u64_to_be_bytes(0x0102_0304_0506_0708), vec![1, 2, 3, 4, 5, 6, 7, 8]);
}

#[test]
fn message_plan_matches_the_puzzles_of_the_driver() {
    let vault = plain_vault();
    let plan = cli_generate_send_message_bundle(Bytes32::new(LAUNCHER), 77, Bytes32::new(USER), &vault);

    let mut ctx = SpendContext::new();
    let receiver = ctx.alloc(&LedgerBytes32::new(USER)).unwrap();
    let message = Bytes::new(77u64.to_be_bytes().to_vec());
    let conditions = Conditions::new().send_message(18, message, vec![receiver]);
    let puzzle = ctx.alloc(&(1, conditions)).unwrap();

    assert_eq!(plan.delegated.commitment().bytes, ctx.tree_hash(puzzle).to_bytes());
    assert_eq!(
        plan.p2_coin,
        Coin::new(vault.coin.coin_id(), hidden_puzzle_hash(&Bytes32::new(LAUNCHER)), 0)
    );
    assert_eq!(
        *plan.delegated.conditions(),
        vec![Condition::SendMessage {
            mode: 18,
            message: vec![0, 0, 0, 0, 0, 0, 0, 77],
            receiver: Bytes32::new(USER),
        }]
    );
    assert_eq!(
        plan.vault_conditions,
        vec![
            Condition::CreateCoin { puzzle_hash: plan.p2_coin.puzzle_hash, amount: 0, hint: None },
            Condition::SendMessage {
                mode: 23,
                message: plan.delegated.commitment().bytes.to_vec(),
                receiver: plan.p2_coin.coin_id(),
            },
            Condition::CreateCoin {
                puzzle_hash: Bytes32::new([4; 32]),
                amount: 1,
                hint: Some(Bytes32::new(LAUNCHER)),
            },
        ]
    );
}

#[test]
fn first_address_must_be_that_of_the_key() {
    let key = chia_wallet_sdk::chia::bls::SecretKey::from_seed(&[5; 32]).public_key();
    let own = PublicKey::new(key.to_bytes());
    let hash = chia_puzzle_types::standard::StandardArgs::curry_tree_hash(key);
    assert_eq!(get_first_address(&Bytes32::new(hash.to_bytes()), &own), Ok(own));
    assert_eq!(
        get_first_address(&Bytes32::new([0; 32]), &own),
        Err(EngineError::SigningError { reason: SigningFailure::KeyMismatch })
    );
    assert_eq!(
        get_first_address(&Bytes32::new(hash.to_bytes()), &PublicKey::new([0xff; 48])),
        Err(EngineError::SigningError { reason: SigningFailure::InvalidKey })
    );
}

#[test]
fn address_is_judged_against_the_hash_of_its_key() {
    let key = PublicKey::new([1; 48]);
    let check = rcli::address::check_address;
    assert_eq!(check(&Bytes32::new([5; 32]), &Some(Bytes32::new([5; 32])), &key), Ok(key));
    assert_eq!(
        check(&Bytes32::new([5; 32]), &Some(Bytes32::new([6; 32])), &key),
        Err(EngineError::SigningError { reason: SigningFailure::KeyMismatch })
    );
    assert_eq!(
        check(&Bytes32::new([5; 32]), &None, &key),
        Err(EngineError::SigningError { reason: SigningFailure::InvalidKey })
    );
}
