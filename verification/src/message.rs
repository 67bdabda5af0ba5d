use crate::asset::{hidden_puzzle_hash, hidden_puzzle_hash_of};
use crate::authorization::{vault_recreation, VAULT_MESSAGE_MODE};
use crate::bytes::{to_vec, Bytes32};
use crate::coin::{Coin, CoinModel};
use crate::conditions::{
    condition_views, delegated_puzzle_hash_of, Condition, ConditionModel, DelegatedPuzzle,
};
use crate::vault::VaultState;
use vstd::prelude::*;

verus! {

/// The addressing mode of a message between puzzles: the sender commits to
/// its puzzle, the receiver to its puzzle.
pub const PUZZLE_MESSAGE_MODE: u8 = 18;

/// The eight bytes of `n`, most significant first.
pub open spec fn be_bytes(n: u64) -> Seq<u8> {
    seq![
        ((n / 0x0100_0000_0000_0000) % 256) as u8,
        ((n / 0x0001_0000_0000_0000) % 256) as u8,
        ((n / 0x0000_0100_0000_0000) % 256) as u8,
        ((n / 0x0000_0001_0000_0000) % 256) as u8,
        ((n / 0x0000_0000_0100_0000) % 256) as u8,
        ((n / 0x0000_0000_0001_0000) % 256) as u8,
        ((n / 0x0000_0000_0000_0100) % 256) as u8,
        (n % 256) as u8,
    ]
}

/// The eight bytes of `n`, most significant first.
pub fn u64_to_be_bytes(n: u64) -> (r: Vec<u8>)
    ensures
        r@ == be_bytes(n),
{
    let mut out: Vec<u8> = Vec::new();
    out.push(((n / 0x0100_0000_0000_0000) % 256) as u8);
    out.push(((n / 0x0001_0000_0000_0000) % 256) as u8);
    out.push(((n / 0x0000_0100_0000_0000) % 256) as u8);
    out.push(((n / 0x0000_0001_0000_0000) % 256) as u8);
    out.push(((n / 0x0000_0000_0100_0000) % 256) as u8);
    out.push(((n / 0x0000_0000_0001_0000) % 256) as u8);
    out.push(((n / 0x0000_0000_0000_0100) % 256) as u8);
    out.push((n % 256) as u8);
    assert(out@ =~= be_bytes(n));
    out
}

/// A vault's spend that has a coin of the vault send a numeric message.
#[derive(Debug, PartialEq, Eq)]
pub struct MessagePlan {
    /// The zero-value coin that the vault creates to send the message.
    pub p2_coin: Coin,
    /// What that coin outputs, the message, sealed with its commitment.
    pub delegated: DelegatedPuzzle,
    /// What the vault outputs: the coin, the authorization of its spend, and
    /// the vault's own recreation last.
    pub vault_conditions: Vec<Condition>,
}

/// The coin that sends the message: a zero-value child of the vault coin
/// under the puzzle that only the vault can direct.
pub open spec fn p2_coin_of(launcher_id: Seq<u8>, vault_coin: CoinModel) -> CoinModel {
    CoinModel {
        parent_coin_info: vault_coin.id(),
        puzzle_hash: hidden_puzzle_hash_of(launcher_id),
        amount: 0,
    }
}

/// What the sending coin outputs: `message` in eight bytes, for the puzzle
/// `receiver_puzzle_hash`.
pub open spec fn p2_conditions_of(message: u64, receiver_puzzle_hash: Seq<u8>) -> Seq<ConditionModel> {
    seq![
        ConditionModel::SendMessage {
            mode: PUZZLE_MESSAGE_MODE,
            message: be_bytes(message),
            receiver: receiver_puzzle_hash,
        },
    ]
}

impl MessagePlan {
    /// Whether this is the plan by which the vault `vault`, launched by
    /// `launcher_id`, sends `message` to `receiver_puzzle_hash`.
    pub open spec fn sends(
        &self,
        launcher_id: Seq<u8>,
        message: u64,
        receiver_puzzle_hash: Seq<u8>,
        vault: VaultState,
    ) -> bool {
        let p2_coin = p2_coin_of(launcher_id, vault.coin@);
        let p2_conditions = p2_conditions_of(message, receiver_puzzle_hash);
        &&& self.p2_coin@ == p2_coin
        &&& self.delegated@ == p2_conditions
        &&& condition_views(self.vault_conditions@) == seq![
            ConditionModel::CreateCoin { puzzle_hash: p2_coin.puzzle_hash, amount: 0, hint: None },
            ConditionModel::SendMessage {
                mode: VAULT_MESSAGE_MODE,
                message: delegated_puzzle_hash_of(p2_conditions),
                receiver: p2_coin.id(),
            },
            vault_recreation(vault.inner_puzzle_hash@, vault.coin.amount, launcher_id),
        ]
    }
}

/// Plans a vault spend that sends the number `message` to the puzzle
/// `receiver_puzzle_hash`: the vault creates a zero-value coin that only it
/// can direct, authorizes that coin to send the message, and recreates
/// itself.
pub fn cli_generate_send_message_bundle(
    launcher_id: Bytes32,
    message: u64,
    receiver_puzzle_hash: Bytes32,
    vault: &VaultState,
) -> (r: MessagePlan)
    ensures
        r.sends(launcher_id@, message, receiver_puzzle_hash@, *vault),
{
    let p2_puzzle_hash = hidden_puzzle_hash(&launcher_id);
    let p2_coin = Coin::new(vault.coin.coin_id(), p2_puzzle_hash, 0);
    let mut p2_conditions: Vec<Condition> = Vec::new();
    p2_conditions.push(
        Condition::SendMessage {
            mode: PUZZLE_MESSAGE_MODE,
            message: u64_to_be_bytes(message),
            receiver: receiver_puzzle_hash,
        },
    );
    assert(condition_views(p2_conditions@) =~= p2_conditions_of(message, receiver_puzzle_hash@));
    let delegated = DelegatedPuzzle::seal(p2_conditions);
    let commitment = delegated.commitment();
    let mut vault_conditions: Vec<Condition> = Vec::new();
    vault_conditions.push(
        Condition::CreateCoin { puzzle_hash: p2_puzzle_hash, amount: 0, hint: None },
    );
    vault_conditions.push(
        Condition::SendMessage {
            mode: VAULT_MESSAGE_MODE,
            message: to_vec(&commitment),
            receiver: p2_coin.coin_id(),
        },
    );
    vault_conditions.push(
        Condition::CreateCoin {
            puzzle_hash: vault.inner_puzzle_hash,
            amount: vault.coin.amount,
            hint: Some(launcher_id),
        },
    );
    proof {
        let p2 = p2_coin_of(launcher_id@, vault.coin@);
        assert(p2_coin@ == p2);
        assert(condition_views(vault_conditions@) =~= seq![
            ConditionModel::CreateCoin { puzzle_hash: p2.puzzle_hash, amount: 0, hint: None },
            ConditionModel::SendMessage {
                mode: VAULT_MESSAGE_MODE,
                message: delegated_puzzle_hash_of(p2_conditions_of(message, receiver_puzzle_hash@)),
                receiver: p2.id(),
            },
            vault_recreation(vault.inner_puzzle_hash@, vault.coin.amount, launcher_id@),
        ]);
    }
    MessagePlan { p2_coin, delegated, vault_conditions }
}

} // verus!
