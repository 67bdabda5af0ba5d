use crate::bytes::Bytes32;
use chia_wallet_sdk::chia::protocol::Coin as LedgerCoin;
use vstd::prelude::*;

verus! {

/// An immutable unit of ledger value: who created it, what locks it, and how
/// much it holds.
#[derive(Clone, Copy, Debug, PartialEq, Eq, Hash)]
pub struct Coin {
    pub parent_coin_info: Bytes32,
    pub puzzle_hash: Bytes32,
    pub amount: u64,
}

/// The mathematical value of a [`Coin`].
pub struct CoinModel {
    pub parent_coin_info: Seq<u8>,
    pub puzzle_hash: Seq<u8>,
    pub amount: u64,
}

impl View for Coin {
    type V = CoinModel;

    open spec fn view(&self) -> CoinModel {
        CoinModel {
            parent_coin_info: self.parent_coin_info@,
            puzzle_hash: self.puzzle_hash@,
            amount: self.amount,
        }
    }
}

/// The identifier of the coin with this parent, puzzle hash and amount.
pub uninterp spec fn coin_id_of(parent_coin_info: Seq<u8>, puzzle_hash: Seq<u8>, amount: u64) -> Seq<u8>;

impl CoinModel {
    /// The identifier of the coin.
    pub open spec fn id(self) -> Seq<u8> {
        coin_id_of(self.parent_coin_info, self.puzzle_hash, self.amount)
    }
}

/// Calls `chia_protocol::Coin::coin_id`, which hashes the parent identifier,
/// the puzzle hash and the amount with SHA-256. The digest is the
/// uninterpreted function `coin_id_of` of the three.
#[verifier::external_body]
fn ledger_coin_id(parent_coin_info: &Bytes32, puzzle_hash: &Bytes32, amount: u64) -> (r: Bytes32)
    ensures
        r@ == coin_id_of(parent_coin_info@, puzzle_hash@, amount),
{
    let coin = LedgerCoin::new(parent_coin_info.bytes.into(), puzzle_hash.bytes.into(), amount);
    Bytes32::new(coin.coin_id().to_bytes())
}

impl Coin {
    pub fn new(parent_coin_info: Bytes32, puzzle_hash: Bytes32, amount: u64) -> (r: Coin)
        ensures
            r.parent_coin_info == parent_coin_info,
            r.puzzle_hash == puzzle_hash,
            r.amount == amount,
    {
        Coin { parent_coin_info, puzzle_hash, amount }
    }

    /// The identifier of this coin.
    pub fn coin_id(&self) -> (r: Bytes32)
        ensures
            r@ == self@.id(),
    {
        ledger_coin_id(&self.parent_coin_info, &self.puzzle_hash, self.amount)
    }
}

/// What the ledger knows of a coin: the coin, whether it was spent, and the
/// height at which it was confirmed.
#[derive(Clone, Copy, Debug, PartialEq, Eq)]
pub struct CoinRecord {
    pub coin: Coin,
    pub spent: bool,
    pub confirmed_block_index: u32,
}

/// The spend of one coin: the coin, the puzzle it reveals and the solution it
/// is run with, both in serialized form.
#[derive(Clone, Debug, PartialEq, Eq)]
pub struct CoinSpend {
    pub coin: Coin,
    pub puzzle_reveal: Vec<u8>,
    pub solution: Vec<u8>,
}

/// The mathematical value of a [`CoinSpend`].
pub struct CoinSpendModel {
    pub coin: CoinModel,
    pub puzzle_reveal: Seq<u8>,
    pub solution: Seq<u8>,
}

impl View for CoinSpend {
    type V = CoinSpendModel;

    open spec fn view(&self) -> CoinSpendModel {
        CoinSpendModel {
            coin: self.coin@,
            puzzle_reveal: self.puzzle_reveal@,
            solution: self.solution@,
        }
    }
}

} // verus!
