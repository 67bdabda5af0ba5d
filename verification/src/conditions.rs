use crate::bytes::Bytes32;
use crate::hashing::{atom_hash, hash_atom, hash_pair, pair_hash};
use chia_puzzle_types::Memos;
use chia_wallet_sdk::chia::protocol::Bytes32 as Atom32;
use chia_wallet_sdk::clvm_utils::{ToTreeHash, TreeHash};
use chia_wallet_sdk::types::conditions::{AssertConcurrentSpend, CreateCoin, RunCatTail, SendMessage};
use vstd::prelude::*;

verus! {

/// One output condition of a coin spend, as far as this library emits them.
#[derive(Clone, Debug, PartialEq, Eq)]
pub enum Condition {
    /// Creates a coin locked by `puzzle_hash` that holds `amount`, with an
    /// optional hint for wallets.
    CreateCoin { puzzle_hash: Bytes32, amount: u64, hint: Option<Bytes32> },
    /// Sends `message` to the coin that `receiver` commits to, under the
    /// addressing `mode`.
    SendMessage { mode: u8, message: Vec<u8>, receiver: Bytes32 },
    /// Asserts that the coin `coin_id` is spent in the same bundle.
    AssertConcurrentSpend { coin_id: Bytes32 },
    /// Runs the asset's issuance program, given by its hash, with a solution,
    /// given by its hash.
    RunCatTail { program_hash: Bytes32, solution_hash: Bytes32 },
}

/// The mathematical value of a [`Condition`].
pub enum ConditionModel {
    CreateCoin { puzzle_hash: Seq<u8>, amount: u64, hint: Option<Seq<u8>> },
    SendMessage { mode: u8, message: Seq<u8>, receiver: Seq<u8> },
    AssertConcurrentSpend { coin_id: Seq<u8> },
    RunCatTail { program_hash: Seq<u8>, solution_hash: Seq<u8> },
}

/// The view of an optional 32-byte value.
pub open spec fn option_view(value: Option<Bytes32>) -> Option<Seq<u8>> {
    match value {
        Some(v) => Some(v@),
        None => None,
    }
}

impl View for Condition {
    type V = ConditionModel;

    open spec fn view(&self) -> ConditionModel {
        match *self {
            Condition::CreateCoin { puzzle_hash, amount, hint } => ConditionModel::CreateCoin {
                puzzle_hash: puzzle_hash@,
                amount,
                hint: option_view(hint),
            },
            Condition::SendMessage { mode, message, receiver } => ConditionModel::SendMessage {
                mode,
                message: message@,
                receiver: receiver@,
            },
            Condition::AssertConcurrentSpend { coin_id } => ConditionModel::AssertConcurrentSpend {
                coin_id: coin_id@,
            },
            Condition::RunCatTail { program_hash, solution_hash } => ConditionModel::RunCatTail {
                program_hash: program_hash@,
                solution_hash: solution_hash@,
            },
        }
    }
}

/// The views of a sequence of conditions, in order.
pub open spec fn condition_views(conditions: Seq<Condition>) -> Seq<ConditionModel> {
    conditions.map_values(|c: Condition| c@)
}

/// The tree hash of a coin-creating condition.
pub uninterp spec fn create_coin_hash(puzzle_hash: Seq<u8>, amount: u64, hint: Option<Seq<u8>>) -> Seq<u8>;

/// The tree hash of a message-sending condition with one receiver commitment.
pub uninterp spec fn send_message_hash(mode: u8, message: Seq<u8>, receiver: Seq<u8>) -> Seq<u8>;

/// The tree hash of a concurrent-spend assertion.
pub uninterp spec fn assert_concurrent_spend_hash(coin_id: Seq<u8>) -> Seq<u8>;

/// The tree hash of the condition that runs an issuance program.
pub uninterp spec fn run_cat_tail_hash(program_hash: Seq<u8>, solution_hash: Seq<u8>) -> Seq<u8>;

impl ConditionModel {
    /// The tree hash of the condition in its CLVM form.
    pub open spec fn hash(self) -> Seq<u8> {
        match self {
            ConditionModel::CreateCoin { puzzle_hash, amount, hint } => create_coin_hash(
                puzzle_hash,
                amount,
                hint,
            ),
            ConditionModel::SendMessage { mode, message, receiver } => send_message_hash(
                mode,
                message,
                receiver,
            ),
            ConditionModel::AssertConcurrentSpend { coin_id } => assert_concurrent_spend_hash(
                coin_id,
            ),
            ConditionModel::RunCatTail { program_hash, solution_hash } => run_cat_tail_hash(
                program_hash,
                solution_hash,
            ),
        }
    }
}

/// Builds a `CreateCoin` condition of `chia_sdk_types`, whose memos are the
/// one-element list of the hint or absent, and takes its tree hash with
/// `ToTreeHash::tree_hash`. The result is the uninterpreted function
/// `create_coin_hash` of the three values.
#[verifier::external_body]
fn hash_create_coin(puzzle_hash: &Bytes32, amount: u64, hint: &Option<Bytes32>) -> (r: Bytes32)
    ensures
        r@ == create_coin_hash(puzzle_hash@, amount, option_view(*hint)),
{
    let memos = hint.map_or(Memos::None, |h| Memos::Some([Atom32::new(h.bytes)]));
    Bytes32::new(CreateCoin::new(puzzle_hash.bytes.into(), amount, memos).tree_hash().to_bytes())
}

/// Builds a `SendMessage` condition of `chia_sdk_types` with one data item,
/// the receiver commitment as an atom, and takes its tree hash with
/// `ToTreeHash::tree_hash`. The result is the uninterpreted function
/// `send_message_hash` of the three values.
#[verifier::external_body]
fn hash_send_message(mode: u8, message: &Vec<u8>, receiver: &Bytes32) -> (r: Bytes32)
    ensures
        r@ == send_message_hash(mode, message@, receiver@),
{
    let data = vec![Atom32::new(receiver.bytes)];
    Bytes32::new(SendMessage::new(mode, message.clone().into(), data).tree_hash().to_bytes())
}

/// Builds an `AssertConcurrentSpend` condition of `chia_sdk_types` and takes
/// its tree hash with `ToTreeHash::tree_hash`. The result is the uninterpreted
/// function `assert_concurrent_spend_hash` of the coin identifier.
#[verifier::external_body]
fn hash_assert_concurrent_spend(coin_id: &Bytes32) -> (r: Bytes32)
    ensures
        r@ == assert_concurrent_spend_hash(coin_id@),
{
    Bytes32::new(AssertConcurrentSpend::new(coin_id.bytes.into()).tree_hash().to_bytes())
}

/// Builds a `RunCatTail` condition of `chia_sdk_types` over the tree hashes
/// of the program and of its solution and takes its tree hash with
/// `ToTreeHash::tree_hash`. The result is the uninterpreted function
/// `run_cat_tail_hash` of the two hashes.
#[verifier::external_body]
fn hash_run_cat_tail(program_hash: &Bytes32, solution_hash: &Bytes32) -> (r: Bytes32)
    ensures
        r@ == run_cat_tail_hash(program_hash@, solution_hash@),
{
    let condition = RunCatTail::new(TreeHash::new(program_hash.bytes), TreeHash::new(solution_hash.bytes));
    Bytes32::new(condition.tree_hash().to_bytes())
}

/// The tree hash of the proper list whose items hash to `items`, in order.
pub open spec fn list_hash(items: Seq<Seq<u8>>) -> Seq<u8>
    decreases items.len(),
{
    if items.len() == 0 {
        atom_hash(Seq::<u8>::empty())
    } else {
        pair_hash(items[0], list_hash(items.skip(1)))
    }
}

/// The tree hash of the quoted form of the value that hashes to `value_hash`:
/// the program that returns that value unchanged.
pub open spec fn quoted_hash(value_hash: Seq<u8>) -> Seq<u8> {
    pair_hash(atom_hash(seq![1u8]), value_hash)
}

/// The tree hashes of a sequence of conditions, in order.
pub open spec fn condition_hashes(conditions: Seq<ConditionModel>) -> Seq<Seq<u8>> {
    conditions.map_values(|c: ConditionModel| c.hash())
}

/// The tree hash of the delegated puzzle that outputs exactly `conditions`,
/// in order: the quoted condition list.
pub open spec fn delegated_puzzle_hash_of(conditions: Seq<ConditionModel>) -> Seq<u8> {
    quoted_hash(list_hash(condition_hashes(conditions)))
}

impl Condition {
    /// The tree hash of this condition.
    pub fn tree_hash(&self) -> (r: Bytes32)
        ensures
            r@ == self@.hash(),
    {
        match self {
            Condition::CreateCoin { puzzle_hash, amount, hint } => hash_create_coin(
                puzzle_hash,
                *amount,
                hint,
            ),
            Condition::SendMessage { mode, message, receiver } => hash_send_message(
                *mode,
                message,
                receiver,
            ),
            Condition::AssertConcurrentSpend { coin_id } => hash_assert_concurrent_spend(coin_id),
            Condition::RunCatTail { program_hash, solution_hash } => hash_run_cat_tail(
                program_hash,
                solution_hash,
            ),
        }
    }
}

/// The tree hash of the condition list `conditions`.
pub fn condition_list_hash(conditions: &Vec<Condition>) -> (r: Bytes32)
    ensures
        r@ == list_hash(condition_hashes(condition_views(conditions@))),
{
    let ghost hashes = condition_hashes(condition_views(conditions@));
    let empty: Vec<u8> = Vec::new();
    let mut acc = hash_atom(empty.as_slice());
    let mut i: usize = conditions.len();
    proof {
        assert(hashes.skip(i as int) =~= Seq::<Seq<u8>>::empty());
        assert(empty@ =~= Seq::<u8>::empty());
    }
    while i > 0
        invariant
            i <= conditions@.len(),
            hashes == condition_hashes(condition_views(conditions@)),
            acc@ == list_hash(hashes.skip(i as int)),
        decreases i,
    {
        i = i - 1;
        let h = conditions[i].tree_hash();
        proof {
            let tail = hashes.skip(i as int);
            assert(tail.len() > 0);
            assert(tail[0] == conditions@[i as int]@.hash());
            assert(tail.skip(1) =~= hashes.skip(i as int + 1));
        }
        acc = hash_pair(&h, &acc);
    }
    proof {
        assert(hashes.skip(0) =~= hashes);
    }
    acc
}

/// The tree hash of the delegated puzzle that outputs exactly `conditions`.
pub fn delegated_puzzle_hash(conditions: &Vec<Condition>) -> (r: Bytes32)
    ensures
        r@ == delegated_puzzle_hash_of(condition_views(conditions@)),
{
    let list = condition_list_hash(conditions);
    let mut one: Vec<u8> = Vec::new();
    one.push(1u8);
    assert(one@ =~= seq![1u8]);
    let quote = hash_atom(one.as_slice());
    hash_pair(&quote, &list)
}

/// A delegated puzzle: the conditions that a coin outputs, in order, sealed
/// with the hash that commits to them. The hash depends on the order, so the
/// conditions cannot change once they are sealed.
#[derive(Debug, PartialEq, Eq)]
pub struct DelegatedPuzzle {
    conditions: Vec<Condition>,
    commitment: Bytes32,
}

impl View for DelegatedPuzzle {
    type V = Seq<ConditionModel>;

    closed spec fn view(&self) -> Seq<ConditionModel> {
        condition_views(self.conditions@)
    }
}

impl DelegatedPuzzle {
    #[verifier::type_invariant]
    spec fn commitment_is_current(self) -> bool {
        self.commitment@ == delegated_puzzle_hash_of(condition_views(self.conditions@))
    }

    /// Seals `conditions`, in their order, with their commitment.
    pub fn seal(conditions: Vec<Condition>) -> (r: DelegatedPuzzle)
        ensures
            r@ == condition_views(conditions@),
    {
        let commitment = delegated_puzzle_hash(&conditions);
        DelegatedPuzzle { conditions, commitment }
    }

    /// The conditions, in order.
    pub fn conditions(&self) -> (r: &Vec<Condition>)
        ensures
            condition_views(r@) == self@,
    {
        &self.conditions
    }

    /// The tree hash of the delegated puzzle that outputs the conditions.
    pub fn commitment(&self) -> (r: Bytes32)
        ensures
            r@ == delegated_puzzle_hash_of(self@),
    {
        proof {
            use_type_invariant(self);
        }
        self.commitment
    }
}

} // verus!
