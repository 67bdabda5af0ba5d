use crate::bytes::Bytes32;
use crate::coin::{Coin, CoinModel, CoinSpend};
use crate::error::{EngineError, SyncFailure};
use crate::keys::{key_views, PublicKey};
use chia_wallet_sdk::chia::bls::PublicKey as BlsPublicKey;
use chia_wallet_sdk::chia::protocol::{Coin as LedgerCoin, CoinSpend as LedgerCoinSpend};
use chia_wallet_sdk::driver::{MedievalVault, SingletonInfo, SpendContext};
use chia_wallet_sdk::types::puzzles::P2MOfNDelegateDirectArgs;
use vstd::prelude::*;

verus! {

/// The vault's state at one coin of its lineage: the coin, the singleton's
/// identity, and who governs it.
#[derive(Clone, Debug, PartialEq, Eq)]
pub struct VaultState {
    pub coin: Coin,
    pub launcher_id: Bytes32,
    /// How many of the keys must sign.
    pub threshold: usize,
    pub public_keys: Vec<PublicKey>,
    /// The hash of the inner puzzle that the keys and the threshold fix.
    pub inner_puzzle_hash: Bytes32,
}

/// The mathematical value of a [`VaultState`].
pub struct VaultStateModel {
    pub coin: CoinModel,
    pub launcher_id: Seq<u8>,
    pub threshold: usize,
    pub public_keys: Seq<Seq<u8>>,
    pub inner_puzzle_hash: Seq<u8>,
}

impl View for VaultState {
    type V = VaultStateModel;

    open spec fn view(&self) -> VaultStateModel {
        VaultStateModel {
            coin: self.coin@,
            launcher_id: self.launcher_id@,
            threshold: self.threshold,
            public_keys: key_views(self.public_keys@),
            inner_puzzle_hash: self.inner_puzzle_hash@,
        }
    }
}

impl VaultState {
    pub fn new(
        coin: Coin,
        launcher_id: Bytes32,
        threshold: usize,
        public_keys: Vec<PublicKey>,
        inner_puzzle_hash: Bytes32,
    ) -> (r: VaultState)
        ensures
            r == (VaultState { coin, launcher_id, threshold, public_keys, inner_puzzle_hash }),
    {
        VaultState { coin, launcher_id, threshold, public_keys, inner_puzzle_hash }
    }

    /// The vault state with the given parts, the hashes in raw bytes.
    pub fn from_parts(
        parent_coin_info: [u8; 32],
        puzzle_hash: [u8; 32],
        amount: u64,
        launcher_id: [u8; 32],
        threshold: usize,
        public_keys: Vec<PublicKey>,
        inner_puzzle_hash: [u8; 32],
    ) -> (r: VaultState)
        ensures
            r.coin.parent_coin_info.bytes == parent_coin_info,
            r.coin.puzzle_hash.bytes == puzzle_hash,
            r.coin.amount == amount,
            r.launcher_id.bytes == launcher_id,
            r.threshold == threshold,
            r.public_keys == public_keys,
            r.inner_puzzle_hash.bytes == inner_puzzle_hash,
    {
        VaultState {
            coin: Coin::new(Bytes32::new(parent_coin_info), Bytes32::new(puzzle_hash), amount),
            launcher_id: Bytes32::new(launcher_id),
            threshold,
            public_keys,
            inner_puzzle_hash: Bytes32::new(inner_puzzle_hash),
        }
    }
}

/// The view of an optional vault state.
pub open spec fn optional_vault_view(state: Option<VaultState>) -> Option<VaultStateModel> {
    match state {
        Some(s) => Some(s@),
        None => None,
    }
}

/// The hash of the inner puzzle under which `threshold` of `keys` govern;
/// `None` where a key is not a valid public key.
pub uninterp spec fn m_of_n_puzzle_hash_of(threshold: usize, keys: Seq<Seq<u8>>) -> Option<Seq<u8>>;

/// The vault state that the spend of the coin `(parent_coin_info,
/// puzzle_hash, amount)` with the given puzzle and solution leads to; `None`
/// where the spend does not decode as a step of a vault's lineage.
pub uninterp spec fn vault_child_of(
    parent_coin_info: Seq<u8>,
    puzzle_hash: Seq<u8>,
    amount: u64,
    puzzle_reveal: Seq<u8>,
    solution: Seq<u8>,
) -> Option<VaultStateModel>;

/// Parses every key with `chia_bls::PublicKey::from_bytes` and calls
/// `P2MOfNDelegateDirectArgs::curry_tree_hash` of `chia_sdk_types`. A key
/// that does not parse gives `None`. The result is the uninterpreted function
/// `m_of_n_puzzle_hash_of` of the threshold and the keys.
#[verifier::external_body]
fn hash_m_of_n(threshold: usize, keys: &Vec<PublicKey>) -> (r: Option<Bytes32>)
    ensures
        crate::conditions::option_view(r) == m_of_n_puzzle_hash_of(threshold, key_views(keys@)),
{
    let parsed: Result<Vec<BlsPublicKey>, _> = keys.iter().map(|k| BlsPublicKey::from_bytes(&k.bytes)).collect();
    let hash = P2MOfNDelegateDirectArgs::curry_tree_hash(threshold, parsed.ok()?);
    Some(Bytes32::new(hash.to_bytes()))
}

/// Calls `MedievalVault::from_parent_spend` of `chia_sdk_driver` on the
/// spend, in a fresh `SpendContext`, and copies out the child's coin, its
/// launcher, threshold and keys, and `SingletonInfo::inner_puzzle_hash` of
/// its info. An error, and a spend that is no vault's, give `None`. The
/// result is the uninterpreted function `vault_child_of` of the spend.
#[verifier::external_body]
fn parse_vault_child(
    parent_coin_info: [u8; 32],
    puzzle_hash: [u8; 32],
    amount: u64,
    puzzle_reveal: &[u8],
    solution: &[u8],
) -> (r: Option<VaultState>)
    ensures
        optional_vault_view(r) == vault_child_of(
            parent_coin_info@,
            puzzle_hash@,
            amount,
            puzzle_reveal@,
            solution@,
        ),
{
    let coin = LedgerCoin::new(parent_coin_info.into(), puzzle_hash.into(), amount);
    let spend = LedgerCoinSpend::new(coin, puzzle_reveal.into(), solution.into());
    let v = MedievalVault::from_parent_spend(&mut SpendContext::new(), &spend).ok()??;
    Some(VaultState::from_parts(
        v.coin.parent_coin_info.into(),
        v.coin.puzzle_hash.into(),
        v.coin.amount,
        v.info.launcher_id.into(),
        v.info.m,
        v.info.public_key_list.iter().map(|k| PublicKey::new(k.to_bytes())).collect(),
        v.info.inner_puzzle_hash().into(),
    ))
}

/// The hash of the inner puzzle under which `threshold` of `keys` govern a
/// vault; `None` where a key is not a valid public key.
pub fn governance_puzzle_hash(threshold: usize, keys: &Vec<PublicKey>) -> (r: Option<Bytes32>)
    ensures
        crate::conditions::option_view(r) == m_of_n_puzzle_hash_of(threshold, key_views(keys@)),
{
    hash_m_of_n(threshold, keys)
}

/// What the ledger says of one coin.
#[derive(Clone, Debug, PartialEq, Eq)]
pub enum LedgerReply {
    /// The ledger does not know the coin.
    Unknown,
    /// The coin exists and is unspent.
    Unspent,
    /// The coin is spent, with its spend as far as the ledger returns one.
    Spent(Option<CoinSpend>),
}

/// What a reply means for the walk: whether the coin is current, and what
/// vault state its spend leads to.
#[derive(Clone, Debug, PartialEq, Eq)]
pub enum Observation {
    Unknown,
    Unspent,
    /// The coin is spent; the state its spend leads to, where it decodes.
    Spent(Option<VaultState>),
}

/// The mathematical value of an [`Observation`].
pub enum ObservationModel {
    Unknown,
    Unspent,
    Spent(Option<VaultStateModel>),
}

impl View for Observation {
    type V = ObservationModel;

    open spec fn view(&self) -> ObservationModel {
        match *self {
            Observation::Unknown => ObservationModel::Unknown,
            Observation::Unspent => ObservationModel::Unspent,
            Observation::Spent(child) => ObservationModel::Spent(optional_vault_view(child)),
        }
    }
}

/// What the reply on the coin `coin_id` is observed as. A spend of another
/// coin than the one asked about counts as no spend.
pub open spec fn observation_of(coin_id: Seq<u8>, reply: LedgerReply) -> ObservationModel {
    match reply {
        LedgerReply::Unknown => ObservationModel::Unknown,
        LedgerReply::Unspent => ObservationModel::Unspent,
        LedgerReply::Spent(None) => ObservationModel::Spent(None),
        LedgerReply::Spent(Some(spend)) => if spend.coin@.id() == coin_id {
            ObservationModel::Spent(
                vault_child_of(
                    spend.coin.parent_coin_info@,
                    spend.coin.puzzle_hash@,
                    spend.coin.amount,
                    spend.puzzle_reveal@,
                    spend.solution@,
                ),
            )
        } else {
            ObservationModel::Spent(None)
        },
    }
}

/// Reads the ledger's reply on the coin `coin_id`.
pub fn observe(coin_id: &Bytes32, reply: &LedgerReply) -> (r: Observation)
    ensures
        r@ == observation_of(coin_id@, *reply),
{
    match reply {
        LedgerReply::Unknown => Observation::Unknown,
        LedgerReply::Unspent => Observation::Unspent,
        LedgerReply::Spent(None) => Observation::Spent(None),
        LedgerReply::Spent(Some(spend)) => {
            if spend.coin.coin_id().same(coin_id) {
                Observation::Spent(
                    parse_vault_child(
                        spend.coin.parent_coin_info.bytes,
                        spend.coin.puzzle_hash.bytes,
                        spend.coin.amount,
                        spend.puzzle_reveal.as_slice(),
                        spend.solution.as_slice(),
                    ),
                )
            } else {
                Observation::Spent(None)
            }
        },
    }
}

/// Where the walk along the lineage stands: the coin to ask about, and the
/// vault state at that coin. At the launcher there is no state yet.
#[derive(Clone, Debug, PartialEq, Eq)]
pub struct Cursor {
    pub coin_id: Bytes32,
    pub state: Option<VaultState>,
}

/// The mathematical value of a [`Cursor`].
pub struct CursorModel {
    pub coin_id: Seq<u8>,
    pub state: Option<VaultStateModel>,
}

impl View for Cursor {
    type V = CursorModel;

    open spec fn view(&self) -> CursorModel {
        CursorModel { coin_id: self.coin_id@, state: optional_vault_view(self.state) }
    }
}

impl CursorModel {
    /// The cursor at the launcher of a vault.
    pub open spec fn at_launcher(launcher_id: Seq<u8>) -> CursorModel {
        CursorModel { coin_id: launcher_id, state: None }
    }

    /// The cursor at the coin of a vault state.
    pub open spec fn at_state(state: VaultStateModel) -> CursorModel {
        CursorModel { coin_id: state.coin.id(), state: Some(state) }
    }

    /// Whether the cursor asks about the coin of its own state.
    pub open spec fn consistent(self) -> bool {
        self.state matches Some(s) ==> self.coin_id == s.coin.id()
    }
}

/// What one step of the walk yields.
#[derive(Clone, Debug, PartialEq, Eq)]
pub enum Progress {
    /// The coin was spent: ask about its successor next.
    Continue(Cursor),
    /// The coin is unspent: this is the vault's current state.
    Done(VaultState),
    /// The walk failed.
    Failed(EngineError),
}

/// The mathematical value of a [`Progress`], and of a finished walk.
pub enum ProgressModel {
    Continue(CursorModel),
    Done(VaultStateModel),
    Failed(Seq<u8>, SyncFailure),
}

/// Whether `progress` is the step `model`.
pub open spec fn is_progress(progress: Progress, model: ProgressModel) -> bool {
    match model {
        ProgressModel::Continue(next) => progress matches Progress::Continue(c) && c@ == next,
        ProgressModel::Done(state) => progress matches Progress::Done(s) && s@ == state,
        ProgressModel::Failed(coin_id, reason) => progress matches Progress::Failed(
            EngineError::SyncError { coin_id: id, reason: why },
        ) && id@ == coin_id && why == reason,
    }
}

/// One step of the walk: forward along the lineage while coins are spent,
/// done at the first unspent coin, failed at anything else.
pub open spec fn step_of(cursor: CursorModel, observation: ObservationModel) -> ProgressModel {
    match observation {
        ObservationModel::Unknown => ProgressModel::Failed(
            cursor.coin_id,
            SyncFailure::UnknownCoin,
        ),
        ObservationModel::Unspent => match cursor.state {
            Some(state) => ProgressModel::Done(state),
            None => ProgressModel::Failed(cursor.coin_id, SyncFailure::NeverLaunched),
        },
        ObservationModel::Spent(None) => ProgressModel::Failed(
            cursor.coin_id,
            SyncFailure::UndecodableStep,
        ),
        ObservationModel::Spent(Some(child)) => ProgressModel::Continue(
            CursorModel::at_state(child),
        ),
    }
}

/// Takes one step of the walk, given what the ledger was observed to say of
/// the cursor's coin.
pub fn step(cursor: Cursor, observation: Observation) -> (r: Progress)
    ensures
        is_progress(r, step_of(cursor@, observation@)),
{
    match observation {
        Observation::Unknown => Progress::Failed(
            EngineError::SyncError { coin_id: cursor.coin_id, reason: SyncFailure::UnknownCoin },
        ),
        Observation::Unspent => match cursor.state {
            Some(state) => Progress::Done(state),
            None => Progress::Failed(
                EngineError::SyncError {
                    coin_id: cursor.coin_id,
                    reason: SyncFailure::NeverLaunched,
                },
            ),
        },
        Observation::Spent(None) => Progress::Failed(
            EngineError::SyncError {
                coin_id: cursor.coin_id,
                reason: SyncFailure::UndecodableStep,
            },
        ),
        Observation::Spent(Some(child)) => {
            let coin_id = child.coin.coin_id();
            Progress::Continue(Cursor { coin_id, state: Some(child) })
        },
    }
}

/// Takes one step of the walk, given the ledger's reply on the cursor's coin.
pub fn advance(cursor: Cursor, reply: &LedgerReply) -> (r: Progress)
    ensures
        is_progress(r, step_of(cursor@, observation_of(cursor.coin_id@, *reply))),
{
    let observation = observe(&cursor.coin_id, reply);
    step(cursor, observation)
}

} // verus!
