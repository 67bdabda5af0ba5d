use crate::bytes::Bytes32;
use crate::coin::{Coin, CoinModel, CoinRecord, CoinSpend};
use crate::conditions::option_view;
use crate::error::{EngineError, LineageFailure};
use chia_wallet_sdk::chia::protocol::Coin as LedgerCoin;
use chia_wallet_sdk::clvmr::serde::node_from_bytes;
use chia_wallet_sdk::clvmr::Allocator;
use chia_wallet_sdk::driver::{Cat, Puzzle};
use vstd::prelude::*;

verus! {

/// A coin of a revocable asset, with what its locking condition embeds.
#[derive(Clone, Copy, Debug, PartialEq, Eq)]
pub struct CatCoin {
    pub coin: Coin,
    /// The asset identifier.
    pub asset_id: Bytes32,
    /// The revocation authority, where the coin is revocable.
    pub hidden_puzzle_hash: Option<Bytes32>,
    /// The holder's own locking condition.
    pub p2_puzzle_hash: Bytes32,
}

/// The mathematical value of a [`CatCoin`].
pub struct CatCoinModel {
    pub coin: CoinModel,
    pub asset_id: Seq<u8>,
    pub hidden_puzzle_hash: Option<Seq<u8>>,
    pub p2_puzzle_hash: Seq<u8>,
}

impl View for CatCoin {
    type V = CatCoinModel;

    open spec fn view(&self) -> CatCoinModel {
        CatCoinModel {
            coin: self.coin@,
            asset_id: self.asset_id@,
            hidden_puzzle_hash: option_view(self.hidden_puzzle_hash),
            p2_puzzle_hash: self.p2_puzzle_hash@,
        }
    }
}

impl CatCoin {
    pub fn new(
        coin: Coin,
        asset_id: Bytes32,
        hidden_puzzle_hash: Option<Bytes32>,
        p2_puzzle_hash: Bytes32,
    ) -> (r: CatCoin)
        ensures
            r == (CatCoin { coin, asset_id, hidden_puzzle_hash, p2_puzzle_hash }),
    {
        CatCoin { coin, asset_id, hidden_puzzle_hash, p2_puzzle_hash }
    }

    /// The asset coin with the given parts, each in raw bytes.
    pub fn from_parts(
        parent_coin_info: [u8; 32],
        puzzle_hash: [u8; 32],
        amount: u64,
        asset_id: [u8; 32],
        hidden_puzzle_hash: Option<[u8; 32]>,
        p2_puzzle_hash: [u8; 32],
    ) -> (r: CatCoin)
        ensures
            r.coin.parent_coin_info.bytes == parent_coin_info,
            r.coin.puzzle_hash.bytes == puzzle_hash,
            r.coin.amount == amount,
            r.asset_id.bytes == asset_id,
            match hidden_puzzle_hash {
                Some(h) => r.hidden_puzzle_hash matches Some(own) && own.bytes == h,
                None => r.hidden_puzzle_hash is None,
            },
            r.p2_puzzle_hash.bytes == p2_puzzle_hash,
    {
        let hidden_puzzle_hash = match hidden_puzzle_hash {
            Some(h) => Some(Bytes32::new(h)),
            None => None,
        };
        CatCoin {
            coin: Coin::new(Bytes32::new(parent_coin_info), Bytes32::new(puzzle_hash), amount),
            asset_id: Bytes32::new(asset_id),
            hidden_puzzle_hash,
            p2_puzzle_hash: Bytes32::new(p2_puzzle_hash),
        }
    }
}

/// The views of a sequence of asset coins, in order.
pub open spec fn cat_views(cats: Seq<CatCoin>) -> Seq<CatCoinModel> {
    cats.map_values(|c: CatCoin| c@)
}

/// The views of the asset coins of an optional list.
pub open spec fn optional_cat_views(cats: Option<Vec<CatCoin>>) -> Option<Seq<CatCoinModel>> {
    match cats {
        Some(v) => Some(cat_views(v@)),
        None => None,
    }
}

/// The asset coins that the spend of the coin `(parent_coin_info,
/// puzzle_hash, amount)` with the given puzzle and solution creates, in the
/// order of its output; `None` where the puzzle is not that of an asset coin
/// or the spend does not parse.
pub uninterp spec fn cat_children_of(
    parent_coin_info: Seq<u8>,
    puzzle_hash: Seq<u8>,
    amount: u64,
    puzzle_reveal: Seq<u8>,
    solution: Seq<u8>,
) -> Option<Seq<CatCoinModel>>;

/// Deserializes the puzzle and the solution with `clvmr`'s `node_from_bytes`,
/// parses the puzzle with `Puzzle::parse` and calls `Cat::parse_children` of
/// `chia_sdk_driver`, which runs the parent's inner puzzle and lists the
/// asset coins it creates. Any error, and a puzzle that is no asset puzzle,
/// give `None`. The result is the uninterpreted function `cat_children_of` of the
/// spend.
#[verifier::external_body]
fn parse_cat_children(
    parent_coin_info: [u8; 32],
    puzzle_hash: [u8; 32],
    amount: u64,
    puzzle_reveal: &[u8],
    solution: &[u8],
) -> (r: Option<Vec<CatCoin>>)
    ensures
        optional_cat_views(r) == cat_children_of(
            parent_coin_info@,
            puzzle_hash@,
            amount,
            puzzle_reveal@,
            solution@,
        ),
{
    let mut a = Allocator::new();
    let puzzle = node_from_bytes(&mut a, puzzle_reveal).ok()?;
    let solution = node_from_bytes(&mut a, solution).ok()?;
    let puzzle = Puzzle::parse(&a, puzzle);
    let coin = LedgerCoin::new(parent_coin_info.into(), puzzle_hash.into(), amount);
    let cats = Cat::parse_children(&mut a, coin, puzzle, solution).ok()??;
    Some(cats.iter().map(|c| CatCoin::from_parts(
        c.coin.parent_coin_info.into(),
        c.coin.puzzle_hash.into(),
        c.coin.amount,
        c.info.asset_id.into(),
        c.info.hidden_puzzle_hash.map(Into::into),
        c.info.p2_puzzle_hash.into(),
    )).collect())
}

/// The first of `children` whose coin has the identifier `coin_id`.
pub open spec fn first_child_with_id(children: Seq<CatCoinModel>, coin_id: Seq<u8>) -> Option<CatCoinModel>
    decreases children.len(),
{
    if children.len() == 0 {
        None
    } else if children[0].coin.id() == coin_id {
        Some(children[0])
    } else {
        first_child_with_id(children.skip(1), coin_id)
    }
}

/// Whether `cat` is an instance of the asset `asset_id` under the revocation
/// authority `authority`.
pub open spec fn is_governed(cat: CatCoinModel, asset_id: Seq<u8>, authority: Seq<u8>) -> bool {
    cat.asset_id == asset_id && cat.hidden_puzzle_hash == Some(authority)
}

/// What the validator finds of a coin.
pub enum Verdict {
    /// The coin is a genuine instance of the governed asset.
    Genuine(CatCoinModel),
    /// The coin is spent already.
    AlreadySpent,
    /// The parent was never spent.
    ParentNotSpent,
    /// The parent's spend is not that of an asset coin.
    ParentUnparsable,
    /// The parent's spend does not create the coin.
    NotAChild,
    /// The coin is of another asset or under another authority.
    Mismatch(CatCoinModel),
}

/// The verdict on a coin whose parent created `children`.
pub open spec fn lineage_verdict(
    coin: CoinModel,
    children: Option<Seq<CatCoinModel>>,
    asset_id: Seq<u8>,
    authority: Seq<u8>,
) -> Verdict {
    match children {
        None => Verdict::ParentUnparsable,
        Some(children) => match first_child_with_id(children, coin.id()) {
            None => Verdict::NotAChild,
            Some(cat) => if is_governed(cat, asset_id, authority) {
                Verdict::Genuine(cat)
            } else {
                Verdict::Mismatch(cat)
            },
        },
    }
}

/// Whether the result `r` reports the verdict `verdict` on the coin with
/// identifier `coin_id`, checked against `asset_id` and `authority`.
pub open spec fn reports(
    r: Result<CatCoin, EngineError>,
    verdict: Verdict,
    coin_id: Seq<u8>,
    asset_id: Seq<u8>,
    authority: Seq<u8>,
) -> bool {
    match verdict {
        Verdict::Genuine(cat) => r matches Ok(found) && found@ == cat,
        Verdict::AlreadySpent => r matches Err(EngineError::AlreadySpent { coin_id: id }) && id@
            == coin_id,
        Verdict::ParentNotSpent => r matches Err(
            EngineError::LineageError { coin_id: id, reason: LineageFailure::ParentNotSpent },
        ) && id@ == coin_id,
        Verdict::ParentUnparsable => r matches Err(
            EngineError::LineageError { coin_id: id, reason: LineageFailure::ParentUnparsable },
        ) && id@ == coin_id,
        Verdict::NotAChild => r matches Err(
            EngineError::LineageError { coin_id: id, reason: LineageFailure::NotAChild },
        ) && id@ == coin_id,
        Verdict::Mismatch(cat) => r matches Err(
            EngineError::AssetMismatch {
                coin_id: id,
                expected_asset_id,
                actual_asset_id,
                expected_authority,
                actual_authority,
            },
        ) && id@ == coin_id && expected_asset_id@ == asset_id && actual_asset_id@ == cat.asset_id
            && expected_authority@ == authority && option_view(actual_authority)
            == cat.hidden_puzzle_hash,
    }
}

/// Finds the first of `children` whose coin has the identifier `coin_id`.
fn find_child(children: &Vec<CatCoin>, coin_id: &Bytes32) -> (r: Option<CatCoin>)
    ensures
        match r {
            Some(cat) => first_child_with_id(cat_views(children@), coin_id@) == Some(cat@),
            None => first_child_with_id(cat_views(children@), coin_id@) is None,
        },
{
    let ghost all = cat_views(children@);
    let mut i: usize = 0;
    proof {
        assert(all.skip(0) =~= all);
    }
    while i < children.len()
        invariant
            i <= children@.len(),
            all == cat_views(children@),
            first_child_with_id(all, coin_id@) == first_child_with_id(all.skip(i as int), coin_id@),
        decreases children@.len() - i,
    {
        let id = children[i].coin.coin_id();
        proof {
            let rest = all.skip(i as int);
            assert(rest.len() > 0);
            assert(rest[0] == children@[i as int]@);
            assert(rest.skip(1) =~= all.skip(i as int + 1));
        }
        if id.same(coin_id) {
            return Some(children[i]);
        }
        i = i + 1;
    }
    proof {
        assert(all.skip(i as int).len() == 0);
    }
    None
}

/// Judges a coin against the asset coins that its parent's spend created:
/// the coin must be among them, of the expected asset and under the expected
/// revocation authority.
pub fn check_lineage(
    coin: &Coin,
    children: &Option<Vec<CatCoin>>,
    expected_asset_id: &Bytes32,
    expected_authority: &Bytes32,
) -> (r: Result<CatCoin, EngineError>)
    ensures
        reports(
            r,
            lineage_verdict(
                coin@,
                optional_cat_views(*children),
                expected_asset_id@,
                expected_authority@,
            ),
            coin@.id(),
            expected_asset_id@,
            expected_authority@,
        ),
{
    let coin_id = coin.coin_id();
    match children {
        None => Err(
            EngineError::LineageError { coin_id, reason: LineageFailure::ParentUnparsable },
        ),
        Some(children) => match find_child(children, &coin_id) {
            None => Err(EngineError::LineageError { coin_id, reason: LineageFailure::NotAChild }),
            Some(cat) => {
                let authority_matches = match cat.hidden_puzzle_hash {
                    Some(h) => h.same(expected_authority),
                    None => false,
                };
                if cat.asset_id.same(expected_asset_id) && authority_matches {
                    Ok(cat)
                } else {
                    Err(
                        EngineError::AssetMismatch {
                            coin_id,
                            expected_asset_id: *expected_asset_id,
                            actual_asset_id: cat.asset_id,
                            expected_authority: *expected_authority,
                            actual_authority: cat.hidden_puzzle_hash,
                        },
                    )
                }
            },
        },
    }
}

/// The views of the spend that created a coin, where the ledger has one.
pub open spec fn children_of_spend(parent_spend: Option<CoinSpend>) -> Option<Seq<CatCoinModel>> {
    match parent_spend {
        Some(spend) => cat_children_of(
            spend.coin.parent_coin_info@,
            spend.coin.puzzle_hash@,
            spend.coin.amount,
            spend.puzzle_reveal@,
            spend.solution@,
        ),
        None => None,
    }
}

/// The verdict on a coin record, given the spend of its parent as far as the
/// ledger has one.
pub open spec fn coin_verdict(
    record: CoinRecord,
    parent_spend: Option<CoinSpend>,
    asset_id: Seq<u8>,
    authority: Seq<u8>,
) -> Verdict {
    if record.spent {
        Verdict::AlreadySpent
    } else if parent_spend is None {
        Verdict::ParentNotSpent
    } else {
        lineage_verdict(record.coin@, children_of_spend(parent_spend), asset_id, authority)
    }
}

/// Validates one target coin: it must be unspent, its parent's spend must be
/// known and create it, and it must be an instance of the governed asset
/// under the expected revocation authority.
pub fn validate_coin(
    record: &CoinRecord,
    parent_spend: &Option<CoinSpend>,
    expected_asset_id: &Bytes32,
    expected_authority: &Bytes32,
) -> (r: Result<CatCoin, EngineError>)
    ensures
        reports(
            r,
            coin_verdict(*record, *parent_spend, expected_asset_id@, expected_authority@),
            record.coin@.id(),
            expected_asset_id@,
            expected_authority@,
        ),
{
    if record.spent {
        return Err(EngineError::AlreadySpent { coin_id: record.coin.coin_id() });
    }
    match parent_spend {
        None => Err(
            EngineError::LineageError {
                coin_id: record.coin.coin_id(),
                reason: LineageFailure::ParentNotSpent,
            },
        ),
        Some(spend) => {
            let children = parse_cat_children(
                spend.coin.parent_coin_info.bytes,
                spend.coin.puzzle_hash.bytes,
                spend.coin.amount,
                spend.puzzle_reveal.as_slice(),
                spend.solution.as_slice(),
            );
            check_lineage(&record.coin, &children, expected_asset_id, expected_authority)
        },
    }
}

/// A coin that is found genuine is of the expected asset and under the
/// expected authority, unspent, and created by its parent's spend.
pub proof fn lemma_genuine_is_governed(
    record: CoinRecord,
    parent_spend: Option<CoinSpend>,
    asset_id: Seq<u8>,
    authority: Seq<u8>,
)
    requires
        coin_verdict(record, parent_spend, asset_id, authority) is Genuine,
    ensures
        !record.spent,
        parent_spend is Some,
        is_governed(
            coin_verdict(record, parent_spend, asset_id, authority)->Genuine_0,
            asset_id,
            authority,
        ),
        children_of_spend(parent_spend) matches Some(children) && first_child_with_id(
            children,
            record.coin@.id(),
        ) == Some(coin_verdict(record, parent_spend, asset_id, authority)->Genuine_0),
{
}

/// A coin of another asset, or under another authority, is never found
/// genuine: the validator reports the mismatch.
pub proof fn lemma_mismatch_is_rejected(
    coin: CoinModel,
    children: Seq<CatCoinModel>,
    cat: CatCoinModel,
    asset_id: Seq<u8>,
    authority: Seq<u8>,
)
    requires
        first_child_with_id(children, coin.id()) == Some(cat),
        !is_governed(cat, asset_id, authority),
    ensures
        lineage_verdict(coin, Some(children), asset_id, authority) == Verdict::Mismatch(cat),
{
}

/// One coin that is to be revoked from: what the ledger records of it, and
/// the spend of its parent as far as the ledger has one.
#[derive(Clone, Debug, PartialEq, Eq)]
pub struct TargetInput {
    pub record: CoinRecord,
    pub parent_spend: Option<CoinSpend>,
}

/// The verdict on the target at `index`.
pub open spec fn verdict_at(
    targets: Seq<TargetInput>,
    index: int,
    asset_id: Seq<u8>,
    authority: Seq<u8>,
) -> Verdict {
    coin_verdict(targets[index].record, targets[index].parent_spend, asset_id, authority)
}

/// Whether `cats` are the targets, each found genuine, in order.
pub open spec fn all_genuine(
    targets: Seq<TargetInput>,
    cats: Seq<CatCoinModel>,
    asset_id: Seq<u8>,
    authority: Seq<u8>,
) -> bool {
    &&& cats.len() == targets.len()
    &&& forall|i: int|
        0 <= i < targets.len() ==> #[trigger] verdict_at(targets, i, asset_id, authority)
            == Verdict::Genuine(cats[i])
}

/// Whether the target at `index` is the first that is not genuine, and `e`
/// reports what is wrong with it.
pub open spec fn first_rejection(
    targets: Seq<TargetInput>,
    index: int,
    e: EngineError,
    asset_id: Seq<u8>,
    authority: Seq<u8>,
) -> bool {
    &&& 0 <= index < targets.len()
    &&& forall|j: int|
        0 <= j < index ==> #[trigger] verdict_at(targets, j, asset_id, authority) is Genuine
    &&& !(verdict_at(targets, index, asset_id, authority) is Genuine)
    &&& reports(
        Err(e),
        verdict_at(targets, index, asset_id, authority),
        targets[index].record.coin@.id(),
        asset_id,
        authority,
    )
}

/// Coins that passed validation against one asset and one revocation
/// authority. Only validation makes such a value, so that what is accounted
/// for was validated first.
#[derive(Debug, PartialEq, Eq)]
pub struct ValidatedCoins {
    cats: Vec<CatCoin>,
    asset_id: Bytes32,
    authority: Bytes32,
}

impl View for ValidatedCoins {
    type V = Seq<CatCoinModel>;

    closed spec fn view(&self) -> Seq<CatCoinModel> {
        cat_views(self.cats@)
    }
}

impl ValidatedCoins {
    #[verifier::type_invariant]
    spec fn every_coin_is_governed(self) -> bool {
        forall|i: int|
            0 <= i < self.cats@.len() ==> is_governed(
                (#[trigger] self.cats@[i])@,
                self.asset_id@,
                self.authority@,
            )
    }

    /// The asset that the coins were validated against.
    pub closed spec fn asset_id(self) -> Seq<u8> {
        self.asset_id@
    }

    /// The revocation authority that the coins were validated against.
    pub closed spec fn authority(self) -> Seq<u8> {
        self.authority@
    }

    /// Seals coins that were each found to be of the asset `asset_id` under
    /// the authority `authority`.
    pub(crate) fn assemble(cats: Vec<CatCoin>, asset_id: Bytes32, authority: Bytes32) -> (r:
        ValidatedCoins)
        requires
            forall|i: int|
                0 <= i < cats@.len() ==> is_governed((#[trigger] cats@[i])@, asset_id@, authority@),
        ensures
            r@ == cat_views(cats@),
            r.asset_id() == asset_id@,
            r.authority() == authority@,
    {
        ValidatedCoins { cats, asset_id, authority }
    }

    /// The validated coins, in order.
    pub fn coins(&self) -> (r: &Vec<CatCoin>)
        ensures
            cat_views(r@) == self@,
            forall|i: int|
                0 <= i < r@.len() ==> is_governed(
                    (#[trigger] r@[i])@,
                    self.asset_id(),
                    self.authority(),
                ),
    {
        proof {
            use_type_invariant(self);
        }
        &self.cats
    }

    /// The asset that the coins were validated against.
    pub fn asset(&self) -> (r: Bytes32)
        ensures
            r@ == self.asset_id(),
    {
        self.asset_id
    }

    /// The revocation authority that the coins were validated against.
    pub fn authority_hash(&self) -> (r: Bytes32)
        ensures
            r@ == self.authority(),
    {
        self.authority
    }

    /// How many coins passed validation.
    pub fn len(&self) -> (r: usize)
        ensures
            r == self@.len(),
    {
        self.cats.len()
    }

    /// Whether no coin was validated.
    pub fn is_empty(&self) -> (r: bool)
        ensures
            r == (self@.len() == 0),
    {
        self.cats.len() == 0
    }
}

/// Validates every target, in order. One target that fails validation fails
/// them all, with the error of the first that fails: no coin is dropped from
/// the accounting in silence.
pub fn validate_all(
    targets: &Vec<TargetInput>,
    expected_asset_id: &Bytes32,
    expected_authority: &Bytes32,
) -> (r: Result<ValidatedCoins, EngineError>)
    ensures
        match r {
            Ok(coins) => all_genuine(
                targets@,
                coins@,
                expected_asset_id@,
                expected_authority@,
            ) && coins.asset_id() == expected_asset_id@ && coins.authority()
                == expected_authority@,
            Err(e) => exists|k: int|
                first_rejection(targets@, k, e, expected_asset_id@, expected_authority@),
        },
{
    let mut cats: Vec<CatCoin> = Vec::new();
    let mut i: usize = 0;
    while i < targets.len()
        invariant
            i <= targets@.len(),
            cats@.len() == i,
            forall|j: int|
                0 <= j < i ==> #[trigger] verdict_at(
                    targets@,
                    j,
                    expected_asset_id@,
                    expected_authority@,
                ) == Verdict::Genuine(cats@[j]@),
            forall|j: int|
                0 <= j < i ==> is_governed(
                    (#[trigger] cats@[j])@,
                    expected_asset_id@,
                    expected_authority@,
                ),
        decreases targets@.len() - i,
    {
        let target = &targets[i];
        match validate_coin(
            &target.record,
            &target.parent_spend,
            expected_asset_id,
            expected_authority,
        ) {
            Ok(cat) => {
                cats.push(cat);
            },
            Err(e) => {
                proof {
                    assert(first_rejection(
                        targets@,
                        i as int,
                        e,
                        expected_asset_id@,
                        expected_authority@,
                    ));
                }
                return Err(e);
            },
        }
        i = i + 1;
    }
    proof {
        assert forall|j: int| 0 <= j < targets@.len() implies #[trigger] verdict_at(
            targets@,
            j,
            expected_asset_id@,
            expected_authority@,
        ) == Verdict::Genuine(cat_views(cats@)[j]) by {
            assert(cat_views(cats@)[j] == cats@[j]@);
        }
    }
    Ok(ValidatedCoins { cats, asset_id: *expected_asset_id, authority: *expected_authority })
}


} // verus!
