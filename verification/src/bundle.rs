use crate::bytes::Bytes32;
use crate::coin::{CoinSpend, CoinSpendModel};
use crate::error::{EngineError, SigningFailure};
use crate::keys::Signature;
use chia_wallet_sdk::chia::bls::Signature as BlsSignature;
use vstd::prelude::*;

verus! {

/// The spends that are submitted together, in order, with the one signature
/// that covers them all.
#[derive(Clone, Debug, PartialEq, Eq)]
pub struct SpendBundle {
    pub coin_spends: Vec<CoinSpend>,
    pub aggregated_signature: Signature,
}

/// The views of a sequence of coin spends, in order.
pub open spec fn spend_views(spends: Seq<CoinSpend>) -> Seq<CoinSpendModel> {
    spends.map_values(|s: CoinSpend| s@)
}

/// The algebraic combination of two signatures in compressed form; `None`
/// where either is not a signature.
pub uninterp spec fn aggregate_of(first: Seq<u8>, second: Seq<u8>) -> Option<Seq<u8>>;

/// The view of an optional signature.
pub open spec fn optional_signature_view(signature: Option<Signature>) -> Option<Seq<u8>> {
    match signature {
        Some(s) => Some(s@),
        None => None,
    }
}

/// Parses both values with `chia_bls::Signature::from_bytes`, which rejects
/// what is no valid group element, and adds them with the `Add`
/// implementation of `chia_bls::Signature`. The result, compressed again, is
/// the uninterpreted function `aggregate_of` of the two values.
#[verifier::external_body]
fn aggregate_signatures(first: &Signature, second: &Signature) -> (r: Option<Signature>)
    ensures
        optional_signature_view(r) == aggregate_of(first@, second@),
{
    let first = BlsSignature::from_bytes(&first.bytes).ok()?;
    let second = BlsSignature::from_bytes(&second.bytes).ok()?;
    Some(Signature::new((first + &second).to_bytes()))
}

/// The signature over a whole bundle: the counter-offer's signature combined
/// with the combination of the anchor's share and the vault's share.
pub open spec fn bundle_signature_of(offer: Seq<u8>, anchor: Seq<u8>, vault: Seq<u8>) -> Option<Seq<u8>> {
    match aggregate_of(anchor, vault) {
        Some(own) => aggregate_of(offer, own),
        None => None,
    }
}

/// The spends of a whole bundle, in order: those of the counter-offer, the
/// anchor's, those of the targets, and the vault's last.
pub open spec fn bundle_spends_of(
    offer: Seq<CoinSpendModel>,
    anchor: CoinSpendModel,
    targets: Seq<CoinSpendModel>,
    vault: CoinSpendModel,
) -> Seq<CoinSpendModel> {
    (offer.push(anchor) + targets).push(vault)
}

/// No spend is dropped or reordered: the bundle holds the counter-offer's
/// spends first, as they came, then the anchor's, then the targets', as they
/// came, and the vault's last, and nothing else.
pub proof fn lemma_bundle_keeps_every_spend(
    offer: Seq<CoinSpendModel>,
    anchor: CoinSpendModel,
    targets: Seq<CoinSpendModel>,
    vault: CoinSpendModel,
)
    ensures
        bundle_spends_of(offer, anchor, targets, vault).len() == offer.len() + targets.len() + 2,
        forall|i: int|
            0 <= i < offer.len() ==> bundle_spends_of(offer, anchor, targets, vault)[i]
                == #[trigger] offer[i],
        bundle_spends_of(offer, anchor, targets, vault)[offer.len() as int] == anchor,
        forall|i: int|
            0 <= i < targets.len() ==> bundle_spends_of(offer, anchor, targets, vault)[offer.len()
                + 1 + i] == #[trigger] targets[i],
        bundle_spends_of(offer, anchor, targets, vault).last() == vault,
{
}

/// Whether one of `spends` spends the coin `coin_id`.
pub open spec fn is_spent_in(spends: Seq<CoinSpendModel>, coin_id: Seq<u8>) -> bool {
    exists|i: int| 0 <= i < spends.len() && (#[trigger] spends[i]).coin.id() == coin_id
}

impl SpendBundle {
    /// Whether the bundle spends the coin `coin_id`: what an assertion of a
    /// concurrent spend of that coin needs.
    pub fn spends_coin(&self, coin_id: &Bytes32) -> (r: bool)
        ensures
            r == is_spent_in(spend_views(self.coin_spends@), coin_id@),
    {
        let mut i: usize = 0;
        while i < self.coin_spends.len()
            invariant
                i <= self.coin_spends@.len(),
                forall|j: int|
                    0 <= j < i ==> (#[trigger] spend_views(self.coin_spends@)[j]).coin.id()
                        != coin_id@,
            decreases self.coin_spends@.len() - i,
        {
            if self.coin_spends[i].coin.coin_id().same(coin_id) {
                assert(spend_views(self.coin_spends@)[i as int].coin.id() == coin_id@);
                return true;
            }
            i = i + 1;
        }
        false
    }
}

/// Puts the spends of a transaction into one bundle under the signature
/// `signature`: those of the counter-offer, the anchor's, those of the
/// targets, and the vault's last, each as it came.
pub fn merge_spends(
    offer_spends: Vec<CoinSpend>,
    anchor_spend: CoinSpend,
    target_spends: Vec<CoinSpend>,
    vault_spend: CoinSpend,
    signature: Signature,
) -> (r: SpendBundle)
    ensures
        r.aggregated_signature == signature,
        spend_views(r.coin_spends@) == bundle_spends_of(
            spend_views(offer_spends@),
            anchor_spend@,
            spend_views(target_spends@),
            vault_spend@,
        ),
{
    let ghost offer_views = spend_views(offer_spends@);
    let ghost target_views = spend_views(target_spends@);
    let ghost anchor_view = anchor_spend@;
    let ghost vault_view = vault_spend@;
    let mut spends = offer_spends;
    let mut targets = target_spends;
    spends.push(anchor_spend);
    spends.append(&mut targets);
    spends.push(vault_spend);
    proof {
        assert(spend_views(spends@) =~= bundle_spends_of(
            offer_views,
            anchor_view,
            target_views,
            vault_view,
        ));
    }
    SpendBundle { coin_spends: spends, aggregated_signature: signature }
}

/// Merges the counter-offer's spends, the anchor spend, the targets' spends
/// and the vault spend into one bundle, in that order, and combines the
/// signature shares into one signature. No spend is dropped or reordered. A
/// share that is absent or malformed fails the assembly: no bundle is
/// returned then.
pub fn assemble_bundle(
    counter_offer: SpendBundle,
    anchor_spend: CoinSpend,
    target_spends: Vec<CoinSpend>,
    vault_spend: CoinSpend,
    anchor_share: Option<Signature>,
    vault_share: Option<Signature>,
) -> (r: Result<SpendBundle, EngineError>)
    ensures
        anchor_share is None ==> r matches Err(
            EngineError::SigningError { reason: SigningFailure::MissingAnchorShare },
        ),
        anchor_share is Some && vault_share is None ==> r matches Err(
            EngineError::SigningError { reason: SigningFailure::MissingVaultShare },
        ),
        anchor_share is Some && vault_share is Some ==> match bundle_signature_of(
            counter_offer.aggregated_signature@,
            anchor_share->0@,
            vault_share->0@,
        ) {
            Some(signature) => r matches Ok(bundle) && bundle.aggregated_signature@ == signature
                && spend_views(bundle.coin_spends@) == bundle_spends_of(
                spend_views(counter_offer.coin_spends@),
                anchor_spend@,
                spend_views(target_spends@),
                vault_spend@,
            ),
            None => r matches Err(
                EngineError::SigningError { reason: SigningFailure::MalformedShare },
            ),
        },
{
    let anchor_share = match anchor_share {
        Some(share) => share,
        None => {
            return Err(EngineError::SigningError { reason: SigningFailure::MissingAnchorShare });
        },
    };
    let vault_share = match vault_share {
        Some(share) => share,
        None => {
            return Err(EngineError::SigningError { reason: SigningFailure::MissingVaultShare });
        },
    };
    let own = match aggregate_signatures(&anchor_share, &vault_share) {
        Some(own) => own,
        None => {
            return Err(EngineError::SigningError { reason: SigningFailure::MalformedShare });
        },
    };
    let signature = match aggregate_signatures(&counter_offer.aggregated_signature, &own) {
        Some(signature) => signature,
        None => {
            return Err(EngineError::SigningError { reason: SigningFailure::MalformedShare });
        },
    };
    Ok(merge_spends(counter_offer.coin_spends, anchor_spend, target_spends, vault_spend, signature))
}

/// The spends that a driver collected for one transaction, told apart: what
/// came before the anchor's spend, the anchor's spend, the targets' spends,
/// and the vault's spend, which is last.
#[derive(Clone, Debug, PartialEq, Eq)]
pub struct CollectedSpends {
    pub before: Vec<CoinSpend>,
    pub anchor: CoinSpend,
    pub targets: Vec<CoinSpend>,
    pub vault: CoinSpend,
}

/// Where the anchor's spend stands among `spends`: the first spend of the
/// coin `anchor_coin_id`, which must not be the last spend.
pub open spec fn anchor_position(spends: Seq<CoinSpendModel>, anchor_coin_id: Seq<u8>, at: int) -> bool {
    &&& 0 <= at < spends.len() - 1
    &&& spends[at].coin.id() == anchor_coin_id
    &&& forall|j: int| 0 <= j < at ==> (#[trigger] spends[j]).coin.id() != anchor_coin_id
}

impl CollectedSpends {
    /// Whether these are `spends`, told apart at the anchor's spend.
    pub open spec fn partitions(&self, spends: Seq<CoinSpendModel>, anchor_coin_id: Seq<u8>) -> bool {
        let at = self.before@.len() as int;
        &&& anchor_position(spends, anchor_coin_id, at)
        &&& spend_views(self.before@) == spends.subrange(0, at)
        &&& self.anchor@ == spends[at]
        &&& spend_views(self.targets@) == spends.subrange(at + 1, spends.len() - 1)
        &&& self.vault@ == spends.last()
    }
}

/// Telling the spends apart and putting them together again gives the same
/// spends, in the same order.
pub proof fn lemma_collected_spends_are_all(
    parts: CollectedSpends,
    spends: Seq<CoinSpendModel>,
    anchor_coin_id: Seq<u8>,
)
    requires
        parts.partitions(spends, anchor_coin_id),
    ensures
        bundle_spends_of(
            spend_views(parts.before@),
            parts.anchor@,
            spend_views(parts.targets@),
            parts.vault@,
        ) == spends,
{
    assert(bundle_spends_of(
        spend_views(parts.before@),
        parts.anchor@,
        spend_views(parts.targets@),
        parts.vault@,
    ) =~= spends);
}

/// Tells the spends of one transaction apart, in the order in which the
/// driver collected them: everything before the first spend of the coin
/// `anchor_coin_id`, that spend, the spends after it, and the last spend,
/// which is the vault's. There is no such partition where the anchor's coin
/// is not spent before the last spend.
pub fn partition_spends(spends: Vec<CoinSpend>, anchor_coin_id: &Bytes32) -> (r: Option<
    CollectedSpends,
>)
    ensures
        match r {
            Some(parts) => parts.partitions(spend_views(spends@), anchor_coin_id@),
            None => forall|at: int| !anchor_position(spend_views(spends@), anchor_coin_id@, at),
        },
{
    let ghost all = spend_views(spends@);
    let mut at: usize = 0;
    while at < spends.len() && !spends[at].coin.coin_id().same(anchor_coin_id)
        invariant
            at <= spends@.len(),
            all == spend_views(spends@),
            forall|j: int| 0 <= j < at ==> (#[trigger] all[j]).coin.id() != anchor_coin_id@,
        decreases spends@.len() - at,
    {
        assert(all[at as int] == spends@[at as int]@);
        at = at + 1;
    }
    if at >= spends.len() || at == spends.len() - 1 {
        proof {
            assert forall|k: int| !anchor_position(all, anchor_coin_id@, k) by {
                if anchor_position(all, anchor_coin_id@, k) {
                    if k < at {
                        assert(all[k].coin.id() != anchor_coin_id@);
                    } else if at < spends@.len() {
                        assert(all[at as int] == spends@[at as int]@);
                    }
                }
            }
        }
        return None;
    }
    assert(all[at as int] == spends@[at as int]@);
    let mut before = spends;
    let mut rest = before.split_off(at);
    let mut targets = rest.split_off(1);
    let anchor = match rest.pop() {
        Some(spend) => spend,
        None => {
            return None;
        },
    };
    let vault = match targets.pop() {
        Some(spend) => spend,
        None => {
            return None;
        },
    };
    proof {
        assert(spend_views(before@) =~= all.subrange(0, at as int));
        assert(spend_views(targets@) =~= all.subrange(at as int + 1, all.len() - 1));
        assert(anchor@ == all[at as int]);
        assert(vault@ == all.last());
    }
    Some(CollectedSpends { before, anchor, targets, vault })
}

/// Reads the answer to a submission: a bundle that the ledger rejected fails
/// the attempt, with the ledger's reason as it came.
pub fn report_submission(accepted: bool, reason: String) -> (r: Result<(), EngineError>)
    ensures
        accepted ==> r is Ok,
        !accepted ==> r == Err::<(), EngineError>(EngineError::SubmissionError { reason }),
{
    if accepted {
        Ok(())
    } else {
        Err(EngineError::SubmissionError { reason })
    }
}

} // verus!
