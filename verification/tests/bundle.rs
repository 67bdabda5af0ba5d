use chia_wallet_sdk::chia::bls::{sign, SecretKey};
use rcli::bundle::{merge_spends, partition_spends, report_submission, CollectedSpends};
use rcli::{
    assemble_bundle, Bytes32, Coin, CoinSpend, EngineError, Signature, SigningFailure, SpendBundle,
};

fn spend(tag: u8) -> CoinSpend {
    CoinSpend {
        coin: Coin::new(Bytes32::new([tag; 32]), Bytes32::new([tag; 32]), tag as u64),
        puzzle_reveal: vec![tag],
        solution: vec![0x80],
    }
}

fn share(seed: u8) -> (Signature, chia_wallet_sdk::chia::bls::Signature) {
    let key = SecretKey::from_seed(&[seed; 32]);
    let signature = sign(&key, [seed; 4]);
    (Signature::new(signature.to_bytes()), signature)
}

fn offer() -> SpendBundle {
    SpendBundle { coin_spends: vec![spend(1), spend(2)], aggregated_signature: share(1).0 }
}

#[test]
fn bundle_keeps_every_spend_in_order_and_combines_the_shares() {
    let (anchor, anchor_point) = share(2);
    let (vault, vault_point) = share(3);
    let bundle = assemble_bundle(
        offer(),
        spend(3),
        vec![spend(4), spend(5), spend(6)],
        spend(7),
        Some(anchor),
        Some(vault),
    )
    .unwrap();
    let tags: Vec<u8> = bundle.coin_spends.iter().map(|s| s.puzzle_reveal[0]).collect();
    assert_eq!(tags, vec![1, 2, 3, 4, 5, 6, 7]);
    let expected = share(1).1 + &(anchor_point.clone() + &vault_point);
    assert_eq!(bundle.aggregated_signature.bytes, expected.to_bytes());
    assert_ne!(bundle.aggregated_signature.bytes, anchor_point.to_bytes());
    assert!(bundle.spends_coin(&spend(5).coin.coin_id()));
    assert!(bundle.spends_coin(&spend(7).coin.coin_id()));
    assert!(!bundle.spends_coin(&spend(8).coin.coin_id()));
}

#[test]
fn bundle_without_the_anchor_share_fails_with_signing_error() {
    let result = assemble_bundle(offer(), spend(3), vec![spend(4)], spend(7), None, Some(share(3).0));
    assert_eq!(
        result,
        Err(EngineError::SigningError { reason: SigningFailure::MissingAnchorShare })
    );
}

#[test]
fn bundle_without_the_vault_share_fails_with_signing_error() {
    let result = assemble_bundle(offer(), spend(3), vec![spend(4)], spend(7), Some(share(2).0), None);
    assert_eq!(
        result,
        Err(EngineError::SigningError { reason: SigningFailure::MissingVaultShare })
    );
}

#[test]
fn bundle_with_a_malformed_share_fails_with_signing_error() {
    let result = assemble_bundle(
        offer(),
        spend(3),
        vec![spend(4)],
        spend(7),
        Some(share(2).0),
        Some(Signature::new([0xff; 96])),
    );
    assert_eq!(result, Err(EngineError::SigningError { reason: SigningFailure::MalformedShare }));
}

#[test]
fn collected_spends_are_told_apart_at_the_anchor() {
    let spends = vec![spend(1), spend(2), spend(3), spend(4), spend(5)];
    assert_eq!(
        partition_spends(spends.clone(), &spend(2).coin.coin_id()),
        Some(CollectedSpends {
            before: vec![spend(1)],
            anchor: spend(2),
            targets: vec![spend(3), spend(4)],
            vault: spend(5),
        })
    );
    assert_eq!(
        partition_spends(vec![spend(2), spend(5)], &spend(2).coin.coin_id()),
        Some(CollectedSpends {
            before: Vec::new(),
            anchor: spend(2),
            targets: Vec::new(),
            vault: spend(5),
        })
    );
    assert_eq!(partition_spends(spends.clone(), &spend(5).coin.coin_id()), None);
    assert_eq!(partition_spends(spends, &spend(9).coin.coin_id()), None);
    assert_eq!(partition_spends(Vec::new(), &spend(9).coin.coin_id()), None);
}

#[test]
fn rejected_submission_is_reported_with_the_reason_of_the_ledger() {
    assert_eq!(report_submission(true, "SUCCESS".to_string()), Ok(()));
    assert_eq!(
        report_submission(false, "DOUBLE_SPEND".to_string()),
        Err(EngineError::SubmissionError { reason: "DOUBLE_SPEND".to_string() })
    );
}

#[test]
fn merged_spends_stand_in_the_order_of_the_transaction() {
    let signature = share(4).0;
    let bundle = merge_spends(vec![spend(1)], spend(2), vec![spend(3), spend(4)], spend(5), signature);
    assert_eq!(bundle.coin_spends, vec![spend(1), spend(2), spend(3), spend(4), spend(5)]);
    assert_eq!(bundle.aggregated_signature, signature);
    let bare = merge_spends(Vec::new(), spend(2), Vec::new(), spend(5), signature);
    assert_eq!(bare.coin_spends, vec![spend(2), spend(5)]);
}
