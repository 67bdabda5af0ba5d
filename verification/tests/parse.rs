use rcli::parse::{check_all_found, parse_hash, strip_prefix_marks};
use rcli::{cli_revoke, load_holders_csv, Bytes32, EngineError, HolderCoinRecord, HolderRow, SpaceScanClient};

fn digits(byte: u8) -> String {
    hex::encode([byte; 32])
}

#[test]
fn hash_text_is_read_with_and_without_prefix() {
    let text = "0x000102030405060708090a0b0c0d0e0f101112131415161718191A1B1C1D1E1F";
    let mut expected = [0u8; 32];
    for (i, byte) in expected.iter_mut().enumerate() {
        *byte = i as u8;
    }
    assert_eq!(parse_hash(text.as_bytes()), Some(Bytes32::new(expected)));
    assert_eq!(parse_hash(text[2..].as_bytes()), Some(Bytes32::new(expected)));
    assert_eq!(parse_hash(digits(0xab).as_bytes()), Some(Bytes32::new(hex::FromHex::from_hex(digits(0xab)).unwrap())));
}

#[test]
fn hash_text_of_wrong_length_or_digits_is_refused() {
    assert_eq!(parse_hash(b""), None);
    assert_eq!(parse_hash(&digits(1).as_bytes()[1..]), None);
    assert_eq!(parse_hash(format!("{}00", digits(1)).as_bytes()), None);
    assert_eq!(parse_hash(format!("{}g", &digits(1)[1..]).as_bytes()), None);
}

#[test]
fn every_prefix_mark_is_removed() {
    assert_eq!(strip_prefix_marks(b"0xab0xcd"), b"abcd".to_vec());
    assert_eq!(strip_prefix_marks(b"00x0"), b"00".to_vec());
    assert_eq!(strip_prefix_marks(b"0"), b"0".to_vec());
    assert_eq!(strip_prefix_marks(b"x0"), b"x0".to_vec());
    assert_eq!(strip_prefix_marks(b""), Vec::<u8>::new());
    assert_eq!(strip_prefix_marks(b"a0xb"), "a0xb".replace("0x", "").into_bytes());
}

#[test]
fn coin_id_list_is_read_in_order() {
    let list = format!("0x{},{},0x{}", digits(1), digits(2), digits(3));
    assert_eq!(
        cli_revoke(list.as_bytes()),
        Ok(vec![Bytes32::new([1; 32]), Bytes32::new([2; 32]), Bytes32::new([3; 32])])
    );
    assert_eq!(cli_revoke(digits(9).as_bytes()), Ok(vec![Bytes32::new([9; 32])]));
}

#[test]
fn coin_id_list_with_a_bad_item_names_the_item() {
    let list = format!("{},nothex,{}", digits(1), digits(3));
    assert_eq!(cli_revoke(list.as_bytes()), Err(1));
    assert_eq!(cli_revoke(b""), Err(0));
    assert_eq!(cli_revoke(format!("{},", digits(1)).as_bytes()), Err(1));
}

#[test]
fn missing_records_are_reported_with_both_counts() {
    assert_eq!(check_all_found(3, 3), Ok(()));
    assert_eq!(
        check_all_found(3, 2),
        Err(EngineError::InsufficientTargets { actual: 2, required: 3 })
    );
}

#[test]
fn holder_rows_are_read_in_order() {
    let row = |name: u8, owner: u8, amount: u64| HolderRow {
        coin_name: format!("0x{}", digits(name)).into_bytes(),
        puzzle_hash: digits(owner).into_bytes(),
        amount,
    };
    let rows = vec![row(1, 2, 1000), row(3, 4, 5)];
    assert_eq!(
        load_holders_csv(&rows),
        Ok(vec![
            HolderCoinRecord {
                coin_name: Bytes32::new([1; 32]),
                puzzle_hash: Bytes32::new([2; 32]),
                amount: 1000,
            },
            HolderCoinRecord {
                coin_name: Bytes32::new([3; 32]),
                puzzle_hash: Bytes32::new([4; 32]),
                amount: 5,
            },
        ])
    );
    let mut bad = rows.clone();
    bad[1].puzzle_hash = b"12".to_vec();
    assert_eq!(load_holders_csv(&bad), Err(1));
}

#[test]
fn listing_client_knows_both_networks() {
    assert_eq!(SpaceScanClient::new(false).base_url, "https://api.spacescan.io/");
    assert_eq!(SpaceScanClient::new(true).base_url, "https://api-testnet11.spacescan.io/");
}
