use crate::parse::{hash_of_text, parse_hash};
use crate::targets::HolderCoinRecord;
use vstd::prelude::*;

verus! {

/// One holder of the asset as a holder-listing service reports it.
#[derive(Debug)]
pub struct TokenHolder {
    pub address: String,
    pub amount: u64,
}

/// One page of a holder listing.
#[derive(Debug)]
pub struct TokenHoldersResponse {
    pub status: String,
    pub tokens: Vec<TokenHolder>,
    pub page: u64,
    pub count: u64,
    pub total_count: u64,
}

/// Where a holder-listing service is reached.
#[derive(Debug)]
pub struct SpaceScanClient {
    pub base_url: String,
}

impl SpaceScanClient {
    /// The client for the main network, or for the test network.
    pub fn new(testnet11: bool) -> (r: Self)
        ensures
            testnet11 ==> r.base_url@ == "https://api-testnet11.spacescan.io/"@,
            !testnet11 ==> r.base_url@ == "https://api.spacescan.io/"@,
    {
        let base_url = if testnet11 {
            "https://api-testnet11.spacescan.io/".to_owned()
        } else {
            "https://api.spacescan.io/".to_owned()
        };
        Self { base_url }
    }
}

/// One row of a holder list as it is read: the two hashes still in text.
#[derive(Clone, Debug, PartialEq, Eq)]
pub struct HolderRow {
    pub coin_name: Vec<u8>,
    pub puzzle_hash: Vec<u8>,
    pub amount: u64,
}

/// Whether `record` is what `row` spells.
pub open spec fn is_record_of(record: HolderCoinRecord, row: HolderRow) -> bool {
    &&& hash_of_text(row.coin_name@) == Some(record.coin_name@)
    &&& hash_of_text(row.puzzle_hash@) == Some(record.puzzle_hash@)
    &&& record.amount == row.amount
}

/// Whether both hashes of `row` are well-formed.
pub open spec fn is_well_formed_row(row: HolderRow) -> bool {
    hash_of_text(row.coin_name@) is Some && hash_of_text(row.puzzle_hash@) is Some
}

/// Reads one row of a holder list; `None` where the coin name or the puzzle
/// hash is not 64 hexadecimal digits, with or without `0x`.
pub fn read_holder_row(row: &HolderRow) -> (r: Option<HolderCoinRecord>)
    ensures
        match r {
            Some(record) => is_record_of(record, *row),
            None => !is_well_formed_row(*row),
        },
{
    let coin_name = match parse_hash(row.coin_name.as_slice()) {
        Some(hash) => hash,
        None => {
            return None;
        },
    };
    let puzzle_hash = match parse_hash(row.puzzle_hash.as_slice()) {
        Some(hash) => hash,
        None => {
            return None;
        },
    };
    Some(HolderCoinRecord { coin_name, puzzle_hash, amount: row.amount })
}

/// Reads a holder list, row by row, in order. One row that is not
/// well-formed fails the whole list, with the index of the first such row.
pub fn load_holders_csv(rows: &Vec<HolderRow>) -> (r: Result<Vec<HolderCoinRecord>, usize>)
    ensures
        match r {
            Ok(records) => records@.len() == rows@.len() && forall|i: int|
                0 <= i < rows@.len() ==> is_record_of(#[trigger] records@[i], rows@[i]),
            Err(index) => index < rows@.len() && !is_well_formed_row(rows@[index as int])
                && forall|i: int| 0 <= i < index ==> is_well_formed_row(#[trigger] rows@[i]),
        },
{
    let mut records: Vec<HolderCoinRecord> = Vec::new();
    let mut i: usize = 0;
    while i < rows.len()
        invariant
            i <= rows@.len(),
            records@.len() == i,
            forall|j: int| 0 <= j < i ==> is_record_of(#[trigger] records@[j], rows@[j]),
            forall|j: int| 0 <= j < i ==> is_well_formed_row(#[trigger] rows@[j]),
        decreases rows@.len() - i,
    {
        match read_holder_row(&rows[i]) {
            Some(record) => {
                records.push(record);
            },
            None => {
                return Err(i);
            },
        }
        i = i + 1;
    }
    Ok(records)
}

} // verus!
