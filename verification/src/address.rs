use crate::bytes::Bytes32;
use crate::conditions::option_view;
use crate::error::{EngineError, SigningFailure};
use crate::keys::PublicKey;
use chia_puzzle_types::standard::StandardArgs;
use chia_wallet_sdk::chia::bls::PublicKey as BlsPublicKey;
use vstd::prelude::*;

verus! {

/// The hash of the standard puzzle that the synthetic key `key` locks;
/// `None` where `key` is not a valid public key.
pub uninterp spec fn standard_puzzle_hash_of(key: Seq<u8>) -> Option<Seq<u8>>;

/// Parses the key with `chia_bls::PublicKey::from_bytes` and calls
/// `StandardArgs::curry_tree_hash` of `chia_puzzle_types`. A key that does
/// not parse gives `None`. The result is the uninterpreted function
/// `standard_puzzle_hash_of` of the key.
#[verifier::external_body]
fn hash_standard_puzzle(key: &PublicKey) -> (r: Option<Bytes32>)
    ensures
        option_view(r) == standard_puzzle_hash_of(key@),
{
    let key = BlsPublicKey::from_bytes(&key.bytes).ok()?;
    Some(Bytes32::new(StandardArgs::curry_tree_hash(key).to_bytes()))
}

/// What is found of an address, given the puzzle hash that it encodes and
/// the hash of the standard puzzle of the key that is said to lock it, where
/// the key is valid.
pub open spec fn address_finding(puzzle_hash: Seq<u8>, key_puzzle_hash: Option<Seq<u8>>) -> Result<
    Seq<u8>,
    SigningFailure,
> {
    match key_puzzle_hash {
        None => Err(SigningFailure::InvalidKey),
        Some(hash) => if hash == puzzle_hash {
            Ok(hash)
        } else {
            Err(SigningFailure::KeyMismatch)
        },
    }
}

/// What the wallet's first address must be, given what the wallet reports of
/// it: the puzzle hash that its address encodes and its public key.
pub open spec fn first_address_of(puzzle_hash: Seq<u8>, key: Seq<u8>) -> Result<
    Seq<u8>,
    SigningFailure,
> {
    address_finding(puzzle_hash, standard_puzzle_hash_of(key))
}

/// Judges an address against the hash of the standard puzzle of the key that
/// is said to lock it: the key must be valid, and the address must encode
/// that hash.
pub fn check_address(
    address_puzzle_hash: &Bytes32,
    key_puzzle_hash: &Option<Bytes32>,
    public_key: &PublicKey,
) -> (r: Result<PublicKey, EngineError>)
    ensures
        match address_finding(address_puzzle_hash@, option_view(*key_puzzle_hash)) {
            Ok(_) => r == Ok::<PublicKey, EngineError>(*public_key),
            Err(reason) => r == Err::<PublicKey, EngineError>(
                EngineError::SigningError { reason },
            ),
        },
{
    match key_puzzle_hash {
        None => Err(EngineError::SigningError { reason: SigningFailure::InvalidKey }),
        Some(hash) => {
            if hash.same(address_puzzle_hash) {
                Ok(*public_key)
            } else {
                Err(EngineError::SigningError { reason: SigningFailure::KeyMismatch })
            }
        },
    }
}

/// Checks the first address that the wallet reports against the key that it
/// reports: the address must encode the hash of the standard puzzle for that
/// key. Returns the key, which locks the address, where it does.
pub fn get_first_address(address_puzzle_hash: &Bytes32, public_key: &PublicKey) -> (r: Result<
    PublicKey,
    EngineError,
>)
    ensures
        match first_address_of(address_puzzle_hash@, public_key@) {
            Ok(_) => r == Ok::<PublicKey, EngineError>(*public_key),
            Err(reason) => r == Err::<PublicKey, EngineError>(
                EngineError::SigningError { reason },
            ),
        },
{
    let key_puzzle_hash = hash_standard_puzzle(public_key);
    check_address(address_puzzle_hash, &key_puzzle_hash, public_key)
}

} // verus!
