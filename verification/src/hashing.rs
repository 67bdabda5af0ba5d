use crate::bytes::{views_of, Bytes32};
use chia_wallet_sdk::clvm_utils::{curry_tree_hash, tree_hash_atom, tree_hash_pair, ToTreeHash, TreeHash};
use vstd::prelude::*;

verus! {

/// The tree hash of a CLVM atom that holds `bytes`.
pub uninterp spec fn atom_hash(bytes: Seq<u8>) -> Seq<u8>;

/// The tree hash of a CLVM pair whose two sides hash to `first` and `rest`.
pub uninterp spec fn pair_hash(first: Seq<u8>, rest: Seq<u8>) -> Seq<u8>;

/// The tree hash of the program with hash `program_hash` after currying in
/// arguments with the hashes `arg_hashes`.
pub uninterp spec fn curried_hash(program_hash: Seq<u8>, arg_hashes: Seq<Seq<u8>>) -> Seq<u8>;

/// The tree hash of the CLVM atom that encodes the integer `n`.
pub uninterp spec fn int_atom_hash(n: u64) -> Seq<u8>;

/// Calls `clvm_utils::tree_hash_atom`, which hashes the byte 1 followed by
/// `bytes` with SHA-256. The digest is not modelled: it is the uninterpreted
/// function `atom_hash` of the bytes.
#[verifier::external_body]
pub(crate) fn hash_atom(bytes: &[u8]) -> (r: Bytes32)
    ensures
        r@ == atom_hash(bytes@),
{
    Bytes32::new(tree_hash_atom(bytes).to_bytes())
}

/// Calls `clvm_utils::tree_hash_pair`, which hashes the byte 2 followed by the
/// two 32-byte hashes with SHA-256. The digest is the uninterpreted function
/// `pair_hash` of the two hashes.
#[verifier::external_body]
pub(crate) fn hash_pair(first: &Bytes32, rest: &Bytes32) -> (r: Bytes32)
    ensures
        r@ == pair_hash(first@, rest@),
{
    Bytes32::new(tree_hash_pair(TreeHash::new(first.bytes), TreeHash::new(rest.bytes)).to_bytes())
}

/// Calls `clvm_utils::curry_tree_hash`, which combines a program hash with
/// the hashes of its curried arguments, in order. The result is the uninterpreted
/// function `curried_hash` of them.
#[verifier::external_body]
pub(crate) fn hash_curried(program_hash: &Bytes32, arg_hashes: &Vec<Bytes32>) -> (r: Bytes32)
    ensures
        r@ == curried_hash(program_hash@, views_of(arg_hashes@)),
{
    let args: Vec<TreeHash> = arg_hashes.iter().map(|h| TreeHash::new(h.bytes)).collect();
    Bytes32::new(curry_tree_hash(TreeHash::new(program_hash.bytes), &args).to_bytes())
}

/// Calls `ToTreeHash::tree_hash` on a `u64`, which hashes the atom that
/// `clvm_traits` encodes the integer as. The result is the uninterpreted function
/// `int_atom_hash` of the integer.
#[verifier::external_body]
pub(crate) fn hash_int_atom(n: u64) -> (r: Bytes32)
    ensures
        r@ == int_atom_hash(n),
{
    Bytes32::new(n.tree_hash().to_bytes())
}

} // verus!
