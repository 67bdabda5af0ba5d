use crate::bytes::Bytes32;
use crate::conditions::list_hash;
use crate::hashing::{atom_hash, curried_hash, hash_atom, hash_curried, hash_int_atom, hash_pair, int_atom_hash};
use chia_puzzle_types::cat::CatArgs;
use chia_puzzle_types::singleton::SingletonStruct;
use chia_wallet_sdk::clvm_utils::{ToTreeHash, TreeHash};
use chia_wallet_sdk::types::puzzles::{P2DelegatedBySingletonLayerArgs, RevocationArgs};
use chia_wallet_sdk::types::Mod;
use vstd::prelude::*;

verus! {

/// The serialized issuance program that lets exactly one singleton mint and
/// melt the asset.
pub const EVERYTHING_WITH_SINGLETON_TAIL: [u8; 283] = [
    0xff, 0x02, 0xff, 0xff, 0x01, 0xff, 0x04, 0xff, 0xff, 0x04, 0xff, 0x04, 0xff, 0xff, 0x04, 0xff,
    0xff, 0x01, 0x17, 0xff, 0xff, 0x04, 0xff, 0x82, 0x01, 0x7f, 0xff, 0xff, 0x04, 0xff, 0xff, 0x0b,
    0xff, 0x2e, 0xff, 0xff, 0x0b, 0xff, 0x0a, 0xff, 0xff, 0x0b, 0xff, 0x0a, 0xff, 0x36, 0xff, 0x05,
    0x80, 0xff, 0xff, 0x0b, 0xff, 0x0a, 0xff, 0xff, 0x0b, 0xff, 0x3e, 0xff, 0xff, 0x0b, 0xff, 0x0a,
    0xff, 0xff, 0x0b, 0xff, 0x0a, 0xff, 0x36, 0xff, 0x0b, 0x80, 0xff, 0xff, 0x0b, 0xff, 0x0a, 0xff,
    0xff, 0x0b, 0xff, 0x3e, 0xff, 0xff, 0x0b, 0xff, 0x0a, 0xff, 0xff, 0x0b, 0xff, 0x0a, 0xff, 0x36,
    0xff, 0x82, 0x09, 0xff, 0x80, 0xff, 0xff, 0x0b, 0xff, 0x0a, 0xff, 0x36, 0xff, 0x26, 0x80, 0x80,
    0x80, 0xff, 0x26, 0x80, 0x80, 0x80, 0xff, 0x26, 0x80, 0x80, 0x80, 0xff, 0x80, 0x80, 0x80, 0x80,
    0x80, 0xff, 0x80, 0x80, 0xff, 0xff, 0x04, 0xff, 0xff, 0x01, 0xff, 0x43, 0xff, 0x02, 0xff, 0xff,
    0xa0, 0x4b, 0xf5, 0x12, 0x2f, 0x34, 0x45, 0x54, 0xc5, 0x3b, 0xde, 0x2e, 0xbb, 0x8c, 0xd2, 0xb7,
    0xe3, 0xd1, 0x60, 0x0a, 0xd6, 0x31, 0xc3, 0x85, 0xa5, 0xd7, 0xcc, 0xe2, 0x3c, 0x77, 0x85, 0x45,
    0x9a, 0xa0, 0x9d, 0xcf, 0x97, 0xa1, 0x84, 0xf3, 0x26, 0x23, 0xd1, 0x1a, 0x73, 0x12, 0x4c, 0xeb,
    0x99, 0xa5, 0x70, 0x9b, 0x08, 0x37, 0x21, 0xe8, 0x78, 0xa1, 0x6d, 0x78, 0xf5, 0x96, 0x71, 0x8b,
    0xa7, 0xb2, 0xff, 0xa1, 0x02, 0xa1, 0x28, 0x71, 0xfe, 0xe2, 0x10, 0xfb, 0x86, 0x19, 0x29, 0x1e,
    0xae, 0xa1, 0x94, 0x58, 0x1c, 0xbd, 0x25, 0x31, 0xe4, 0xb2, 0x37, 0x59, 0xd2, 0x25, 0xf6, 0x80,
    0x69, 0x23, 0xf6, 0x32, 0x22, 0xa1, 0x02, 0xa8, 0xd5, 0xdd, 0x63, 0xfb, 0xa4, 0x71, 0xeb, 0xcb,
    0x1f, 0x3e, 0x8f, 0x7c, 0x1e, 0x18, 0x79, 0xb7, 0x15, 0x2a, 0x6e, 0x72, 0x98, 0xa9, 0x1c, 0xe1,
    0x19, 0xa6, 0x34, 0x00, 0xad, 0xe7, 0xc5, 0xff, 0x01, 0x80, 0x80,
];

/// The tree hash of [`EVERYTHING_WITH_SINGLETON_TAIL`].
pub const EVERYTHING_WITH_SINGLETON_TAIL_HASH: [u8; 32] = [
    0x08, 0x76, 0xda, 0x20, 0x05, 0xfe, 0x62, 0x62, 0xd4, 0x50, 0x4c, 0x27, 0xa1, 0xb6, 0x37, 0x92,
    0x27, 0xab, 0xa8, 0xad, 0xbb, 0xad, 0x37, 0x58, 0xcb, 0x0e, 0x32, 0x9a, 0x4e, 0x74, 0xc6, 0xcc,
];

/// The tree hash of the singleton top layer that every vault coin is wrapped in.
pub const SINGLETON_TOP_LAYER_HASH: [u8; 32] = [
    0x7f, 0xaa, 0x32, 0x53, 0xbf, 0xdd, 0xd1, 0xe0, 0xde, 0xcb, 0x09, 0x06, 0xb2, 0xdc, 0x62, 0x47,
    0xbb, 0xc4, 0xcf, 0x60, 0x8f, 0x58, 0x34, 0x5d, 0x17, 0x3a, 0xdb, 0x63, 0xe8, 0xb4, 0x7c, 0x9f,
];

/// The nonce that the governed asset and its revocation authority are
/// derived with.
pub const ISSUANCE_NONCE: u64 = 0;

/// The tree hash of the singleton structure that identifies the singleton
/// launched by the coin `launcher_id`.
pub uninterp spec fn singleton_struct_hash_of(launcher_id: Seq<u8>) -> Seq<u8>;

/// The hash of the puzzle that lets the singleton with structure hash
/// `singleton_struct_hash` dictate a coin's spend, for a nonce.
pub uninterp spec fn p2_delegated_by_singleton_hash_of(singleton_struct_hash: Seq<u8>, nonce: u64) -> Seq<u8>;

/// The hash of the revocation layer that wraps the holder's puzzle
/// `inner_puzzle_hash` and hands the authority `hidden_puzzle_hash` the power
/// to revoke.
pub uninterp spec fn revocation_puzzle_hash_of(hidden_puzzle_hash: Seq<u8>, inner_puzzle_hash: Seq<u8>) -> Seq<u8>;

/// The hash of the asset layer for `asset_id` around `inner_puzzle_hash`.
pub uninterp spec fn cat_puzzle_hash_of(asset_id: Seq<u8>, inner_puzzle_hash: Seq<u8>) -> Seq<u8>;

/// Builds `chia_puzzle_types::singleton::SingletonStruct::new` for the
/// launcher and takes its tree hash with `ToTreeHash::tree_hash`. The result
/// is the uninterpreted function `singleton_struct_hash_of` of the launcher
/// identifier.
#[verifier::external_body]
fn hash_singleton_struct(launcher_id: &Bytes32) -> (r: Bytes32)
    ensures
        r@ == singleton_struct_hash_of(launcher_id@),
{
    Bytes32::new(SingletonStruct::new(launcher_id.bytes.into()).tree_hash().to_bytes())
}

/// Calls `P2DelegatedBySingletonLayerArgs::curry_tree_hash` of
/// `chia_sdk_types`. The result is the uninterpreted function
/// `p2_delegated_by_singleton_hash_of` of the two arguments.
#[verifier::external_body]
fn hash_p2_delegated_by_singleton(singleton_struct_hash: &Bytes32, nonce: u64) -> (r: Bytes32)
    ensures
        r@ == p2_delegated_by_singleton_hash_of(singleton_struct_hash@, nonce),
{
    let hash = P2DelegatedBySingletonLayerArgs::curry_tree_hash(singleton_struct_hash.bytes.into(), nonce);
    Bytes32::new(hash.to_bytes())
}

/// Builds `RevocationArgs::new` of `chia_sdk_types` and calls
/// `Mod::curry_tree_hash` on it. The result is the uninterpreted function
/// `revocation_puzzle_hash_of` of the two hashes.
#[verifier::external_body]
fn hash_revocation_layer(hidden_puzzle_hash: &Bytes32, inner_puzzle_hash: &Bytes32) -> (r: Bytes32)
    ensures
        r@ == revocation_puzzle_hash_of(hidden_puzzle_hash@, inner_puzzle_hash@),
{
    let args = RevocationArgs::new(hidden_puzzle_hash.bytes.into(), inner_puzzle_hash.bytes.into());
    Bytes32::new(args.curry_tree_hash().to_bytes())
}

/// Calls `CatArgs::curry_tree_hash` of `chia_puzzle_types`. The result is the
/// uninterpreted function `cat_puzzle_hash_of` of the two hashes.
#[verifier::external_body]
fn hash_cat_layer(asset_id: &Bytes32, inner_puzzle_hash: &Bytes32) -> (r: Bytes32)
    ensures
        r@ == cat_puzzle_hash_of(asset_id@, inner_puzzle_hash@),
{
    let hash = CatArgs::curry_tree_hash(asset_id.bytes.into(), TreeHash::new(inner_puzzle_hash.bytes));
    Bytes32::new(hash.to_bytes())
}

/// The tree hash of the singleton structure of the vault launched by
/// `launcher_id`.
pub fn singleton_struct_hash(launcher_id: &Bytes32) -> (r: Bytes32)
    ensures
        r@ == singleton_struct_hash_of(launcher_id@),
{
    hash_singleton_struct(launcher_id)
}

/// The hash of the revocation layer around a holder's puzzle.
pub fn revocation_puzzle_hash(hidden_puzzle_hash: &Bytes32, inner_puzzle_hash: &Bytes32) -> (r: Bytes32)
    ensures
        r@ == revocation_puzzle_hash_of(hidden_puzzle_hash@, inner_puzzle_hash@),
{
    hash_revocation_layer(hidden_puzzle_hash, inner_puzzle_hash)
}

/// The hash of the asset layer for `asset_id` around an inner puzzle.
pub fn cat_puzzle_hash(asset_id: &Bytes32, inner_puzzle_hash: &Bytes32) -> (r: Bytes32)
    ensures
        r@ == cat_puzzle_hash_of(asset_id@, inner_puzzle_hash@),
{
    hash_cat_layer(asset_id, inner_puzzle_hash)
}

/// The revocation authority of the asset that the vault launched by
/// `launcher_id` governs: the hash of the puzzle that only that vault can
/// direct.
pub open spec fn hidden_puzzle_hash_of(launcher_id: Seq<u8>) -> Seq<u8> {
    p2_delegated_by_singleton_hash_of(singleton_struct_hash_of(launcher_id), ISSUANCE_NONCE)
}

/// The revocation authority of the asset that the vault launched by
/// `launcher_id` governs.
pub fn hidden_puzzle_hash(launcher_id: &Bytes32) -> (r: Bytes32)
    ensures
        r@ == hidden_puzzle_hash_of(launcher_id@),
{
    let struct_hash = hash_singleton_struct(launcher_id);
    hash_p2_delegated_by_singleton(&struct_hash, ISSUANCE_NONCE)
}

/// The arguments curried into the issuance program: which singleton may mint.
#[derive(Clone, Copy, Debug, PartialEq, Eq)]
pub struct EverythingWithSingletonTailArgs {
    pub singleton_mod_hash: Bytes32,
    pub singleton_struct_hash: Bytes32,
    pub nonce: u64,
}

/// The tree hash of the issuance program with the given arguments curried in.
pub open spec fn tail_hash_of(singleton_mod_hash: Seq<u8>, singleton_struct_hash: Seq<u8>, nonce: u64) -> Seq<u8> {
    curried_hash(
        EVERYTHING_WITH_SINGLETON_TAIL_HASH@,
        seq![atom_hash(singleton_mod_hash), atom_hash(singleton_struct_hash), int_atom_hash(nonce)],
    )
}

/// The identifier of the asset that the vault launched by `launcher_id`
/// governs: a function of the vault's identity and the fixed nonce alone.
pub open spec fn asset_id_of(launcher_id: Seq<u8>) -> Seq<u8> {
    tail_hash_of(SINGLETON_TOP_LAYER_HASH@, singleton_struct_hash_of(launcher_id), ISSUANCE_NONCE)
}

impl EverythingWithSingletonTailArgs {
    pub fn new(singleton_launcher_id: Bytes32, nonce: u64) -> (r: Self)
        ensures
            r.singleton_mod_hash@ == SINGLETON_TOP_LAYER_HASH@,
            r.singleton_struct_hash@ == singleton_struct_hash_of(singleton_launcher_id@),
            r.nonce == nonce,
    {
        Self {
            singleton_mod_hash: Bytes32::new(SINGLETON_TOP_LAYER_HASH),
            singleton_struct_hash: hash_singleton_struct(&singleton_launcher_id),
            nonce,
        }
    }

    /// The serialized issuance program.
    pub fn mod_reveal() -> (r: [u8; 283])
        ensures
            r == EVERYTHING_WITH_SINGLETON_TAIL,
    {
        EVERYTHING_WITH_SINGLETON_TAIL
    }

    /// The tree hash of the issuance program.
    pub fn mod_hash() -> (r: Bytes32)
        ensures
            r@ == EVERYTHING_WITH_SINGLETON_TAIL_HASH@,
    {
        Bytes32::new(EVERYTHING_WITH_SINGLETON_TAIL_HASH)
    }

    /// The tree hash of the issuance program with these arguments curried
    /// in, which is the asset identifier.
    pub fn curry_tree_hash(&self) -> (r: Bytes32)
        ensures
            r@ == tail_hash_of(self.singleton_mod_hash@, self.singleton_struct_hash@, self.nonce),
    {
        let mut args: Vec<Bytes32> = Vec::new();
        args.push(hash_atom(self.singleton_mod_hash.bytes.as_slice()));
        args.push(hash_atom(self.singleton_struct_hash.bytes.as_slice()));
        args.push(hash_int_atom(self.nonce));
        proof {
            assert(crate::bytes::views_of(args@) =~= seq![
                atom_hash(self.singleton_mod_hash@),
                atom_hash(self.singleton_struct_hash@),
                int_atom_hash(self.nonce),
            ]);
        }
        hash_curried(&Self::mod_hash(), &args)
    }
}

/// The identifier of the asset that the vault launched by `launcher_id`
/// governs.
pub fn asset_id(launcher_id: &Bytes32) -> (r: Bytes32)
    ensures
        r@ == asset_id_of(launcher_id@),
{
    EverythingWithSingletonTailArgs::new(*launcher_id, ISSUANCE_NONCE).curry_tree_hash()
}

/// The solution that the issuance program is run with: the inner puzzle hash
/// of the vault that approves.
#[derive(Clone, Copy, Debug, PartialEq, Eq)]
pub struct EverythingWithSingletonTailSolution {
    pub singleton_inner_puzzle_hash: Bytes32,
}

impl EverythingWithSingletonTailSolution {
    /// The tree hash of the solution: the one-element list of the hash.
    pub fn tree_hash(&self) -> (r: Bytes32)
        ensures
            r@ == list_hash(seq![atom_hash(self.singleton_inner_puzzle_hash@)]),
    {
        let empty: Vec<u8> = Vec::new();
        let nil = hash_atom(empty.as_slice());
        let item = hash_atom(self.singleton_inner_puzzle_hash.bytes.as_slice());
        proof {
            let items = seq![atom_hash(self.singleton_inner_puzzle_hash@)];
            assert(empty@ =~= Seq::<u8>::empty());
            assert(items.skip(1) =~= Seq::<Seq<u8>>::empty());
            assert(list_hash(items.skip(1)) == atom_hash(Seq::<u8>::empty()));
        }
        hash_pair(&item, &nil)
    }
}

} // verus!
