//! Trusted boundary to the cryptographic primitives of outside crates.
//!
//! Each digest is given a name: an uninterpreted specification function that
//! stands for the outside function's result. The verified code reasons about
//! those names only; nothing in this crate claims to compute them itself.

use sha2::Digest;
use vstd::prelude::*;

verus! {

/// The SHA-256 digest of a byte sequence.
pub uninterp spec fn sha256_of(data: Seq<u8>) -> Seq<u8>;

/// Relies on sha2::Sha256: the digest is 32 bytes and depends on the input
/// bytes alone.
#[verifier::external_body]
pub fn sha256(data: &Vec<u8>) -> (r: Vec<u8>)
    ensures
        r@ == sha256_of(data@),
        r@.len() == 32,
{
    sha2::Sha256::digest(data.as_slice()).to_vec()
}

/// The hash of a leaf node of a hash tree.
pub uninterp spec fn leaf_hash_of(data: Seq<u8>) -> Seq<u8>;

/// Relies on ic_certification::hash_tree::leaf_hash: a domain-separated
/// SHA-256 over the leaf's data, 32 bytes, a function of the data alone.
#[verifier::external_body]
pub fn leaf_hash(data: &Vec<u8>) -> (r: Vec<u8>)
    ensures
        r@ == leaf_hash_of(data@),
        r@.len() == 32,
{
    ic_certification::hash_tree::leaf_hash(data.as_slice()).to_vec()
}

/// The hash of a fork node over two subtree hashes.
pub uninterp spec fn fork_hash_of(left: Seq<u8>, right: Seq<u8>) -> Seq<u8>;

/// Relies on ic_certification::hash_tree::fork_hash: a domain-separated
/// SHA-256 over the two subtree hashes, 32 bytes, a function of them alone.
#[verifier::external_body]
pub fn fork_hash(left: &Vec<u8>, right: &Vec<u8>) -> (r: Vec<u8>)
    requires
        left@.len() == 32,
        right@.len() == 32,
    ensures
        r@ == fork_hash_of(left@, right@),
        r@.len() == 32,
{
    let l: &[u8; 32] = left.as_slice().try_into().unwrap();
    let r: &[u8; 32] = right.as_slice().try_into().unwrap();
    ic_certification::hash_tree::fork_hash(l, r).to_vec()
}

/// The hash of a labeled node over a label and a subtree hash.
pub uninterp spec fn labeled_hash_of(label: Seq<u8>, content_hash: Seq<u8>) -> Seq<u8>;

/// Relies on ic_certification::hash_tree::labeled_hash: a domain-separated
/// SHA-256 over the label and the subtree hash, 32 bytes, a function of them
/// alone.
#[verifier::external_body]
pub fn labeled_hash(label: &Vec<u8>, content_hash: &Vec<u8>) -> (r: Vec<u8>)
    requires
        content_hash@.len() == 32,
    ensures
        r@ == labeled_hash_of(label@, content_hash@),
        r@.len() == 32,
{
    let c: &[u8; 32] = content_hash.as_slice().try_into().unwrap();
    ic_certification::hash_tree::labeled_hash(label.as_slice(), c).to_vec()
}

/// The bytes of the self-authenticating principal derived from public key
/// material.
pub uninterp spec fn self_auth_of(public_key: Seq<u8>) -> Seq<u8>;

/// Relies on candid::Principal::self_authenticating: 29 bytes, the SHA-224
/// of the key material followed by a fixed tag byte, a function of the key
/// material alone.
#[verifier::external_body]
pub fn self_authenticating(public_key: &Vec<u8>) -> (r: Vec<u8>)
    ensures
        r@ == self_auth_of(public_key@),
        r@.len() == 29,
{
    candid::Principal::self_authenticating(public_key).as_slice().to_vec()
}

} // verus!
